use vstd::prelude::*;
use crate::motion::{Key, Motion, Vec3, SPEED, UNIT};

verus! {

/// The loop's two states. Exiting is terminal.
#[derive(Clone, Copy, Debug, PartialEq, Eq, Structural)]
pub enum Phase {
    Running,
    Exiting,
}

/// What the window side hands the loop: a close request, a key going down
/// or up, or the fixed-cadence timer firing.
#[derive(Clone, Copy, Debug, PartialEq, Eq, Structural)]
pub enum Event {
    CloseRequested,
    Pressed(Key),
    Released(Key),
    Tick,
}

/// What the window side is to do next: draw one frame with these offsets,
/// wait for the next event, or stop the loop.
#[derive(Clone, Copy, Debug, PartialEq, Eq, Structural)]
pub enum Action {
    Draw(Vec3),
    Wait,
    Exit,
}

/// The loop's decisions: its phase and the animation state it owns.
#[derive(Clone, Copy, Debug, PartialEq, Eq, Structural)]
pub struct Driver {
    pub phase: Phase,
    pub motion: Motion,
}

impl Driver {
    /// The state and action that follow `ev`. Once Exiting, nothing changes
    /// and nothing is drawn. A close request ends the loop; keys change the
    /// motion; a tick integrates it once and draws the new offsets.
    pub open spec fn next(self, ev: Event) -> (Driver, Action) {
        match self.phase {
            Phase::Exiting => (self, Action::Wait),
            Phase::Running => match ev {
                Event::CloseRequested => (Driver { phase: Phase::Exiting, ..self }, Action::Exit),
                Event::Pressed(k) => (Driver { motion: self.motion.pressed(k), ..self }, Action::Wait),
                Event::Released(k) => (
                    Driver { motion: self.motion.released(k), ..self },
                    Action::Wait,
                ),
                Event::Tick => {
                    let m = self.motion.ticked();
                    (Driver { motion: m, ..self }, Action::Draw(m.offsets))
                },
            },
        }
    }

    /// The state after handling every event of `evs` in order.
    pub open spec fn run(self, evs: Seq<Event>) -> Driver
        decreases evs.len(),
    {
        if evs.len() == 0 {
            self
        } else {
            self.run(evs.drop_last()).next(evs.last()).0
        }
    }

    /// Whether `ev` can be handled without the offsets leaving `i64`.
    pub open spec fn ready_for(self, ev: Event) -> bool {
        (self.phase == Phase::Running && ev == Event::Tick) ==> self.motion.fits_tick()
    }

    pub fn new() -> (r: Driver)
        ensures
            r.phase == Phase::Running,
            r.motion == Motion::new_spec(),
    {
        Driver { phase: Phase::Running, motion: Motion::new() }
    }

    pub fn can_step(&self, ev: Event) -> (r: bool)
        ensures
            r == self.ready_for(ev),
    {
        match (self.phase, ev) {
            (Phase::Running, Event::Tick) => self.motion.can_tick(),
            _ => true,
        }
    }

    pub fn step(&mut self, ev: Event) -> (a: Action)
        requires
            old(self).ready_for(ev),
        ensures
            (*final(self), a) == old(self).next(ev),
    {
        match self.phase {
            Phase::Exiting => Action::Wait,
            Phase::Running => match ev {
                Event::CloseRequested => {
                    self.phase = Phase::Exiting;
                    Action::Exit
                },
                Event::Pressed(k) => {
                    self.motion.press(k);
                    Action::Wait
                },
                Event::Released(k) => {
                    self.motion.release(k);
                    Action::Wait
                },
                Event::Tick => {
                    self.motion.tick();
                    Action::Draw(self.motion.offsets)
                },
            },
        }
    }
}

/// The shader's transform for offsets `o`, column by column: the identity
/// with the vertical axis flipped, and the offsets in the last column's x, y
/// and w places. Entries are in `UNIT` steps.
pub fn transform(o: Vec3) -> (m: [[i64; 4]; 4])
    ensures
        m[0]@ == seq![UNIT, 0, 0, 0],
        m[1]@ == seq![0, (-UNIT) as i64, 0, 0],
        m[2]@ == seq![0, 0, UNIT, 0],
        m[3]@ == seq![o.x, o.y, 0, o.z],
{
    let m = [[UNIT, 0, 0, 0], [0, -UNIT, 0, 0], [0, 0, UNIT, 0], [o.x, o.y, 0, o.z]];
    proof {
        assert(m[0]@ =~= seq![UNIT, 0, 0, 0]);
        assert(m[1]@ =~= seq![0, (-UNIT) as i64, 0, 0]);
        assert(m[2]@ =~= seq![0, 0, UNIT, 0]);
        assert(m[3]@ =~= seq![o.x, o.y, 0, o.z]);
    }
    m
}

/// A close request ends the loop from any state and whatever keys are held:
/// the driver is Exiting afterwards (having said Exit if it was running), and
/// no later event changes it or draws another frame.
pub proof fn lemma_close_is_final(d: Driver, later: Seq<Event>)
    ensures
        d.next(Event::CloseRequested).0.phase == Phase::Exiting,
        d.phase == Phase::Running ==> d.next(Event::CloseRequested).1 == Action::Exit,
        d.next(Event::CloseRequested).0.run(later) == d.next(Event::CloseRequested).0,
        forall|i: int|
            0 <= i < later.len() ==> #[trigger] d.next(Event::CloseRequested).0.run(
                later.take(i),
            ).next(later[i]).1 == Action::Wait,
    decreases later.len(),
{
    let after = d.next(Event::CloseRequested).0;
    if later.len() > 0 {
        lemma_close_is_final(d, later.drop_last());
        assert forall|i: int| 0 <= i < later.len() implies #[trigger] after.run(later.take(i)).next(
            later[i],
        ).1 == Action::Wait by {
            if i < later.len() - 1 {
                assert(later.take(i) == later.drop_last().take(i));
                assert(later[i] == later.drop_last()[i]);
            } else {
                assert(later.take(i) == later.drop_last());
            }
        }
    }
}


/// A key going down or up on the vertical axis (`W` up, `S` down).
pub open spec fn vertical_key_event(e: Event) -> bool {
    ||| e == Event::Pressed(Key::W)
    ||| e == Event::Pressed(Key::S)
    ||| e == Event::Released(Key::W)
    ||| e == Event::Released(Key::S)
}

/// Whether `k` is still held after `evs`: its latest event is a press.
pub open spec fn held(evs: Seq<Event>, k: Key) -> bool
    decreases evs.len(),
{
    if evs.len() == 0 {
        false
    } else if evs.last() == Event::Pressed(k) {
        true
    } else if evs.last() == Event::Released(k) {
        false
    } else {
        held(evs.drop_last(), k)
    }
}

/// The position of the latest press of `k` in `evs`, or -1.
pub open spec fn last_press(evs: Seq<Event>, k: Key) -> int
    decreases evs.len(),
{
    if evs.len() == 0 {
        -1
    } else if evs.last() == Event::Pressed(k) {
        evs.len() - 1
    } else {
        last_press(evs.drop_last(), k)
    }
}

/// The vertical rate that the most recently pressed of the held vertical
/// keys asks for, or zero when neither is held.
pub open spec fn newest_held_rate(evs: Seq<Event>) -> i64 {
    let w = held(evs, Key::W);
    let s = held(evs, Key::S);
    if w && (!s || last_press(evs, Key::W) > last_press(evs, Key::S)) {
        SPEED
    } else if s {
        (-SPEED) as i64
    } else {
        0
    }
}

proof fn lemma_last_press_bound(evs: Seq<Event>, k: Key)
    ensures
        -1 <= last_press(evs, k) < evs.len(),
        evs.len() > 0 && evs.last() != Event::Pressed(k) ==> last_press(evs, k) < evs.len() - 1,
    decreases evs.len(),
{
    if evs.len() > 0 {
        lemma_last_press_bound(evs.drop_last(), k);
    }
}

/// Starting with the vertical axis at rest, after any run of `W`/`S` presses
/// and releases the vertical rate is that of the most recently pressed key
/// still held, last writer winning, and zero once both are up. A release
/// stops the whole axis, so the run may not end in a release while the other
/// key is still down: there the rate is zero.
pub proof fn lemma_vertical_rate(d: Driver, evs: Seq<Event>)
    requires
        d.phase == Phase::Running,
        d.motion.rates.y == 0,
        forall|i: int| 0 <= i < evs.len() ==> vertical_key_event(#[trigger] evs[i]),
        evs.len() > 0 && (evs.last() == Event::Released(Key::W) || evs.last() == Event::Released(
            Key::S,
        )) ==> !held(evs, Key::W) && !held(evs, Key::S),
    ensures
        d.run(evs).phase == Phase::Running,
        d.run(evs).motion.rates.y == newest_held_rate(evs),
{
    lemma_vertical_rate_latest(d, evs);
    if evs.len() > 0 {
        lemma_last_press_bound(evs.drop_last(), Key::W);
        lemma_last_press_bound(evs.drop_last(), Key::S);
        assert(vertical_key_event(evs[evs.len() - 1]));
    }
}

/// Along a run of vertical key events, the vertical rate is set by the
/// latest of them alone.
proof fn lemma_vertical_rate_latest(d: Driver, evs: Seq<Event>)
    requires
        d.phase == Phase::Running,
        d.motion.rates.y == 0,
        forall|i: int| 0 <= i < evs.len() ==> vertical_key_event(#[trigger] evs[i]),
    ensures
        d.run(evs).phase == Phase::Running,
        d.run(evs).motion.rates.y == (if evs.len() == 0 {
            0
        } else if evs.last() == Event::Pressed(Key::W) {
            SPEED
        } else if evs.last() == Event::Pressed(Key::S) {
            (-SPEED) as i64
        } else {
            0
        }),
    decreases evs.len(),
{
    if evs.len() > 0 {
        let init = evs.drop_last();
        assert forall|i: int| 0 <= i < init.len() implies vertical_key_event(#[trigger] init[i]) by {
            assert(init[i] == evs[i]);
        }
        lemma_vertical_rate_latest(d, init);
        assert(vertical_key_event(evs[evs.len() - 1]));
    }
}

} // verus!
