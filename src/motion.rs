use vstd::prelude::*;

verus! {

/// Fixed-point steps in one whole unit of clip space.
pub const UNIT: i64 = 10000;

/// The rate of change an axis gets while one of its keys is held: 0.01 per tick.
pub const SPEED: i64 = 100;

/// A vector of three fixed-point components: horizontal, vertical, depth/scale.
#[derive(Clone, Copy, Debug, PartialEq, Eq, Structural)]
pub struct Vec3 {
    pub x: i64,
    pub y: i64,
    pub z: i64,
}

pub open spec fn fits_i64(v: int) -> bool {
    i64::MIN <= v <= i64::MAX
}

impl Vec3 {
    /// Whether the component-wise sum with `o` fits in `i64`.
    pub open spec fn fits_sum(self, o: Vec3) -> bool {
        &&& fits_i64(self.x + o.x)
        &&& fits_i64(self.y + o.y)
        &&& fits_i64(self.z + o.z)
    }

    pub open spec fn sum(self, o: Vec3) -> Vec3 {
        Vec3 { x: (self.x + o.x) as i64, y: (self.y + o.y) as i64, z: (self.z + o.z) as i64 }
    }

    pub fn plus(self, o: Vec3) -> (r: Vec3)
        requires
            self.fits_sum(o),
        ensures
            r == self.sum(o),
            r.x == self.x + o.x,
            r.y == self.y + o.y,
            r.z == self.z + o.z,
    {
        Vec3 { x: self.x + o.x, y: self.y + o.y, z: self.z + o.z }
    }
}

/// The keys the demo reacts to.
#[derive(Clone, Copy, Debug, PartialEq, Eq, Structural)]
pub enum Key {
    W,
    S,
    A,
    D,
    Left,
    Right,
    Up,
    Down,
    R,
}


/// The animation state: the offsets fed to the transform and the per-tick
/// rate of change of each of them.
#[derive(Clone, Copy, Debug, PartialEq, Eq, Structural)]
pub struct Motion {
    pub offsets: Vec3,
    pub rates: Vec3,
}

/// Offsets at start-up and after a reset: no translation, scale one.
pub open spec fn initial_offsets() -> Vec3 {
    Vec3 { x: 0, y: 0, z: UNIT }
}

pub open spec fn still() -> Vec3 {
    Vec3 { x: 0, y: 0, z: 0 }
}

impl Motion {
    /// The motion after a key goes down. Each movement key sets its axis's
    /// rate to plus or minus `SPEED`; `R` puts the offsets back to their
    /// initial value and keeps the rates.
    pub open spec fn pressed(self, k: Key) -> Motion {
        let r = self.rates;
        match k {
            Key::W => Motion { rates: Vec3 { y: SPEED, ..r }, ..self },
            Key::S => Motion { rates: Vec3 { y: (-SPEED) as i64, ..r }, ..self },
            Key::A | Key::Left => Motion { rates: Vec3 { x: (-SPEED) as i64, ..r }, ..self },
            Key::D | Key::Right => Motion { rates: Vec3 { x: SPEED, ..r }, ..self },
            Key::Up => Motion { rates: Vec3 { z: SPEED, ..r }, ..self },
            Key::Down => Motion { rates: Vec3 { z: (-SPEED) as i64, ..r }, ..self },
            Key::R => Motion { offsets: initial_offsets(), ..self },
        }
    }

    /// The motion after a key goes up: a movement key stops its whole axis,
    /// whichever key of that axis is still held; `R` does nothing.
    pub open spec fn released(self, k: Key) -> Motion {
        let r = self.rates;
        match k {
            Key::W | Key::S => Motion { rates: Vec3 { y: 0, ..r }, ..self },
            Key::A | Key::D | Key::Left | Key::Right => Motion { rates: Vec3 { x: 0, ..r }, ..self },
            Key::Up | Key::Down => Motion { rates: Vec3 { z: 0, ..r }, ..self },
            Key::R => self,
        }
    }

    /// Whether one tick can add the rates to the offsets without overflow.
    pub open spec fn fits_tick(self) -> bool {
        self.offsets.fits_sum(self.rates)
    }

    /// The motion after one tick: every rate added to its offset, unclamped.
    pub open spec fn ticked(self) -> Motion {
        Motion { offsets: self.offsets.sum(self.rates), rates: self.rates }
    }

    /// The motion after `n` ticks.
    pub open spec fn ticked_n(self, n: nat) -> Motion
        decreases n,
    {
        if n == 0 {
            self
        } else {
            self.ticked_n((n - 1) as nat).ticked()
        }
    }

    pub open spec fn new_spec() -> Motion {
        Motion { offsets: initial_offsets(), rates: still() }
    }

    pub fn new() -> (r: Motion)
        ensures
            r == Motion::new_spec(),
            r.offsets == initial_offsets(),
            r.rates == still(),
    {
        Motion { offsets: Vec3 { x: 0, y: 0, z: UNIT }, rates: Vec3 { x: 0, y: 0, z: 0 } }
    }

    pub fn press(&mut self, k: Key)
        ensures
            *final(self) == old(self).pressed(k),
            k == Key::R ==> final(self).offsets == initial_offsets() && final(self).rates
                == old(self).rates,
    {
        match k {
            Key::W => self.rates.y = SPEED,
            Key::S => self.rates.y = -SPEED,
            Key::A | Key::Left => self.rates.x = -SPEED,
            Key::D | Key::Right => self.rates.x = SPEED,
            Key::Up => self.rates.z = SPEED,
            Key::Down => self.rates.z = -SPEED,
            Key::R => self.offsets = Vec3 { x: 0, y: 0, z: UNIT },
        }
    }

    pub fn release(&mut self, k: Key)
        ensures
            *final(self) == old(self).released(k),
    {
        match k {
            Key::W | Key::S => self.rates.y = 0,
            Key::A | Key::D | Key::Left | Key::Right => self.rates.x = 0,
            Key::Up | Key::Down => self.rates.z = 0,
            Key::R => {},
        }
    }

    pub fn can_tick(&self) -> (r: bool)
        ensures
            r == self.fits_tick(),
    {
        self.offsets.x.checked_add(self.rates.x).is_some()
            && self.offsets.y.checked_add(self.rates.y).is_some()
            && self.offsets.z.checked_add(self.rates.z).is_some()
    }

    pub fn tick(&mut self)
        requires
            old(self).fits_tick(),
        ensures
            *final(self) == old(self).ticked(),
    {
        self.offsets = self.offsets.plus(self.rates);
    }

}


/// Whether offset `o` with rate `r` stays in `i64` over `n` ticks.
pub open spec fn fits_ticks(o: i64, r: i64, n: nat) -> bool {
    fits_i64(o + n * r)
}

/// Holding the rates fixed, `n` ticks move each offset by exactly `n` times
/// its rate: pure integration, with no clamping and no drift.
pub proof fn lemma_ticks_accumulate(m: Motion, n: nat)
    requires
        fits_ticks(m.offsets.x, m.rates.x, n),
        fits_ticks(m.offsets.y, m.rates.y, n),
        fits_ticks(m.offsets.z, m.rates.z, n),
    ensures
        m.ticked_n(n).offsets.x == m.offsets.x + n * m.rates.x,
        m.ticked_n(n).offsets.y == m.offsets.y + n * m.rates.y,
        m.ticked_n(n).offsets.z == m.offsets.z + n * m.rates.z,
        m.ticked_n(n).rates == m.rates,
    decreases n,
{
    if n > 0 {
        let k = (n - 1) as nat;
        lemma_fits_earlier(m.offsets.x, m.rates.x, n);
        lemma_fits_earlier(m.offsets.y, m.rates.y, n);
        lemma_fits_earlier(m.offsets.z, m.rates.z, n);
        lemma_ticks_accumulate(m, k);
        assert(n * m.rates.x == k * m.rates.x + m.rates.x) by (nonlinear_arith)
            requires k == n - 1;
        assert(n * m.rates.y == k * m.rates.y + m.rates.y) by (nonlinear_arith)
            requires k == n - 1;
        assert(n * m.rates.z == k * m.rates.z + m.rates.z) by (nonlinear_arith)
            requires k == n - 1;
        let prev = m.ticked_n(k);
        assert(m.ticked_n(n) == prev.ticked());
        assert(prev.offsets.x + prev.rates.x == m.offsets.x + n * m.rates.x);
        assert(prev.offsets.y + prev.rates.y == m.offsets.y + n * m.rates.y);
        assert(prev.offsets.z + prev.rates.z == m.offsets.z + n * m.rates.z);
    } else {
        assert(m.ticked_n(n) == m);
        assert(n * m.rates.x == 0 && n * m.rates.y == 0 && n * m.rates.z == 0) by (nonlinear_arith)
            requires n == 0;
    }
}

proof fn lemma_fits_earlier(o: i64, r: i64, n: nat)
    requires
        n > 0,
        fits_ticks(o, r, n),
    ensures
        fits_ticks(o, r, (n - 1) as nat),
{
    let k = (n - 1) as nat;
    assert(k * r == n * r - r) by (nonlinear_arith)
        requires k == n - 1;
    if r >= 0 {
        assert(k * r >= 0) by (nonlinear_arith)
            requires r >= 0;
    } else {
        assert(k * r <= 0) by (nonlinear_arith)
            requires r < 0;
    }
}

} // verus!
