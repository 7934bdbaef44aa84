use wink_demo::driver::{transform, Action, Driver, Event, Phase};
use wink_demo::motion::{Key, Motion, Vec3, SPEED, UNIT};

fn v(x: i64, y: i64, z: i64) -> Vec3 {
    Vec3 { x, y, z }
}

fn feed(d: &mut Driver, evs: &[Event]) -> Vec<Action> {
    let mut out = Vec::new();
    for ev in evs {
        assert!(d.can_step(*ev));
        out.push(d.step(*ev));
    }
    out
}

#[test]
fn starts_running_at_rest() {
    let d = Driver::new();
    assert_eq!(d.phase, Phase::Running);
    assert_eq!(d.motion.offsets, v(0, 0, UNIT));
    assert_eq!(d.motion.rates, v(0, 0, 0));
}

#[test]
fn movement_keys_set_their_axis() {
    let mut m = Motion::new();
    m.press(Key::W);
    assert_eq!(m.rates, v(0, SPEED, 0));
    m.press(Key::A);
    assert_eq!(m.rates, v(-SPEED, SPEED, 0));
    m.press(Key::Right);
    assert_eq!(m.rates, v(SPEED, SPEED, 0));
    m.press(Key::Down);
    assert_eq!(m.rates, v(SPEED, SPEED, -SPEED));
    m.press(Key::Up);
    assert_eq!(m.rates, v(SPEED, SPEED, SPEED));
    m.press(Key::S);
    assert_eq!(m.rates, v(SPEED, -SPEED, SPEED));
    m.press(Key::Left);
    assert_eq!(m.rates, v(-SPEED, -SPEED, SPEED));
    m.press(Key::D);
    assert_eq!(m.rates, v(SPEED, -SPEED, SPEED));
    m.release(Key::Left);
    assert_eq!(m.rates, v(0, -SPEED, SPEED));
    m.release(Key::W);
    assert_eq!(m.rates, v(0, 0, SPEED));
    m.release(Key::Down);
    assert_eq!(m.rates, v(0, 0, 0));
    m.release(Key::R);
    assert_eq!(m.rates, v(0, 0, 0));
    assert_eq!(m.offsets, v(0, 0, UNIT));
}

#[test]
fn vertical_rate_follows_newest_press() {
    let mut d = Driver::new();
    feed(&mut d, &[Event::Pressed(Key::W)]);
    assert_eq!(d.motion.rates.y, SPEED);
    feed(&mut d, &[Event::Pressed(Key::S)]);
    assert_eq!(d.motion.rates.y, -SPEED);
    feed(&mut d, &[Event::Released(Key::S), Event::Released(Key::W)]);
    assert_eq!(d.motion.rates.y, 0);
    feed(&mut d, &[Event::Pressed(Key::S), Event::Pressed(Key::W)]);
    assert_eq!(d.motion.rates.y, SPEED);
    feed(&mut d, &[Event::Released(Key::W), Event::Released(Key::S)]);
    assert_eq!(d.motion.rates.y, 0);
}

#[test]
fn release_stops_the_whole_axis() {
    let mut d = Driver::new();
    feed(&mut d, &[Event::Pressed(Key::W), Event::Pressed(Key::S), Event::Released(Key::S)]);
    assert_eq!(d.motion.rates.y, 0);
}

#[test]
fn ticks_integrate_exactly() {
    let mut d = Driver::new();
    feed(&mut d, &[Event::Pressed(Key::D), Event::Pressed(Key::S), Event::Pressed(Key::Up)]);
    let mut last = Action::Wait;
    for _ in 0..250 {
        last = feed(&mut d, &[Event::Tick])[0];
    }
    let expected = v(250 * SPEED, -250 * SPEED, UNIT + 250 * SPEED);
    assert_eq!(d.motion.offsets, expected);
    assert_eq!(last, Action::Draw(expected));
    assert_eq!(d.motion.rates, v(SPEED, -SPEED, SPEED));
}

#[test]
fn reset_restores_offsets_and_keeps_rates() {
    let mut d = Driver::new();
    feed(&mut d, &[Event::Pressed(Key::A), Event::Pressed(Key::Down), Event::Tick, Event::Tick]);
    assert_eq!(d.motion.offsets, v(-2 * SPEED, 0, UNIT - 2 * SPEED));
    let acts = feed(&mut d, &[Event::Pressed(Key::R)]);
    assert_eq!(acts, vec![Action::Wait]);
    assert_eq!(d.motion.offsets, v(0, 0, UNIT));
    assert_eq!(d.motion.rates, v(-SPEED, 0, -SPEED));
    feed(&mut d, &[Event::Tick]);
    assert_eq!(d.motion.offsets, v(-SPEED, 0, UNIT - SPEED));
}

#[test]
fn close_ends_the_loop_for_good() {
    let mut d = Driver::new();
    feed(&mut d, &[Event::Pressed(Key::W), Event::Tick]);
    let before = d.motion;
    let acts = feed(
        &mut d,
        &[
            Event::CloseRequested,
            Event::Tick,
            Event::Pressed(Key::R),
            Event::Released(Key::W),
            Event::Tick,
            Event::CloseRequested,
        ],
    );
    assert_eq!(acts[0], Action::Exit);
    assert!(acts[1..].iter().all(|a| *a == Action::Wait));
    assert_eq!(d.phase, Phase::Exiting);
    assert_eq!(d.motion, before);
}

#[test]
fn tick_that_would_overflow_is_refused() {
    let mut d = Driver::new();
    d.motion.offsets.x = i64::MAX - 50;
    assert!(d.can_step(Event::Tick));
    d.step(Event::Pressed(Key::D));
    assert!(!d.can_step(Event::Tick));
    assert!(d.can_step(Event::CloseRequested));
    d.step(Event::CloseRequested);
    assert!(d.can_step(Event::Tick));
}

#[test]
fn transform_places_offsets() {
    let m = transform(v(12, -34, 9876));
    assert_eq!(
        m,
        [[UNIT, 0, 0, 0], [0, -UNIT, 0, 0], [0, 0, UNIT, 0], [12, -34, 0, 9876]]
    );
}
