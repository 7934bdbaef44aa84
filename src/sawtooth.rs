use vstd::prelude::*;

verus! {

/// A value that climbs by a fixed step each tick and, on passing its upper
/// bound, starts again from its lower bound: an animation that needs no
/// input.
#[derive(Clone, Copy, Debug, PartialEq, Eq, Structural)]
pub struct Sawtooth {
    pub lower: i64,
    pub upper: i64,
    pub step: i64,
    pub value: i64,
}

/// The triangle's animation: from -0.5 up to 0.7 by 0.0002 a tick, in
/// `UNIT` steps.
pub const FRAME_LOWER: i64 = -5000;
pub const FRAME_UPPER: i64 = 7000;
pub const FRAME_STEP: i64 = 2;

impl Sawtooth {
    /// The value stays within its bounds, the step is positive, and one step
    /// past the upper bound still fits in `i64`.
    pub open spec fn wf(self) -> bool {
        &&& self.lower <= self.value <= self.upper
        &&& self.step > 0
        &&& self.upper + self.step <= i64::MAX
    }

    /// The value after one more tick.
    pub open spec fn next_value(self) -> i64 {
        if self.value + self.step > self.upper {
            self.lower
        } else {
            (self.value + self.step) as i64
        }
    }

    /// A sawtooth starting at `lower`, or `None` when the bounds are out of
    /// order, the step is not positive, or a step past `upper` overflows.
    pub fn new(lower: i64, upper: i64, step: i64) -> (r: Option<Sawtooth>)
        ensures
            r is Some <==> (lower <= upper && step > 0 && upper + step <= i64::MAX),
            r matches Some(s) ==> s.wf() && s == (Sawtooth { lower, upper, step, value: lower }),
    {
        if lower <= upper && step > 0 && upper.checked_add(step).is_some() {
            Some(Sawtooth { lower, upper, step, value: lower })
        } else {
            None
        }
    }

    /// The triangle's animation at its start, -0.5.
    pub fn frame() -> (r: Sawtooth)
        ensures
            r.wf(),
            r == (Sawtooth { lower: FRAME_LOWER, upper: FRAME_UPPER, step: FRAME_STEP, value: FRAME_LOWER }),
    {
        Sawtooth { lower: FRAME_LOWER, upper: FRAME_UPPER, step: FRAME_STEP, value: FRAME_LOWER }
    }

    /// Advances one tick and returns the new value.
    pub fn tick(&mut self) -> (r: i64)
        requires
            old(self).wf(),
        ensures
            final(self).wf(),
            *final(self) == (Sawtooth { value: old(self).next_value(), ..*old(self) }),
            r == final(self).value,
    {
        let next = self.value + self.step;
        if next > self.upper {
            self.value = self.lower;
        } else {
            self.value = next;
        }
        self.value
    }
}

} // verus!
