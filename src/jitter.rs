//! A window over a jittery cycle count that widens quickly and narrows slowly.
use vstd::prelude::*;

verus! {

/// `from` moved toward `to` by at most `step`.
pub open spec fn approach(from: int, to: int, step: int) -> int {
    if to > from + step {
        from + step
    } else if to < from - step {
        from - step
    } else {
        to
    }
}

/// Running bounds on an observed cycle count.
///
/// A bound moves toward each new observation: outward by at most
/// `delta_up_cycles` when the observation lies beyond it, inward by at most
/// `delta_down_cycles` otherwise, so one outlier cannot destabilise the window.
#[derive(Clone, Copy, Debug, PartialEq, Eq, Structural)]
pub struct JitterTracker {
    /// The latest observation.
    pub cycles: i32,
    pub min_cycles: i32,
    pub max_cycles: i32,
    pub delta_down_cycles: u32,
    pub delta_up_cycles: u32,
}

impl JitterTracker {
    /// The window is ordered and narrows no faster than it widens.
    pub open spec fn wf(self) -> bool {
        &&& self.min_cycles <= self.max_cycles
        &&& self.delta_down_cycles <= self.delta_up_cycles
    }

    /// The tracker after observing `x`.
    pub open spec fn observed(self, x: i32) -> JitterTracker {
        let up = self.delta_up_cycles as int;
        let down = self.delta_down_cycles as int;
        JitterTracker {
            cycles: x,
            min_cycles: approach(
                self.min_cycles as int,
                x as int,
                if x < self.min_cycles { up } else { down },
            ) as i32,
            max_cycles: approach(
                self.max_cycles as int,
                x as int,
                if x > self.max_cycles { up } else { down },
            ) as i32,
            ..self
        }
    }

    /// The tracker whose window is the single value zero.
    pub open spec fn empty_window(delta_down_cycles: u32, delta_up_cycles: u32) -> JitterTracker {
        JitterTracker { cycles: 0, min_cycles: 0, max_cycles: 0, delta_down_cycles, delta_up_cycles }
    }

    /// A tracker whose window is the single value zero.
    pub fn new(delta_down_cycles: u32, delta_up_cycles: u32) -> (r: JitterTracker)
        requires
            delta_down_cycles <= delta_up_cycles,
        ensures
            r.wf(),
            r == JitterTracker::empty_window(delta_down_cycles, delta_up_cycles),
    {
        JitterTracker { cycles: 0, min_cycles: 0, max_cycles: 0, delta_down_cycles, delta_up_cycles }
    }

    /// Records the observation `x` and moves both bounds toward it.
    pub fn observe(&mut self, x: i32)
        requires
            old(self).wf(),
        ensures
            *final(self) == old(self).observed(x),
            final(self).wf(),
    {
        let up = self.delta_up_cycles;
        let down = self.delta_down_cycles;
        let min_step = if x < self.min_cycles { up } else { down };
        let max_step = if x > self.max_cycles { up } else { down };
        self.min_cycles = approach_toward(self.min_cycles, x, min_step);
        self.max_cycles = approach_toward(self.max_cycles, x, max_step);
        self.cycles = x;
    }
}

/// `from` moved toward `to` by at most `step`.
fn approach_toward(from: i32, to: i32, step: u32) -> (r: i32)
    ensures
        r as int == approach(from as int, to as int, step as int),
{
    let f = from as i64;
    let t = to as i64;
    let s = step as i64;
    if t > f + s {
        (f + s) as i32
    } else if t < f - s {
        (f - s) as i32
    } else {
        to
    }
}

} // verus!
