//! Timing and control-policy core of a multirotor flight controller.
//!
//! The scheduler decides, cycle by cycle, when the fixed-period control task
//! and guarded secondary tasks may run; the remaining modules hold the
//! integer rules of the rate/angle controller.

pub mod axis;
pub mod cycles;
pub mod dyn_lpf;
pub mod jitter;
pub mod scheduler;
