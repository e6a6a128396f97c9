//! Fixed-phase scheduler for the control loop and guarded secondary tasks.
use vstd::prelude::*;

use crate::cycles::{advance, cycles_between, cycles_until, signed_distance, wrap};
use crate::jitter::JitterTracker;

verus! {

/// Tuning of a scheduler, fixed for the session.
#[derive(Clone, Copy, Debug, PartialEq, Eq, Structural)]
pub struct SchedulerConfig {
    /// Target period of the control loop, in cycles.
    pub desired_period_cycles: i32,
    /// Counter cycles per second.
    pub clock_rate: u32,
    /// Cycles kept free before a deadline beyond the guarded task's estimate.
    pub guard_margin: i32,
    pub loop_start_delta_down_cycles: u32,
    pub loop_start_delta_up_cycles: u32,
    pub task_guard_delta_down_cycles: u32,
    pub task_guard_delta_up_cycles: u32,
}

impl SchedulerConfig {
    /// A usable configuration: a positive period and clock rate, and jitter
    /// windows that narrow no faster than they widen.
    pub open spec fn valid(self) -> bool {
        &&& self.desired_period_cycles > 0
        &&& self.clock_rate > 0
        &&& self.loop_start_delta_down_cycles <= self.loop_start_delta_up_cycles
        &&& self.task_guard_delta_down_cycles <= self.task_guard_delta_up_cycles
    }
}

/// Cycle-counter bookkeeping of the control loop.
#[derive(Clone, Copy, Debug, PartialEq, Eq, Structural)]
pub struct Scheduler {
    /// How late the loop started relative to its deadline.
    pub loop_start: JitterTracker,
    /// How long the guarded task ran.
    pub task_guard: JitterTracker,
    pub desired_period_cycles: i32,
    /// The deadline served by the latest run of the control task.
    pub last_target_cycles: u32,
    /// The next deadline of the control task.
    pub next_timing_cycles: u32,
    pub guard_margin: i32,
    pub clock_rate: u32,
}

/// The advance that takes a deadline passed `late` cycles ago to the first
/// deadline of the same phase that lies strictly ahead.
pub open spec fn resync_advance(late: int, period: int) -> int {
    (late / period + 1) * period
}

impl Scheduler {
    pub open spec fn wf(self) -> bool {
        &&& self.loop_start.wf()
        &&& self.task_guard.wf()
        &&& self.desired_period_cycles > 0
        &&& self.clock_rate > 0
    }

    /// Cycles by which `now` has passed the next deadline.
    pub open spec fn lateness(self, now: u32) -> int {
        signed_distance(now, self.next_timing_cycles)
    }

    /// The control task is due at `now`: the next deadline has been reached.
    pub open spec fn due(self, now: u32) -> bool {
        self.lateness(now) >= 0
    }

    /// The state after the control task runs at `now`, when it is due.
    pub open spec fn stepped(self, now: u32) -> Scheduler {
        let late = self.lateness(now);
        Scheduler {
            loop_start: self.loop_start.observed(late as i32),
            last_target_cycles: self.next_timing_cycles,
            next_timing_cycles: wrap(
                self.next_timing_cycles + resync_advance(late, self.desired_period_cycles as int),
            ) as u32,
            ..self
        }
    }

    /// A guarded task may start at `now`: the cycles left before the next
    /// deadline exceed its worst observed duration plus the guard margin.
    pub open spec fn guard_open(self, now: u32) -> bool {
        signed_distance(self.next_timing_cycles, now) > self.task_guard.max_cycles
            + self.guard_margin
    }

    /// A scheduler whose first deadline is `start_cycles`; `None` when the
    /// configuration is not valid.
    pub fn new(config: SchedulerConfig, start_cycles: u32) -> (r: Option<Scheduler>)
        ensures
            r is Some <==> config.valid(),
            r matches Some(s) ==> {
                &&& s.wf()
                &&& s.next_timing_cycles == start_cycles
                &&& s.last_target_cycles == start_cycles
                &&& s.desired_period_cycles == config.desired_period_cycles
                &&& s.clock_rate == config.clock_rate
                &&& s.guard_margin == config.guard_margin
                &&& s.loop_start == JitterTracker::empty_window(
                    config.loop_start_delta_down_cycles,
                    config.loop_start_delta_up_cycles,
                )
                &&& s.task_guard == JitterTracker::empty_window(
                    config.task_guard_delta_down_cycles,
                    config.task_guard_delta_up_cycles,
                )
            },
    {
        if config.desired_period_cycles <= 0 || config.clock_rate == 0
            || config.loop_start_delta_down_cycles > config.loop_start_delta_up_cycles
            || config.task_guard_delta_down_cycles > config.task_guard_delta_up_cycles {
            return None;
        }
        Some(
            Scheduler {
                loop_start: JitterTracker::new(
                    config.loop_start_delta_down_cycles,
                    config.loop_start_delta_up_cycles,
                ),
                task_guard: JitterTracker::new(
                    config.task_guard_delta_down_cycles,
                    config.task_guard_delta_up_cycles,
                ),
                desired_period_cycles: config.desired_period_cycles,
                last_target_cycles: start_cycles,
                next_timing_cycles: start_cycles,
                guard_margin: config.guard_margin,
                clock_rate: config.clock_rate,
            },
        )
    }

    /// Decides whether the control task runs at `now`. When it does, the
    /// lateness is recorded and the next deadline moves forward on the fixed
    /// phase grid: one period when on time, past every missed deadline when
    /// late by a period or more, so at most one run serves an overrun.
    pub fn tick(&mut self, now: u32) -> (ran: bool)
        requires
            old(self).wf(),
        ensures
            ran == old(self).due(now),
            ran ==> *final(self) == old(self).stepped(now),
            !ran ==> *final(self) == *old(self),
            final(self).wf(),
            ran ==> 0 < signed_distance(final(self).next_timing_cycles, now)
                <= final(self).desired_period_cycles,
    {
        let late: i32 = cycles_until(now, self.next_timing_cycles);
        if late < 0 {
            return false;
        }
        let period = self.desired_period_cycles;
        let steps: u64 = (late / period) as u64 + 1;
        proof {
            lemma_resync_advance_bounds(late as int, period as int);
        }
        let adv: u64 = steps * (period as u64);
        self.loop_start.observe(late);
        self.last_target_cycles = self.next_timing_cycles;
        self.next_timing_cycles = advance(self.next_timing_cycles, adv as u32);
        true
    }

    /// Whether a guarded task may start at `now`; a task refused here is
    /// asked about again at the next tick.
    pub fn guard_allows(&self, now: u32) -> (r: bool)
        requires
            self.wf(),
        ensures
            r == self.guard_open(now),
    {
        let left = cycles_until(self.next_timing_cycles, now) as i64;
        left > self.task_guard.max_cycles as i64 + self.guard_margin as i64
    }

    /// Records that a guarded task ran from `start` to `end`, widening or
    /// narrowing the guard toward its duration.
    pub fn record_guarded_task(&mut self, start: u32, end: u32)
        requires
            old(self).wf(),
        ensures
            final(self).wf(),
            *final(self) == (Scheduler {
                task_guard: old(self).task_guard.observed(
                    (if wrap(end - start) <= i32::MAX { wrap(end - start) } else {
                        i32::MAX as int
                    }) as i32,
                ),
                ..*old(self)
            }),
    {
        let d = cycles_between(start, end);
        let duration: i32 = if d <= 0x7fff_ffff { d as i32 } else { i32::MAX };
        self.task_guard.observe(duration);
    }

    /// `cycles` counter cycles expressed in whole microseconds.
    pub fn cycles_to_micros(&self, cycles: u32) -> (r: u64)
        requires
            self.wf(),
        ensures
            r as int == cycles as int * 1_000_000 / self.clock_rate as int,
    {
        (cycles as u64) * 1_000_000 / (self.clock_rate as u64)
    }
}

/// The scheduler after one run of the control task for each entry of
/// `lates`, the i-th run happening `lates[i]` cycles after the deadline it
/// serves.
pub open spec fn run_late(s: Scheduler, lates: Seq<u32>) -> Scheduler
    decreases lates.len(),
{
    if lates.len() == 0 {
        s
    } else {
        let t = run_late(s, lates.drop_last());
        t.stepped(wrap(t.next_timing_cycles + lates.last()) as u32)
    }
}

/// Running the control task keeps the scheduler well formed and its period.
pub proof fn lemma_stepped_wf(s: Scheduler, now: u32)
    requires
        s.wf(),
        s.due(now),
    ensures
        s.stepped(now).wf(),
        s.stepped(now).desired_period_cycles == s.desired_period_cycles,
        s.stepped(now).guard_margin == s.guard_margin,
        s.stepped(now).task_guard == s.task_guard,
{
}

/// A run `late` cycles after a deadline, with `late` under one period, moves
/// the deadline by exactly one period.
proof fn lemma_on_time_step(s: Scheduler, late: u32)
    requires
        s.wf(),
        late < s.desired_period_cycles,
    ensures
        s.due(wrap(s.next_timing_cycles + late) as u32),
        s.lateness(wrap(s.next_timing_cycles + late) as u32) == late,
        s.stepped(wrap(s.next_timing_cycles + late) as u32).next_timing_cycles == (
        s.next_timing_cycles + s.desired_period_cycles) % 0x1_0000_0000,
{
    let p = s.desired_period_cycles as int;
    assert(late as int / p == 0) by {
        vstd::arithmetic::div_mod::lemma_basic_div(late as int, p);
    }
    assert(resync_advance(late as int, p) == p);
    let n = s.next_timing_cycles as int + p;
    assert(wrap(n) == n % 0x1_0000_0000) by {
        if n >= 0x1_0000_0000 {
            vstd::arithmetic::div_mod::lemma_mod_add_multiples_vanish(n - 0x1_0000_0000, 0x1_0000_0000);
            vstd::arithmetic::div_mod::lemma_small_mod((n - 0x1_0000_0000) as nat, 0x1_0000_0000);
        } else {
            vstd::arithmetic::div_mod::lemma_small_mod(n as nat, 0x1_0000_0000);
        }
    }
}

/// Fixed phase: after runs that each start less than one period after their
/// deadline, the next deadline is the first one plus that many periods,
/// modulo 2^32, with no drift from the lateness of the runs.
pub proof fn lemma_fixed_phase(s: Scheduler, lates: Seq<u32>)
    requires
        s.wf(),
        forall|i: int| 0 <= i < lates.len() ==> lates[i] < s.desired_period_cycles,
    ensures
        run_late(s, lates).wf(),
        run_late(s, lates).desired_period_cycles == s.desired_period_cycles,
        run_late(s, lates).next_timing_cycles == (s.next_timing_cycles + lates.len()
            * s.desired_period_cycles) % 0x1_0000_0000,
    decreases lates.len(),
{
    let p = s.desired_period_cycles as int;
    let m: int = 0x1_0000_0000;
    if lates.len() == 0 {
        vstd::arithmetic::div_mod::lemma_small_mod(s.next_timing_cycles as nat, 0x1_0000_0000);
    } else {
        let rest = lates.drop_last();
        lemma_fixed_phase(s, rest);
        let t = run_late(s, rest);
        let now = wrap(t.next_timing_cycles + lates.last()) as u32;
        lemma_on_time_step(t, lates.last());
        lemma_stepped_wf(t, now);
        let k = rest.len() as int;
        let base = s.next_timing_cycles as int + k * p;
        assert(k * p >= 0) by (nonlinear_arith)
            requires
                k >= 0,
                p > 0,
        ;
        vstd::arithmetic::div_mod::lemma_add_mod_noop(base, p, m);
        vstd::arithmetic::div_mod::lemma_small_mod(p as nat, m as nat);
        assert((k + 1) * p == k * p + p) by (nonlinear_arith);
    }
}

/// Runs that start exactly on their deadline never widen the loop-start
/// window, as long as it holds zero; a window of zero alone stays so.
pub proof fn lemma_on_time_keeps_window(s: Scheduler, lates: Seq<u32>)
    requires
        s.wf(),
        s.loop_start.min_cycles <= 0 <= s.loop_start.max_cycles,
        forall|i: int| 0 <= i < lates.len() ==> lates[i] == 0,
    ensures
        s.loop_start.min_cycles <= run_late(s, lates).loop_start.min_cycles <= 0,
        0 <= run_late(s, lates).loop_start.max_cycles <= s.loop_start.max_cycles,
        run_late(s, lates).wf(),
    decreases lates.len(),
{
    if lates.len() > 0 {
        let rest = lates.drop_last();
        lemma_on_time_keeps_window(s, rest);
        let t = run_late(s, rest);
        lemma_on_time_step(t, lates.last());
        lemma_stepped_wf(t, wrap(t.next_timing_cycles + lates.last()) as u32);
    }
}

/// One run serves an overrun of any length: after the control task runs at
/// `now` it is not due again at `now`, and the next deadline lies strictly
/// ahead of `now`, by at most one period.
pub proof fn lemma_single_catch_up(s: Scheduler, now: u32)
    requires
        s.wf(),
        s.due(now),
    ensures
        !s.stepped(now).due(now),
        0 < signed_distance(s.stepped(now).next_timing_cycles, now) <= s.desired_period_cycles,
{
    lemma_resync_advance_bounds(s.lateness(now), s.desired_period_cycles as int);
}

/// Bounds on the resynchronising advance: it passes the lateness by at least
/// one cycle and by at most one period, and fits the counter.
proof fn lemma_resync_advance_bounds(late: int, period: int)
    requires
        0 <= late <= i32::MAX,
        0 < period <= i32::MAX,
    ensures
        late < resync_advance(late, period) <= late + period,
        resync_advance(late, period) < 0x1_0000_0000,
        0 <= late / period <= late,
{
    let q = late / period;
    vstd::arithmetic::div_mod::lemma_fundamental_div_mod(late, period);
    assert(0 <= late % period < period) by {
        vstd::arithmetic::div_mod::lemma_mod_bound(late, period);
    }
    assert(0 <= q <= late) by {
        vstd::arithmetic::div_mod::lemma_div_pos_is_pos(late, period);
        vstd::arithmetic::div_mod::lemma_div_is_ordered_by_denominator(late, 1, period);
    }
    assert((q + 1) * period == q * period + period) by (nonlinear_arith);
}

} // verus!
