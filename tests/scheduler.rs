use hackflight::cycles::{advance, cycles_between, cycles_until};
use hackflight::scheduler::{Scheduler, SchedulerConfig};

fn config(period: i32, clock_rate: u32) -> SchedulerConfig {
    SchedulerConfig {
        desired_period_cycles: period,
        clock_rate,
        guard_margin: 100,
        loop_start_delta_down_cycles: 10,
        loop_start_delta_up_cycles: 500,
        task_guard_delta_down_cycles: 5,
        task_guard_delta_up_cycles: 1000,
    }
}

#[test]
fn cycles_until_across_wraparound() {
    assert_eq!(cycles_until(5, u32::MAX - 4), 10);
    assert_eq!(cycles_until(u32::MAX - 4, 5), -10);
    assert_eq!(cycles_until(100, 100), 0);
    assert_eq!(cycles_until(0x8000_0000, 0), i32::MIN);
    assert_eq!(cycles_between(u32::MAX, 3), 4);
    assert_eq!(advance(u32::MAX - 1, 5), 3);
}

#[test]
fn invalid_configurations_are_refused() {
    assert!(Scheduler::new(config(0, 8_000_000), 0).is_none());
    assert!(Scheduler::new(config(-5, 8_000_000), 0).is_none());
    assert!(Scheduler::new(config(8000, 0), 0).is_none());
    let mut c = config(8000, 8_000_000);
    c.loop_start_delta_down_cycles = 600;
    assert!(Scheduler::new(c, 0).is_none());
    let mut c = config(8000, 8_000_000);
    c.task_guard_delta_down_cycles = 2000;
    assert!(Scheduler::new(c, 0).is_none());
    assert!(Scheduler::new(config(8000, 8_000_000), 0).is_some());
}

#[test]
fn not_due_before_deadline() {
    let mut s = Scheduler::new(config(8000, 8_000_000), 1000).unwrap();
    let before = s;
    assert!(!s.tick(999));
    assert_eq!(s, before);
    assert!(s.tick(1000));
    assert_eq!(s.next_timing_cycles, 9000);
    assert_eq!(s.last_target_cycles, 1000);
}

#[test]
fn on_time_ticks_keep_window_and_phase() {
    let mut s = Scheduler::new(config(8000, 8_000_000), 0).unwrap();
    assert_eq!(s.cycles_to_micros(8000), 1000);
    for _ in 0..100 {
        let now = s.next_timing_cycles;
        assert!(s.tick(now));
    }
    assert_eq!(s.loop_start.min_cycles, 0);
    assert_eq!(s.loop_start.max_cycles, 0);
    assert_eq!(s.next_timing_cycles, 100 * 8000);
}

#[test]
fn late_ticks_do_not_drift() {
    let start = u32::MAX - 20_000;
    let mut s = Scheduler::new(config(8000, 8_000_000), start).unwrap();
    let lates = [0u32, 3000, 7999, 12, 500];
    for late in lates {
        let now = s.next_timing_cycles.wrapping_add(late);
        assert!(s.tick(now));
    }
    assert_eq!(s.next_timing_cycles, start.wrapping_add(5 * 8000));
    assert_eq!(s.loop_start.cycles, 500);
}

#[test]
fn overrun_resyncs_with_one_run() {
    let mut s = Scheduler::new(config(8000, 8_000_000), 0).unwrap();
    // 2.5 periods late: the deadlines at 8000 and 16000 are skipped.
    let now = 20_000;
    assert!(s.tick(now));
    assert_eq!(s.next_timing_cycles, 24_000);
    assert!(cycles_until(s.next_timing_cycles, now) > 0);
    assert!(!s.tick(now));
    assert!(!s.tick(23_999));
    assert!(s.tick(24_000));
    assert_eq!(s.next_timing_cycles, 32_000);
}

#[test]
fn lateness_window_widens_fast_narrows_slow() {
    let mut s = Scheduler::new(config(8000, 8_000_000), 0).unwrap();
    assert!(s.tick(2000));
    assert_eq!(s.loop_start.cycles, 2000);
    assert_eq!(s.loop_start.max_cycles, 500);
    assert_eq!(s.loop_start.min_cycles, 10);
    assert!(s.tick(8100));
    assert_eq!(s.loop_start.max_cycles, 490);
    assert_eq!(s.loop_start.min_cycles, 20);
}

#[test]
fn guard_admits_task_only_with_room() {
    let mut s = Scheduler::new(config(8000, 8_000_000), 0).unwrap();
    assert!(s.tick(0));
    // Guard estimate 0, margin 100: room needed is more than 100 cycles.
    assert!(s.guard_allows(7899));
    assert!(!s.guard_allows(7900));
    s.record_guarded_task(10, 3010);
    assert_eq!(s.task_guard.max_cycles, 1000);
    assert_eq!(s.task_guard.min_cycles, 5);
    assert!(s.guard_allows(6899));
    assert!(!s.guard_allows(6900));
    // A short run narrows the guard slowly.
    s.record_guarded_task(0, 200);
    assert_eq!(s.task_guard.max_cycles, 995);
}

#[test]
fn guard_duration_across_wraparound() {
    let mut s = Scheduler::new(config(8000, 8_000_000), 0).unwrap();
    s.record_guarded_task(u32::MAX - 99, 200);
    assert_eq!(s.task_guard.cycles, 300);
    assert_eq!(s.task_guard.max_cycles, 300);
}

#[test]
fn scheduler_across_counter_wraparound() {
    let start = u32::MAX - 3999;
    let mut s = Scheduler::new(config(8000, 8_000_000), start).unwrap();
    assert!(s.tick(start));
    assert_eq!(s.next_timing_cycles, 4000);
    assert!(!s.tick(3999));
    assert!(s.tick(4000));
}
