//! The trap records the task API builds, and the timer's counting.

use rtos_core::syscall::{
    disable_rt_mode, enable_rt_mode, sleep, terminate, yield_task, TrapMeta, TrapReason,
};
use rtos_core::timer::{SleepTimer, SLEEP_TICKS_PER_MS};

#[test]
fn builders_fill_the_trap_record() {
    assert_eq!(
        rtos_core::syscall::println(0x2000_0000),
        TrapMeta { id: TrapReason::WriteStdOut, payload: 0x2000_0000 }
    );
    assert_eq!(enable_rt_mode(), TrapMeta { id: TrapReason::EnableRt, payload: 0 });
    assert_eq!(disable_rt_mode(), TrapMeta { id: TrapReason::DisableRt, payload: 0 });
    assert_eq!(sleep(250), TrapMeta { id: TrapReason::Sleep, payload: 250 });
    assert_eq!(yield_task(), TrapMeta { id: TrapReason::YieldTask, payload: 0 });
    assert_eq!(terminate(), TrapMeta { id: TrapReason::TerminateTask, payload: 0 });
}

#[test]
fn timer_scaling_is_eight_ticks_per_millisecond() {
    assert_eq!(SLEEP_TICKS_PER_MS, 8);
    let mut t = SleepTimer::new();
    t.program(10);
    assert_eq!(t.compare, 80);
    assert_eq!(t.counter, 0);
    assert!(t.enabled);
}

#[test]
fn timer_counts_only_while_enabled_and_fires_at_compare() {
    let mut t = SleepTimer::new();
    assert!(!t.advance());
    assert_eq!(t.counter, 0);
    t.program(1);
    for expected in 1..8u64 {
        assert!(!t.advance());
        assert_eq!(t.counter, expected);
    }
    // the eighth tick reaches the compare value of one millisecond
    assert!(t.advance());
    t.stop();
    assert!(!t.enabled);
    assert_eq!(t.counter, 0);
    assert_eq!(t.compare, 8);
}

#[test]
fn zero_sleep_fires_on_first_tick() {
    let mut t = SleepTimer::new();
    t.program(0);
    assert_eq!(t.compare, 0);
    assert!(t.advance());
}
