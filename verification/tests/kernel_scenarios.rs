//! End-to-end scheduling scenarios driven through the kernel model.

use rtos_core::kernel::Kernel;
use rtos_core::syscall;
use rtos_core::tct::TaskStates;

const ENTRY_A: u32 = 0x0800_1000;
const ENTRY_B: u32 = 0x0800_2000;
const ENTRY_C: u32 = 0x0800_3000;
const TERM_WRAPPER: u32 = 0x0800_0F00;
const STACK_WORDS: usize = 64;

fn boot_two() -> Kernel {
    let mut k = Kernel::new(4);
    assert_eq!(k.create_task(ENTRY_A, TERM_WRAPPER, STACK_WORDS), Some(0));
    assert_eq!(k.create_task(ENTRY_B, TERM_WRAPPER, STACK_WORDS), Some(1));
    k.immediate_start();
    k
}

fn state_of(k: &Kernel, i: usize) -> TaskStates {
    k.tct.tasks[i].unwrap().state
}

#[test]
fn two_task_round_robin() {
    let mut k = boot_two();
    let mut ran_a: u32 = 0;
    let mut ran_b: u32 = 0;
    for _ in 0..100 {
        k.tick();
        match k.tct.current_task {
            0 => ran_a += 1,
            1 => ran_b += 1,
            other => panic!("unexpected task {other}"),
        }
    }
    assert_eq!(ran_a, 50);
    assert_eq!(ran_b, 50);
    assert!(!k.halted);
}

#[test]
fn sleep_releases_cpu() {
    let mut k = boot_two();
    // task A (current) asks to sleep 10 ms; the timer is armed to 80 ticks
    k.svcall(syscall::sleep(10));
    assert_eq!(k.timer.compare, 80);
    assert!(k.timer.enabled);
    assert_eq!(state_of(&k, 0), TaskStates::BLOCKED);
    assert_eq!(k.tct.current_task, 1);
    // task B holds the CPU throughout the sleep: all 80 ticks arrive while
    // B is the running task, and only the last one wakes A
    let mut b_ticks: u32 = 0;
    for _ in 0..80 {
        assert_eq!(k.tct.current_task, 1);
        b_ticks += 1;
        k.tick();
    }
    assert!(b_ticks >= 80);
    assert!(!k.timer.enabled);
    assert_eq!(k.tct.current_task, 0);
    assert_eq!(state_of(&k, 0), TaskStates::RUNNING);
    assert_eq!(k.now - k.sleep_armed_at, 80);
}

#[test]
fn terminate_is_absorbing() {
    let mut k = boot_two();
    // task A prints once, then terminates itself
    k.svcall(syscall::println(0x2000_0100));
    assert_eq!(k.stdout_log.len(), 1);
    assert_eq!(k.stdout_log[0], (0, 0x2000_0100));
    k.svcall(syscall::terminate());
    assert_eq!(state_of(&k, 0), TaskStates::TERMINATED);
    assert_eq!(k.terminate_syscalls, 1);
    assert_eq!(k.terminated_transitions, 1);
    // after 50 further ticks no output from A appeared and A never ran again
    for _ in 0..50 {
        k.tick();
        assert_eq!(k.tct.current_task, 1);
        assert_eq!(state_of(&k, 0), TaskStates::TERMINATED);
    }
    assert_eq!(k.stdout_log.len(), 1);
    assert!(!k.halted);
}

#[test]
fn critical_section_blocks_preemption() {
    let mut k = boot_two();
    // task A enters the critical section: the scheduling tick is masked
    k.svcall(syscall::enable_rt_mode());
    assert!(!k.systick_on);
    // twenty ticks of work: no context switch is observed
    for _ in 0..20 {
        k.tick();
        assert_eq!(k.tct.current_task, 0);
        assert_eq!(state_of(&k, 0), TaskStates::RUNNING);
    }
    assert!(k.tick_pending);
    // leaving the section serves the pended tick: only now the switch runs
    k.svcall(syscall::disable_rt_mode());
    assert!(k.systick_on);
    assert!(!k.tick_pending);
    assert_eq!(k.tct.current_task, 1);
}

#[test]
fn wrap_around_skips_terminated() {
    let mut k = Kernel::new(4);
    assert_eq!(k.create_task(ENTRY_A, TERM_WRAPPER, STACK_WORDS), Some(0));
    assert_eq!(k.create_task(ENTRY_B, TERM_WRAPPER, STACK_WORDS), Some(1));
    assert_eq!(k.create_task(ENTRY_C, TERM_WRAPPER, STACK_WORDS), Some(2));
    k.immediate_start();
    // move to task 1 and terminate it there
    k.tick();
    assert_eq!(k.tct.current_task, 1);
    k.svcall(syscall::terminate());
    assert_eq!(state_of(&k, 1), TaskStates::TERMINATED);
    assert_eq!(k.tct.current_task, 2);
    // a long run visits tasks 0 and 2 in strict alternation; task 1 never runs
    let mut expected: usize = 0;
    for _ in 0..60 {
        k.tick();
        assert_eq!(k.tct.current_task, expected);
        expected = if expected == 0 { 2 } else { 0 };
    }
}

#[test]
fn single_task_tick_returns_to_same_frame() {
    let mut k = Kernel::new(2);
    assert_eq!(k.create_task(ENTRY_A, TERM_WRAPPER, STACK_WORDS), Some(0));
    k.immediate_start();
    let cpu_before = k.cpu;
    let psp_before = k.psp;
    k.tick();
    assert_eq!(k.tct.current_task, 0);
    assert_eq!(k.cpu, cpu_before);
    assert_eq!(k.psp, psp_before);
    assert_eq!(state_of(&k, 0), TaskStates::RUNNING);
    assert!(!k.halted);
}

#[test]
fn all_blocked_halts() {
    let mut k = Kernel::new(2);
    assert_eq!(k.create_task(ENTRY_A, TERM_WRAPPER, STACK_WORDS), Some(0));
    k.immediate_start();
    // the only task goes to sleep: nothing is runnable any more
    k.svcall(syscall::sleep(1));
    assert!(k.halted);
    // a halted system does not move
    let before_now = k.now;
    k.tick();
    assert_eq!(k.now, before_now);
    assert_eq!(k.tct.current_task, 0);
}

#[test]
fn write_does_not_switch() {
    let mut k = boot_two();
    k.svcall(syscall::println(0x42));
    assert_eq!(k.tct.current_task, 0);
    assert_eq!(state_of(&k, 0), TaskStates::RUNNING);
    assert_eq!(k.stdout_log.len(), 1);
    assert_eq!(k.stdout_log[0], (0, 0x42));
    assert!(k.systick_on);
}

#[test]
fn yield_switches_like_a_tick() {
    let mut k = boot_two();
    k.svcall(syscall::yield_task());
    assert_eq!(k.tct.current_task, 1);
    assert_eq!(state_of(&k, 0), TaskStates::READY);
    assert_eq!(state_of(&k, 1), TaskStates::RUNNING);
    // and the timer-driven bookkeeping was untouched
    assert_eq!(k.terminate_syscalls, 0);
    assert!(!k.timer.enabled);
}

#[test]
fn create_task_rejects_a_full_table() {
    let mut k = Kernel::new(1);
    assert_eq!(k.create_task(ENTRY_A, TERM_WRAPPER, STACK_WORDS), Some(0));
    assert_eq!(k.create_task(ENTRY_B, TERM_WRAPPER, STACK_WORDS), None);
    assert_eq!(k.tct.heap_size, 1);
    assert_eq!(k.stacks.len(), 1);
}

#[test]
fn manual_switch_path() {
    // the primitives the tick composes, called one by one
    let mut k = boot_two();
    assert_eq!(k.cpu.pc, ENTRY_A);
    let psp0 = k.psp;
    k.exception_entry();
    assert_eq!(k.psp, psp0 - 8);
    k.context_switch();
    assert_eq!(k.tct.current_task, 1);
    // the preempted task's descriptor records the frame sixteen words
    // below its old stack pointer, and the task stands ready again
    let a = k.tct.tasks[0].unwrap();
    assert_eq!(a.sp, psp0 - 16);
    assert_eq!(a.state, TaskStates::READY);
    k.exception_return();
    // the selected task's synthesized frame is now the live register file
    assert_eq!(k.cpu.pc, ENTRY_B);
    assert_eq!(k.cpu.lr, TERM_WRAPPER);
    assert_eq!(k.psp, k.tct.tasks[1].unwrap().sp + 16);
}

#[test]
fn hard_fault_halts_the_system() {
    let mut k = boot_two();
    rtos_core::kernel::HardFault(&mut k);
    assert!(k.halted);
    let now = k.now;
    k.tick();
    assert_eq!(k.now, now);
    rtos_core::kernel_thread();
}

#[test]
fn second_sleep_overwrites_first_slot() {
    let mut k = Kernel::new(4);
    assert_eq!(k.create_task(ENTRY_A, TERM_WRAPPER, STACK_WORDS), Some(0));
    assert_eq!(k.create_task(ENTRY_B, TERM_WRAPPER, STACK_WORDS), Some(1));
    assert_eq!(k.create_task(ENTRY_C, TERM_WRAPPER, STACK_WORDS), Some(2));
    k.immediate_start();
    k.svcall(syscall::sleep(5));
    assert_eq!(k.tct.currently_sleeping, 0);
    // the next task asks to sleep too: the single slot is overwritten
    k.svcall(syscall::sleep(3));
    assert_eq!(k.tct.currently_sleeping, 1);
    assert_eq!(k.timer.compare, 24);
    // the first sleeper stays blocked: the accepted single-slot limitation
    assert_eq!(state_of(&k, 0), TaskStates::BLOCKED);
}
