//! The cooperative thread runner on concrete values.

use rtos_core::threads::{init_scheduler, ProcessState, Scheduler};

#[test]
fn default_runner_has_four_free_slots() {
    let s = Scheduler::default();
    assert_eq!(s.threads.len(), 4);
    for slot in &s.threads {
        assert!(slot.is_none());
    }
}

#[test]
fn add_user_task_fills_first_free_slot() {
    let mut s = Scheduler::default();
    assert_eq!(s.add_user_task(0x0800_1000), Ok(()));
    let t = s.threads[0].as_ref().unwrap();
    assert_eq!(t.auto_pc, 0x0800_1000);
    assert_eq!(t.r5, 0x0800_1000);
    assert_eq!(t.lr, 0x0800_1000);
    assert_eq!(t.auto_x_psr, 0x1000000);
    assert_eq!(t.r4_control, 0x3);
    assert_eq!(t.id, 0);
    assert_eq!(t.state, ProcessState::Created);
    assert_eq!(t.p_stack.len(), 64);
    // the next task lands in the next slot
    assert_eq!(s.add_user_task(0x0800_2000), Ok(()));
    assert_eq!(s.threads[1].as_ref().unwrap().id, 1);
    assert!(s.threads[2].is_none());
}

#[test]
fn add_user_task_fails_when_full() {
    let mut s = Scheduler::default();
    for _ in 0..4 {
        assert_eq!(s.add_user_task(0x0800_1000), Ok(()));
    }
    assert_eq!(s.add_user_task(0x0800_9000), Err(()));
}

#[test]
fn scheduling_pass_steps_states_and_orders_invocations() {
    let mut s = Scheduler::default();
    s.add_user_task(0x0800_1000).unwrap();
    s.add_user_task(0x0800_2000).unwrap();
    // first pass: both created threads are invoked and settle into waiting
    let invoked = s.schedule_user_threads();
    assert_eq!(invoked, vec![0, 1]);
    assert_eq!(s.threads[0].as_ref().unwrap().state, ProcessState::Waiting);
    assert_eq!(s.threads[1].as_ref().unwrap().state, ProcessState::Waiting);
    // second pass: both waiting threads are invoked and marked running
    let invoked = s.schedule_user_threads();
    assert_eq!(invoked, vec![0, 1]);
    assert_eq!(s.threads[0].as_ref().unwrap().state, ProcessState::Running);
    assert_eq!(s.threads[1].as_ref().unwrap().state, ProcessState::Running);
    // third pass: running threads are left alone
    let invoked = s.schedule_user_threads();
    assert_eq!(invoked, Vec::<usize>::new());
}

#[test]
fn kernel_thread_frame_fields() {
    let k = init_scheduler(0x0800_0100);
    assert_eq!(k.auto_pc, 0x0800_0100);
    assert_eq!(k.lr, 0x0800_0100);
    assert_eq!(k.auto_x_psr, 0x1000000);
    assert_eq!(k.r4_control, 0x2);
    assert_eq!(k.id, 1);
    assert_eq!(k.state, ProcessState::Running);
    assert_eq!(k.p_stack.len(), 512);
    assert_eq!(k.p_buffer.len(), 512);
}
