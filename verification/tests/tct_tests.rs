//! The task control table on concrete values: insertion, selection,
//! state changes.

use rtos_core::tct::{TaskControlTable, TaskStates, TCB};

#[test]
fn insert_fills_slots_in_order() {
    let mut t = TaskControlTable::new(3);
    assert_eq!(t.insert(100), Some(0));
    assert_eq!(t.insert(200), Some(1));
    assert_eq!(t.insert(300), Some(2));
    assert_eq!(t.heap_size, 3);
    let t0 = t.tasks[0].unwrap();
    assert_eq!(t0.sp, 100);
    assert_eq!(t0.pid, 0);
    assert_eq!(t0.state, TaskStates::READY);
    let t2 = t.tasks[2].unwrap();
    assert_eq!(t2.sp, 300);
    assert_eq!(t2.pid, 2);
}

#[test]
fn insert_into_full_table_is_rejected() {
    let mut t = TaskControlTable::new(1);
    assert_eq!(t.insert(100), Some(0));
    assert_eq!(t.insert(200), None);
    assert_eq!(t.heap_size, 1);
    assert_eq!(t.tasks[0].unwrap().sp, 100);
}

#[test]
fn next_process_advances_round_robin() {
    let mut t = TaskControlTable::new(3);
    t.insert(100);
    t.insert(200);
    t.insert(300);
    // current is 0; selection picks 1, makes it running, returns its sp
    assert_eq!(t.next_process(), Some(200));
    assert_eq!(t.current_task, 1);
    assert_eq!(t.tasks[1].unwrap().state, TaskStates::RUNNING);
    assert_eq!(t.tasks[0].unwrap().state, TaskStates::READY);
}

#[test]
fn next_process_skips_blocked_and_terminated() {
    let mut t = TaskControlTable::new(4);
    t.insert(100);
    t.insert(200);
    t.insert(300);
    t.insert(400);
    t.tasks[1] = Some(TCB { sp: 200, state: TaskStates::BLOCKED, pid: 1 });
    t.tasks[2] = Some(TCB { sp: 300, state: TaskStates::TERMINATED, pid: 2 });
    assert_eq!(t.next_process(), Some(400));
    assert_eq!(t.current_task, 3);
}

#[test]
fn next_process_selects_single_remaining_ready_task() {
    // all but one blocked or terminated: the one ready task is found
    let mut t = TaskControlTable::new(4);
    t.insert(100);
    t.insert(200);
    t.insert(300);
    t.insert(400);
    t.tasks[0] = Some(TCB { sp: 100, state: TaskStates::BLOCKED, pid: 0 });
    t.tasks[1] = Some(TCB { sp: 200, state: TaskStates::TERMINATED, pid: 1 });
    t.tasks[3] = Some(TCB { sp: 400, state: TaskStates::BLOCKED, pid: 3 });
    assert_eq!(t.next_process(), Some(300));
    assert_eq!(t.current_task, 2);
    assert_eq!(t.tasks[2].unwrap().state, TaskStates::RUNNING);
}

#[test]
fn next_process_with_nothing_runnable_reports_failure() {
    let mut t = TaskControlTable::new(2);
    t.insert(100);
    t.insert(200);
    t.tasks[0] = Some(TCB { sp: 100, state: TaskStates::BLOCKED, pid: 0 });
    t.tasks[1] = Some(TCB { sp: 200, state: TaskStates::TERMINATED, pid: 1 });
    assert_eq!(t.next_process(), None);
    assert_eq!(t.current_task, 0);
}

#[test]
fn single_task_selects_itself() {
    let mut t = TaskControlTable::new(1);
    t.insert(100);
    assert_eq!(t.next_process(), Some(100));
    assert_eq!(t.current_task, 0);
    assert_eq!(t.tasks[0].unwrap().state, TaskStates::RUNNING);
}

#[test]
fn state_and_sp_updates_hit_the_current_task() {
    let mut t = TaskControlTable::new(2);
    t.insert(100);
    t.insert(200);
    t.set_task_state(TaskStates::RUNNING);
    assert_eq!(t.tasks[0].unwrap().state, TaskStates::RUNNING);
    t.update_sp(64);
    assert_eq!(t.tasks[0].unwrap().sp, 64);
    assert_eq!(t.tasks[1].unwrap().sp, 200);
    t.terminate_task();
    assert_eq!(t.tasks[0].unwrap().state, TaskStates::TERMINATED);
}

#[test]
fn sleeping_bookkeeping_round_trip() {
    let mut t = TaskControlTable::new(2);
    t.insert(100);
    t.insert(200);
    t.set_task_state(TaskStates::RUNNING);
    t.mark_self_as_sleeping();
    assert_eq!(t.currently_sleeping, 0);
    assert_eq!(t.tasks[0].unwrap().state, TaskStates::BLOCKED);
    // the wakeup hands the CPU straight back to the sleeper
    t.current_task = 1;
    let sp = t.get_sleeping();
    assert_eq!(sp, 100);
    assert_eq!(t.current_task, 0);
    assert_eq!(t.tasks[0].unwrap().state, TaskStates::RUNNING);
}

#[test]
fn updates_on_an_empty_table_change_nothing() {
    let mut t = TaskControlTable::new(2);
    t.set_task_state(TaskStates::RUNNING);
    t.update_sp(64);
    t.terminate_task();
    assert!(t.tasks[0].is_none());
    assert!(t.tasks[1].is_none());
    assert_eq!(t.heap_size, 0);
}

#[test]
fn get_current_tcb_sees_only_occupied_slots() {
    let mut t = TaskControlTable::new(2);
    assert_eq!(t.get_current_tcb(), None);
    t.insert(100);
    let c = t.get_current_tcb().unwrap();
    assert_eq!(c.sp, 100);
    assert_eq!(c.pid, 0);
}
