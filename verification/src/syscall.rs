//! Syscall surface: the trap-metadata record that task code hands to the
//! supervisor-call instruction, and the task-facing wrappers that build it.
//!
//! A task invokes a kernel service by building a `TrapMeta` record —
//! a reason and one payload word — and executing the supervisor-call
//! instruction with the record's address in the first argument register.
//! Raising the trap is a machine instruction and stays outside the crate;
//! the record each wrapper builds is specified exactly here, and the
//! dispatcher that consumes the record lives in the kernel module.

use vstd::prelude::*;

verus! {

/// The services a trap can request.
#[derive(Clone, Copy, PartialEq, Eq, Structural, Debug)]
pub enum TrapReason {
    /// Enter a real-time critical section: preemption off. The historical
    /// name inverts the behaviour — the "RT mode" it enables is the
    /// absence of scheduling ticks.
    EnableRt,
    /// Leave the real-time critical section: preemption back on.
    DisableRt,
    /// Give up the rest of the time slice.
    YieldTask,
    /// Terminate the calling task for good.
    TerminateTask,
    /// Block the calling task until the sleep timer expires.
    Sleep,
    /// Write a NUL-terminated string to standard output.
    WriteStdOut,
}

/// The trap-metadata record: the requested service and one payload word —
/// a millisecond count for `Sleep`, the string address for `WriteStdOut`,
/// zero elsewhere.
#[derive(Clone, Copy, PartialEq, Eq, Structural, Debug)]
pub struct TrapMeta {
    pub id: TrapReason,
    pub payload: u32,
}

/// The record for writing the NUL-terminated string at `str_start` to
/// standard output.
pub fn println(str_start: u32) -> (meta: TrapMeta)
    ensures
        meta == (TrapMeta { id: TrapReason::WriteStdOut, payload: str_start }),
{
    TrapMeta { id: TrapReason::WriteStdOut, payload: str_start }
}

/// The record for entering the real-time critical section: no scheduling
/// tick preempts the caller until it leaves again.
pub fn enable_rt_mode() -> (meta: TrapMeta)
    ensures
        meta == (TrapMeta { id: TrapReason::EnableRt, payload: 0 }),
{
    TrapMeta { id: TrapReason::EnableRt, payload: 0 }
}

/// The record for leaving the real-time critical section.
pub fn disable_rt_mode() -> (meta: TrapMeta)
    ensures
        meta == (TrapMeta { id: TrapReason::DisableRt, payload: 0 }),
{
    TrapMeta { id: TrapReason::DisableRt, payload: 0 }
}

/// The record for sleeping `time_to_sleep` milliseconds.
pub fn sleep(time_to_sleep: u32) -> (meta: TrapMeta)
    ensures
        meta == (TrapMeta { id: TrapReason::Sleep, payload: time_to_sleep }),
{
    TrapMeta { id: TrapReason::Sleep, payload: time_to_sleep }
}

/// The record for yielding the rest of the time slice.
pub fn yield_task() -> (meta: TrapMeta)
    ensures
        meta == (TrapMeta { id: TrapReason::YieldTask, payload: 0 }),
{
    TrapMeta { id: TrapReason::YieldTask, payload: 0 }
}

/// The record for terminating the calling task.
pub fn terminate() -> (meta: TrapMeta)
    ensures
        meta == (TrapMeta { id: TrapReason::TerminateTask, payload: 0 }),
{
    TrapMeta { id: TrapReason::TerminateTask, payload: 0 }
}

} // verus!
