//! Core of a preemptive round-robin multitasking kernel for a single-core
//! ARMv7-M class microcontroller, modelled over plain values so that every
//! scheduling decision, context-switch step and syscall effect is verified.
//!
//! The machine-specific edges (volatile register writes, the supervisor-call
//! instruction, the assembly save/restore primitive) live outside this crate;
//! here each of them is represented by the exact value computation or state
//! transition it performs.

pub mod frame;
pub mod gpio;
pub mod kernel;
pub mod syscall;
pub mod tct;
pub mod threads;
pub mod timer;

use vstd::prelude::*;

verus! {

/// The kernel thread body: the idle anchor that the bring-up code hands to
/// the scheduler before any user task exists. It performs no work itself.
pub fn kernel_thread() {
}

} // verus!
