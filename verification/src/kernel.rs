//! The task-switching engine: table, stacks, register file, timers and the
//! trap dispatcher, tied together as one machine state.
//!
//! The kernel state gathers the task control table, every task's private
//! stack, the live register file of the running task, the process stack
//! pointer, the scheduling-tick mask, the sleep timer, and the two event
//! counters that the design's bookkeeping invariant relates. The interrupt
//! service routines are modelled as the exact state transitions they
//! perform: a scheduling tick, a supervisor-call trap, a sleep-timer
//! wakeup. The hardware edges — the volatile writes that pend an
//! exception, the assembly that moves register values — stay outside the
//! crate; each transition here manipulates the modelled stacks and
//! register file word for word, and time is counted in sleep-timer ticks,
//! one per scheduling tick.
//!
//! Invariants carried by every transition: exactly one task is running
//! outside the switch itself; every suspended task's saved stack pointer
//! designates a full frame inside its own stack; the current index stays
//! inside the occupied prefix of the table; a terminated task never runs
//! again; and the count of transitions into the terminated state equals
//! the count of termination traps ever issued.

use vstd::prelude::*;

verus! {

use crate::frame;
use crate::frame::ProcessFrame;
use crate::syscall::{TrapMeta, TrapReason};
use crate::tct::{TaskControlTable, TaskStates, TCB};
use crate::timer::SleepTimer;

/// Bit of the interrupt control and state register that pends the
/// context-switch exception.
pub const ICSR_PENDSV_BIT: u32 = 28;

/// The whole machine state the kernel core governs.
pub struct Kernel {
    /// The task control table.
    pub tct: TaskControlTable,
    /// Each task's private stack, indexed by task identity. The kernel
    /// itself runs on the main stack, which never aliases these.
    pub stacks: Vec<Vec<u32>>,
    /// The register file of the task now executing.
    pub cpu: ProcessFrame,
    /// The process stack pointer, as a word index into the current task's
    /// private stack.
    pub psp: usize,
    /// Whether the scheduling tick is unmasked; false inside a real-time
    /// critical section.
    pub systick_on: bool,
    /// A scheduling tick arrived while masked and waits for the critical
    /// section to end.
    pub tick_pending: bool,
    /// The sleep timer.
    pub timer: SleepTimer,
    /// Elapsed time in sleep-timer ticks.
    pub now: u64,
    /// The time at which the sleep timer was last armed.
    pub sleep_armed_at: u64,
    /// The first task has been started; the system now runs from
    /// interrupts.
    pub started: bool,
    /// A fatal condition was met — no runnable task remained — and the
    /// system has stopped for good.
    pub halted: bool,
    /// How many termination traps were ever issued.
    pub terminate_syscalls: u64,
    /// How many transitions into the terminated state were ever made.
    pub terminated_transitions: u64,
    /// The standard-output sink: one entry per write trap, recording the
    /// writing task and the payload word it passed.
    pub stdout_log: Vec<(usize, u32)>,
}

impl Kernel {
    /// The private stacks line up with the table: one per occupied slot,
    /// each large enough for a frame, and every task not now executing
    /// keeps a full saved frame inside its own bounds.
    pub open spec fn stacks_wf(self) -> bool {
        &&& self.stacks@.len() == self.tct.heap_size
        &&& forall|i: int|
            0 <= i < self.tct.heap_size ==> frame::FRAME_WORDS <= (#[trigger] self.stacks@[i])@.len()
        &&& forall|i: int|
            0 <= i < self.tct.heap_size && self.tct.state_of(i) != TaskStates::RUNNING
                ==> (#[trigger] self.tct.task(i)).sp + frame::FRAME_WORDS <= self.stacks@[i]@.len()
    }

    /// While the system runs, exactly one task holds the CPU and the
    /// process stack pointer lies inside that task's stack with room for
    /// one full frame below it.
    pub open spec fn running_wf(self) -> bool {
        self.started && !self.halted ==> {
            &&& self.tct.exactly_one_running()
            &&& frame::FRAME_WORDS <= self.psp
            &&& self.psp <= self.stacks@[self.tct.current_task as int]@.len()
        }
    }

    /// Before the first task is started the system is still booting:
    /// nothing has failed, no timer is armed, no tick waits, and every
    /// inserted task stands ready with the current index at zero.
    pub open spec fn boot_wf(self) -> bool {
        !self.started ==> {
            &&& !self.halted
            &&& !self.timer.enabled
            &&& !self.tick_pending
            &&& self.tct.current_task == 0
            &&& forall|i: int|
                0 <= i < self.tct.heap_size ==> #[trigger] self.tct.state_of(i)
                    == TaskStates::READY
        }
    }

    /// An armed sleep timer counts real time towards one blocked task: the
    /// counter mirrors the ticks elapsed since arming, and the recorded
    /// sleeper stays blocked until woken. A disarmed timer rests at zero.
    pub open spec fn timer_wf(self) -> bool {
        &&& self.timer.enabled ==> {
            &&& self.started
            &&& self.sleep_armed_at <= self.now
            &&& self.timer.counter == self.now - self.sleep_armed_at
            &&& self.timer.counter <= self.timer.compare
            &&& self.tct.currently_sleeping < self.tct.heap_size
            &&& self.tct.state_of(self.tct.currently_sleeping as int) == TaskStates::BLOCKED
        }
        &&& !self.timer.enabled ==> self.timer.counter == 0
    }

    /// The bookkeeping identity: every transition into the terminated
    /// state was caused by exactly one termination trap.
    pub open spec fn counters_wf(self) -> bool {
        self.terminated_transitions == self.terminate_syscalls
    }

    /// Well-formedness of the whole machine state: the shape of the table,
    /// the stack bounds, the single-runner discipline, the boot phase, the
    /// timer's accounting and the trap bookkeeping, all at once.
    pub open spec fn wf(self) -> bool {
        &&& self.tct.slots_wf()
        &&& self.tct.tasks@.len() < usize::MAX
        &&& self.stacks_wf()
        &&& self.running_wf()
        &&& self.boot_wf()
        &&& self.timer_wf()
        &&& self.counters_wf()
    }

    /// A powered-on kernel before any task exists: a zeroed table of the
    /// given capacity, no stacks, everything at rest.
    pub fn new(capacity: usize) -> (k: Kernel)
        requires
            capacity < usize::MAX,
        ensures
            k.wf(),
            k.tct.capacity() == capacity,
            k.tct.heap_size == 0,
            !k.started,
            !k.halted,
            k.now == 0,
            k.terminate_syscalls == 0,
            k.terminated_transitions == 0,
            k.stdout_log@.len() == 0,
    {
        Kernel {
            tct: TaskControlTable::new(capacity),
            stacks: Vec::new(),
            cpu: ProcessFrame::initial(0, 0),
            psp: 0,
            systick_on: false,
            tick_pending: false,
            timer: SleepTimer::new(),
            now: 0,
            sleep_armed_at: 0,
            started: false,
            halted: false,
            terminate_syscalls: 0,
            terminated_transitions: 0,
            stdout_log: Vec::new(),
        }
    }

    /// Boot-time task creation: allocates a zeroed private stack of
    /// `stack_size` words, synthesizes the initial sixteen-word frame at
    /// its top — entry address in the program counter, the termination
    /// wrapper in the link register, the Thumb bit in the status word,
    /// every other register zero — and appends a ready descriptor whose
    /// saved stack pointer designates that frame. Returns the new task's
    /// identity, or nothing when the table is full, in which case the
    /// kernel is unchanged.
    pub fn create_task(&mut self, entry: u32, terminate_wrapper: u32, stack_size: usize) -> (pid:
        Option<usize>)
        requires
            old(self).wf(),
            !old(self).started,
            frame::FRAME_WORDS <= stack_size,
        ensures
            final(self).wf(),
            !final(self).started,
            if old(self).tct.heap_size < old(self).tct.tasks@.len() {
                let sp = (stack_size - frame::FRAME_WORDS) as usize;
                &&& pid == Some(old(self).tct.heap_size)
                &&& final(self).tct.heap_size == old(self).tct.heap_size + 1
                &&& final(self).tct.tasks@ == old(self).tct.tasks@.update(
                    old(self).tct.heap_size as int,
                    Some(
                        TCB { sp, state: TaskStates::READY, pid: old(self).tct.heap_size },
                    ),
                )
                &&& final(self).stacks@.len() == old(self).stacks@.len() + 1
                &&& (forall|i: int|
                    0 <= i < old(self).stacks@.len() ==> final(self).stacks@[i] == old(
                        self,
                    ).stacks@[i])
                &&& final(self).stacks@[old(self).tct.heap_size as int]@.len() == stack_size
                &&& frame::frame_at(final(self).stacks@[old(self).tct.heap_size as int]@, sp as int)
                    == frame::spec_initial(entry, terminate_wrapper)
                &&& *final(self) == (Kernel {
                    tct: final(self).tct,
                    stacks: final(self).stacks,
                    ..*old(self)
                })
            } else {
                &&& pid is None
                &&& final(self).tct.tasks@ == old(self).tct.tasks@
                &&& final(self).tct.heap_size == old(self).tct.heap_size
                &&& final(self).stacks@ == old(self).stacks@
                &&& *final(self) == (Kernel {
                    tct: final(self).tct,
                    stacks: final(self).stacks,
                    ..*old(self)
                })
            },
    {
        if self.tct.heap_size >= self.tct.tasks.len() {
            return None;
        }
        let sp: usize = stack_size - frame::FRAME_WORDS;
        let mut stack: Vec<u32> = Vec::new();
        let mut i: usize = 0;
        while i < stack_size
            invariant
                i <= stack_size,
                stack@.len() == i,
            decreases stack_size - i,
        {
            stack.push(0);
            i = i + 1;
        }
        let ghost pre = stack@;
        let f = ProcessFrame::initial(entry, terminate_wrapper);
        frame::write_frame(&mut stack, sp, &f);
        proof {
            frame::lemma_frame_roundtrip(
                pre,
                sp as int,
                frame::spec_initial(entry, terminate_wrapper),
            );
        }
        let ghost stackv = stack@;
        let pid = self.tct.insert(sp);
        self.stacks.push(stack);
        proof {
            let hs = old(self).tct.heap_size as int;
            assert((self.stacks@[hs])@ == stackv);
            assert forall|i: int| 0 <= i < self.tct.heap_size implies frame::FRAME_WORDS <= (
            #[trigger] self.stacks@[i])@.len() by {
                if i < hs {
                    assert(self.stacks@[i] == old(self).stacks@[i]);
                }
            }
            assert forall|i: int|
                0 <= i < self.tct.heap_size && self.tct.state_of(i)
                    != TaskStates::RUNNING implies (#[trigger] self.tct.task(i)).sp
                + frame::FRAME_WORDS <= self.stacks@[i]@.len() by {
                if i < hs {
                    assert(self.tct.tasks@[i] == old(self).tct.tasks@[i]);
                    assert(self.stacks@[i] == old(self).stacks@[i]);
                    assert(old(self).tct.state_of(i) == TaskStates::READY);
                }
            }
            assert(self.stacks_wf());
            assert forall|i: int| 0 <= i < self.tct.heap_size implies #[trigger] self.tct.state_of(
                i,
            ) == TaskStates::READY by {
                if i < hs {
                    assert(old(self).tct.state_of(i) == TaskStates::READY);
                    assert(self.tct.tasks@[i] == old(self).tct.tasks@[i]);
                }
            }
            assert(self.boot_wf());
        }
        pid
    }

    /// Synchronous start of the very first task: its saved frame is loaded
    /// into the register file, the process stack pointer is installed
    /// above the consumed frame, and the task transitions from ready to
    /// running. The scheduling tick — configured during boot — is live
    /// from here on: the system runs entirely from interrupts.
    pub fn immediate_start(&mut self)
        requires
            old(self).wf(),
            !old(self).started,
            0 < old(self).tct.heap_size,
        ensures
            final(self).wf(),
            final(self).started,
            !final(self).halted,
            final(self).systick_on,
            !final(self).tick_pending,
            final(self).tct.current_task == old(self).tct.current_task,
            final(self).cpu == frame::frame_at(
                old(self).stacks@[old(self).tct.current_task as int]@,
                old(self).tct.task(old(self).tct.current_task as int).sp as int,
            ),
            final(self).psp == old(self).tct.task(old(self).tct.current_task as int).sp
                + frame::FRAME_WORDS,
            final(self).tct.tasks@ == old(self).tct.tasks@.update(
                old(self).tct.current_task as int,
                Some(
                    TCB {
                        state: TaskStates::RUNNING,
                        ..old(self).tct.task(old(self).tct.current_task as int)
                    },
                ),
            ),
            final(self).stacks@ == old(self).stacks@,
            final(self).stdout_log@ == old(self).stdout_log@,
            final(self).terminate_syscalls == old(self).terminate_syscalls,
            final(self).terminated_transitions == old(self).terminated_transitions,
            final(self).timer == old(self).timer,
            final(self).sleep_armed_at == old(self).sleep_armed_at,
            final(self).now == old(self).now,
    {
        let cur: usize = self.tct.current_task;
        proof {
            assert(self.tct.state_of(cur as int) == TaskStates::READY);
        }
        let t = match self.tct.get_current_tcb() {
            Some(t) => t,
            None => {
                // excluded: the boot invariant occupies the current slot
                proof {
                    assert(false);
                }
                TCB { sp: 0, state: TaskStates::READY, pid: 0 }
            },
        };
        proof {
            assert(t == old(self).tct.task(cur as int));
        }
        let stack_len: usize = self.stacks[cur].len();
        proof {
            assert(t.sp + frame::FRAME_WORDS <= stack_len);
        }
        self.tct.set_task_state(TaskStates::RUNNING);
        let f = frame::read_frame(&self.stacks[cur], t.sp);
        self.cpu = f;
        self.psp = t.sp + frame::FRAME_WORDS;
        self.systick_on = true;
        self.started = true;
        proof {
            let hs = self.tct.heap_size as int;
            assert(self.tct.slots_wf());
            assert forall|i: int|
                0 <= i < hs && self.tct.state_of(i) != TaskStates::RUNNING implies (
            #[trigger] self.tct.task(i)).sp + frame::FRAME_WORDS <= self.stacks@[i]@.len() by {
                assert(self.tct.tasks@[i] == old(self).tct.tasks@[i]);
                assert(old(self).tct.state_of(i) == TaskStates::READY);
            }
            assert(self.stacks_wf());
            assert forall|i: int|
                0 <= i < hs && i != cur implies #[trigger] self.tct.state_of(i)
                != TaskStates::RUNNING by {
                assert(self.tct.tasks@[i] == old(self).tct.tasks@[i]);
                assert(old(self).tct.state_of(i) == TaskStates::READY);
            }
            assert(self.tct.exactly_one_running());
            assert(self.running_wf());
            assert(self.timer_wf());
        }
    }
}

impl Kernel {
    /// The table contents after the save half of a switch: the current
    /// task's descriptor records the stack pointer left by the software
    /// push, and steps back from running to ready — a task that blocked or
    /// terminated itself beforehand keeps that state.
    pub open spec fn saved_tasks(self) -> Seq<Option<TCB>>
        recommends
            self.tct.current_task < self.tct.heap_size,
            frame::ZONE_WORDS <= self.psp,
    {
        let cur = self.tct.current_task as int;
        let t = self.tct.task(cur);
        let demoted = if t.state == TaskStates::RUNNING {
            TaskStates::READY
        } else {
            t.state
        };
        self.tct.tasks@.update(
            cur,
            Some(TCB { sp: (self.psp - frame::ZONE_WORDS) as usize, state: demoted, pid: t.pid }),
        )
    }

    /// What the CPU does on exception entry: the hardware-saved zone of
    /// the running register file goes onto the current task's process
    /// stack, and the process stack pointer drops below it.
    pub fn exception_entry(&mut self)
        requires
            old(self).tct.current_task < old(self).stacks@.len(),
            frame::ZONE_WORDS <= old(self).psp,
            old(self).psp <= old(self).stacks@[old(self).tct.current_task as int]@.len(),
        ensures
            final(self).psp == old(self).psp - frame::ZONE_WORDS,
            final(self).stacks@.len() == old(self).stacks@.len(),
            (final(self).stacks@[old(self).tct.current_task as int])@ == frame::store_words(
                (old(self).stacks@[old(self).tct.current_task as int])@,
                old(self).psp - frame::ZONE_WORDS,
                frame::hw_zone_words(old(self).cpu),
            ),
            forall|i: int|
                0 <= i < old(self).stacks@.len() && i != old(self).tct.current_task
                    ==> final(self).stacks@[i] == old(self).stacks@[i],
            *final(self) == (Kernel { stacks: final(self).stacks, psp: final(self).psp, ..*old(self) }),
    {
        let cur: usize = self.tct.current_task;
        let st = &mut self.stacks[cur];
        let new_sp = frame::push_hw_zone(st, self.psp, &self.cpu);
        self.psp = new_sp;
    }

    /// The save half of the context switch: the software-saved zone
    /// `r4`–`r11` goes onto the current task's process stack below the
    /// hardware zone, and the resulting stack pointer is captured into the
    /// current descriptor for the later restore.
    pub fn save_task_context(&mut self)
        requires
            old(self).tct.current_task < old(self).stacks@.len(),
            old(self).tct.current_task < old(self).tct.tasks@.len(),
            old(self).tct.tasks@[old(self).tct.current_task as int] is Some,
            frame::ZONE_WORDS <= old(self).psp,
            old(self).psp <= old(self).stacks@[old(self).tct.current_task as int]@.len(),
        ensures
            final(self).psp == old(self).psp - frame::ZONE_WORDS,
            final(self).stacks@.len() == old(self).stacks@.len(),
            (final(self).stacks@[old(self).tct.current_task as int])@ == frame::store_words(
                (old(self).stacks@[old(self).tct.current_task as int])@,
                old(self).psp - frame::ZONE_WORDS,
                frame::sw_zone_words(old(self).cpu),
            ),
            forall|i: int|
                0 <= i < old(self).stacks@.len() && i != old(self).tct.current_task
                    ==> final(self).stacks@[i] == old(self).stacks@[i],
            final(self).tct.tasks@ == old(self).tct.tasks@.update(
                old(self).tct.current_task as int,
                Some(
                    TCB {
                        sp: (old(self).psp - frame::ZONE_WORDS) as usize,
                        ..old(self).tct.task(old(self).tct.current_task as int)
                    },
                ),
            ),
            final(self).tct.heap_size == old(self).tct.heap_size,
            final(self).tct.current_task == old(self).tct.current_task,
            final(self).tct.currently_sleeping == old(self).tct.currently_sleeping,
            *final(self) == (Kernel {
                stacks: final(self).stacks,
                psp: final(self).psp,
                tct: final(self).tct,
                ..*old(self)
            }),
    {
        let cur: usize = self.tct.current_task;
        let st = &mut self.stacks[cur];
        let new_sp = frame::push_sw_zone(st, self.psp, &self.cpu);
        self.psp = new_sp;
        self.tct.update_sp(new_sp);
    }

    /// What the CPU does on exception return: the hardware-saved zone
    /// comes back off the process stack into the register file, and the
    /// process stack pointer rises above it.
    pub fn exception_return(&mut self)
        requires
            old(self).tct.current_task < old(self).stacks@.len(),
            old(self).psp + frame::ZONE_WORDS <= old(self).stacks@[old(
                self,
            ).tct.current_task as int]@.len(),
        ensures
            final(self).psp == old(self).psp + frame::ZONE_WORDS,
            final(self).cpu == (ProcessFrame {
                r0: (old(self).stacks@[old(self).tct.current_task as int])@[old(self).psp + 0],
                r1: (old(self).stacks@[old(self).tct.current_task as int])@[old(self).psp + 1],
                r2: (old(self).stacks@[old(self).tct.current_task as int])@[old(self).psp + 2],
                r3: (old(self).stacks@[old(self).tct.current_task as int])@[old(self).psp + 3],
                r12: (old(self).stacks@[old(self).tct.current_task as int])@[old(self).psp + 4],
                lr: (old(self).stacks@[old(self).tct.current_task as int])@[old(self).psp + 5],
                pc: (old(self).stacks@[old(self).tct.current_task as int])@[old(self).psp + 6],
                psr: (old(self).stacks@[old(self).tct.current_task as int])@[old(self).psp + 7],
                ..old(self).cpu
            }),
            *final(self) == (Kernel { cpu: final(self).cpu, psp: final(self).psp, ..*old(self) }),
    {
        let cur: usize = self.tct.current_task;
        let new_sp = frame::pop_hw_zone(&self.stacks[cur], self.psp, &mut self.cpu);
        self.psp = new_sp;
    }

    /// The load half of the context switch towards the next runnable task:
    /// round-robin selection picks it and transitions it to running, its
    /// saved software zone comes back into the register file, and the
    /// process stack pointer is set above that zone — the hardware zone
    /// follows at exception return. When no task is runnable the kernel
    /// halts: a configuration with no runnable task left is fatal.
    pub fn load_next_task(&mut self) -> (ok: bool)
        requires
            old(self).tct.slots_wf(),
            0 < old(self).tct.heap_size,
            old(self).tct.heap_size < usize::MAX,
            old(self).tct.current_task < old(self).tct.heap_size,
            old(self).stacks@.len() == old(self).tct.heap_size,
            forall|i: int|
                0 <= i < old(self).tct.heap_size && crate::tct::runnable(
                    #[trigger] old(self).tct.state_of(i),
                ) ==> old(self).tct.task(i).sp + frame::FRAME_WORDS <= old(self).stacks@[i]@.len(),
        ensures
            final(self).stacks@ == old(self).stacks@,
            final(self).tct.heap_size == old(self).tct.heap_size,
            final(self).tct.currently_sleeping == old(self).tct.currently_sleeping,
            final(self).tct.slots_wf(),
            match old(self).tct.spec_select_next() {
                Some(idx) => {
                    &&& ok
                    &&& final(self).halted == old(self).halted
                    &&& final(self).tct.current_task == idx
                    &&& final(self).tct.tasks@ == old(self).tct.tasks@.update(
                        idx,
                        Some(TCB { state: TaskStates::RUNNING, ..old(self).tct.task(idx) }),
                    )
                    &&& final(self).psp == old(self).tct.task(idx).sp + frame::ZONE_WORDS
                    &&& final(self).cpu == (ProcessFrame {
                        r4: (old(self).stacks@[idx])@[old(self).tct.task(idx).sp + 0],
                        r5: (old(self).stacks@[idx])@[old(self).tct.task(idx).sp + 1],
                        r6: (old(self).stacks@[idx])@[old(self).tct.task(idx).sp + 2],
                        r7: (old(self).stacks@[idx])@[old(self).tct.task(idx).sp + 3],
                        r8: (old(self).stacks@[idx])@[old(self).tct.task(idx).sp + 4],
                        r9: (old(self).stacks@[idx])@[old(self).tct.task(idx).sp + 5],
                        r10: (old(self).stacks@[idx])@[old(self).tct.task(idx).sp + 6],
                        r11: (old(self).stacks@[idx])@[old(self).tct.task(idx).sp + 7],
                        ..old(self).cpu
                    })
                    &&& *final(self) == (Kernel {
                        tct: final(self).tct,
                        psp: final(self).psp,
                        cpu: final(self).cpu,
                        ..*old(self)
                    })
                },
                None => {
                    &&& !ok
                    &&& final(self).halted
                    &&& final(self).tct.tasks@ == old(self).tct.tasks@
                    &&& final(self).tct.current_task == old(self).tct.current_task
                    &&& *final(self) == (Kernel { halted: true, ..*old(self) })
                },
            },
    {
        match self.tct.next_process() {
            Some(sp) => {
                let cur: usize = self.tct.current_task;
                proof {
                    let idx = old(self).tct.spec_select_next()->Some_0;
                    assert(cur == idx);
                    assert(crate::tct::runnable(old(self).tct.state_of(idx)));
                    assert(old(self).tct.task(idx).sp + frame::FRAME_WORDS <= old(
                        self,
                    ).stacks@[idx]@.len());
                    assert(sp == old(self).tct.task(idx).sp);
                }
                let new_sp = frame::pop_sw_zone(&self.stacks[cur], sp, &mut self.cpu);
                self.psp = new_sp;
                true
            },
            None => {
                self.halted = true;
                false
            },
        }
    }

    /// The load half of the wakeup path: the one sleeping task — chosen by
    /// the table, not by round-robin — transitions from blocked back to
    /// running, its saved software zone comes back into the register
    /// file, and the process stack pointer is set above that zone.
    pub fn load_sleeping_task(&mut self)
        requires
            old(self).tct.slots_wf(),
            old(self).tct.currently_sleeping < old(self).tct.heap_size,
            old(self).tct.state_of(old(self).tct.currently_sleeping as int) == TaskStates::BLOCKED,
            old(self).stacks@.len() == old(self).tct.heap_size,
            old(self).tct.task(old(self).tct.currently_sleeping as int).sp + frame::FRAME_WORDS
                <= old(self).stacks@[old(self).tct.currently_sleeping as int]@.len(),
        ensures
            final(self).stacks@ == old(self).stacks@,
            final(self).tct.heap_size == old(self).tct.heap_size,
            final(self).tct.currently_sleeping == old(self).tct.currently_sleeping,
            final(self).tct.slots_wf(),
            final(self).tct.current_task == old(self).tct.currently_sleeping,
            final(self).tct.tasks@ == old(self).tct.tasks@.update(
                old(self).tct.currently_sleeping as int,
                Some(
                    TCB {
                        state: TaskStates::RUNNING,
                        ..old(self).tct.task(old(self).tct.currently_sleeping as int)
                    },
                ),
            ),
            final(self).psp == old(self).tct.task(old(self).tct.currently_sleeping as int).sp
                + frame::ZONE_WORDS,
            final(self).cpu == (ProcessFrame {
                r4: (old(self).stacks@[old(self).tct.currently_sleeping as int])@[old(
                    self,
                ).tct.task(old(self).tct.currently_sleeping as int).sp + 0],
                r5: (old(self).stacks@[old(self).tct.currently_sleeping as int])@[old(
                    self,
                ).tct.task(old(self).tct.currently_sleeping as int).sp + 1],
                r6: (old(self).stacks@[old(self).tct.currently_sleeping as int])@[old(
                    self,
                ).tct.task(old(self).tct.currently_sleeping as int).sp + 2],
                r7: (old(self).stacks@[old(self).tct.currently_sleeping as int])@[old(
                    self,
                ).tct.task(old(self).tct.currently_sleeping as int).sp + 3],
                r8: (old(self).stacks@[old(self).tct.currently_sleeping as int])@[old(
                    self,
                ).tct.task(old(self).tct.currently_sleeping as int).sp + 4],
                r9: (old(self).stacks@[old(self).tct.currently_sleeping as int])@[old(
                    self,
                ).tct.task(old(self).tct.currently_sleeping as int).sp + 5],
                r10: (old(self).stacks@[old(self).tct.currently_sleeping as int])@[old(
                    self,
                ).tct.task(old(self).tct.currently_sleeping as int).sp + 6],
                r11: (old(self).stacks@[old(self).tct.currently_sleeping as int])@[old(
                    self,
                ).tct.task(old(self).tct.currently_sleeping as int).sp + 7],
                ..old(self).cpu
            }),
            *final(self) == (Kernel {
                tct: final(self).tct,
                psp: final(self).psp,
                cpu: final(self).cpu,
                ..*old(self)
            }),
    {
        let sp = self.tct.get_sleeping();
        let cur: usize = self.tct.current_task;
        let new_sp = frame::pop_sw_zone(&self.stacks[cur], sp, &mut self.cpu);
        self.psp = new_sp;
    }
}

/// The saved-frame half of a full preemption, relating the stacks before
/// and after: the interrupted task's whole sixteen-word frame — hardware
/// zone from exception entry, software zone from the save primitive —
/// stands in its stack just below the old process stack pointer, and no
/// other stack changed.
pub open spec fn switch_frame_saved(pre: Kernel, post: Kernel) -> bool {
    let cur = pre.tct.current_task as int;
    &&& post.stacks@.len() == pre.stacks@.len()
    &&& (post.stacks@[cur])@ == frame::store_words(
        (pre.stacks@[cur])@,
        pre.psp - frame::FRAME_WORDS,
        frame::frame_words(pre.cpu),
    )
    &&& forall|i: int|
        0 <= i < pre.stacks@.len() && i != cur ==> post.stacks@[i] == pre.stacks@[i]
}

/// The load half of a switch, relating the state after to the table `t1`
/// left by the save half: round-robin selection over `t1` picks the next
/// task, which becomes current and running with its whole frame restored —
/// or finds nothing runnable, which halts the system.
pub open spec fn switch_select_post(pre: Kernel, post: Kernel, t1: Seq<Option<TCB>>) -> bool {
    let cur = pre.tct.current_task as int;
    let heap = pre.tct.heap_size as int;
    &&& post.tct.heap_size == pre.tct.heap_size
    &&& match crate::tct::select_next(t1, heap, cur) {
        Some(idx) => {
            &&& !post.halted
            &&& post.tct.current_task == idx
            &&& post.tct.tasks@ == t1.update(
                idx,
                Some(TCB { state: TaskStates::RUNNING, ..t1[idx]->Some_0 }),
            )
            &&& post.psp == t1[idx]->Some_0.sp + frame::FRAME_WORDS
            &&& post.cpu == frame::frame_at((post.stacks@[idx])@, t1[idx]->Some_0.sp as int)
        },
        None => {
            &&& post.halted
            &&& post.tct.current_task == pre.tct.current_task
            &&& post.tct.tasks@ == t1
        },
    }
}

impl Kernel {
    /// The table left by a full preemption save, seen from the state at
    /// exception entry: the current descriptor records the stack pointer
    /// sixteen words below the live one and steps back from running to
    /// ready; a task that blocked or terminated itself beforehand keeps
    /// that state.
    pub open spec fn preempt_saved_tasks(self) -> Seq<Option<TCB>>
        recommends
            self.tct.current_task < self.tct.heap_size,
            frame::FRAME_WORDS <= self.psp,
    {
        let cur = self.tct.current_task as int;
        let t = self.tct.task(cur);
        let demoted = if t.state == TaskStates::RUNNING {
            TaskStates::READY
        } else {
            t.state
        };
        self.tct.tasks@.update(
            cur,
            Some(TCB { sp: (self.psp - frame::FRAME_WORDS) as usize, state: demoted, pid: t.pid }),
        )
    }

    /// The whole context switch, as the lowest-priority exception runs it
    /// between the CPU's own stacking and unstacking: save the software
    /// zone and the resulting stack pointer, step the current task back
    /// from running to ready, select the next runnable task round-robin,
    /// and restore its software zone. With nothing runnable the system
    /// halts.
    pub fn context_switch(&mut self)
        requires
            old(self).tct.slots_wf(),
            0 < old(self).tct.heap_size,
            old(self).tct.heap_size < usize::MAX,
            old(self).tct.current_task < old(self).tct.heap_size,
            old(self).stacks@.len() == old(self).tct.heap_size,
            !old(self).halted,
            frame::ZONE_WORDS <= old(self).psp,
            old(self).psp + frame::ZONE_WORDS <= old(self).stacks@[old(
                self,
            ).tct.current_task as int]@.len(),
            forall|i: int|
                0 <= i < old(self).tct.heap_size && i != old(self).tct.current_task
                    && crate::tct::runnable(#[trigger] old(self).tct.state_of(i)) ==> old(
                    self,
                ).tct.task(i).sp + frame::FRAME_WORDS <= old(self).stacks@[i]@.len(),
        ensures
            final(self).tct.slots_wf(),
            final(self).stacks@.len() == old(self).stacks@.len(),
            (final(self).stacks@[old(self).tct.current_task as int])@ == frame::store_words(
                (old(self).stacks@[old(self).tct.current_task as int])@,
                old(self).psp - frame::ZONE_WORDS,
                frame::sw_zone_words(old(self).cpu),
            ),
            forall|i: int|
                0 <= i < old(self).stacks@.len() && i != old(self).tct.current_task
                    ==> final(self).stacks@[i] == old(self).stacks@[i],
            final(self).tct.heap_size == old(self).tct.heap_size,
            final(self).tct.currently_sleeping == old(self).tct.currently_sleeping,
            match crate::tct::select_next(
                old(self).saved_tasks(),
                old(self).tct.heap_size as int,
                old(self).tct.current_task as int,
            ) {
                Some(idx) => {
                    let t1 = old(self).saved_tasks();
                    &&& !final(self).halted
                    &&& final(self).tct.current_task == idx
                    &&& final(self).tct.tasks@ == t1.update(
                        idx,
                        Some(TCB { state: TaskStates::RUNNING, ..t1[idx]->Some_0 }),
                    )
                    &&& final(self).psp == t1[idx]->Some_0.sp + frame::ZONE_WORDS
                    &&& final(self).cpu == (ProcessFrame {
                        r4: (final(self).stacks@[idx])@[t1[idx]->Some_0.sp + 0],
                        r5: (final(self).stacks@[idx])@[t1[idx]->Some_0.sp + 1],
                        r6: (final(self).stacks@[idx])@[t1[idx]->Some_0.sp + 2],
                        r7: (final(self).stacks@[idx])@[t1[idx]->Some_0.sp + 3],
                        r8: (final(self).stacks@[idx])@[t1[idx]->Some_0.sp + 4],
                        r9: (final(self).stacks@[idx])@[t1[idx]->Some_0.sp + 5],
                        r10: (final(self).stacks@[idx])@[t1[idx]->Some_0.sp + 6],
                        r11: (final(self).stacks@[idx])@[t1[idx]->Some_0.sp + 7],
                        ..old(self).cpu
                    })
                },
                None => {
                    &&& final(self).halted
                    &&& final(self).tct.current_task == old(self).tct.current_task
                    &&& final(self).tct.tasks@ == old(self).saved_tasks()
                    &&& final(self).cpu == old(self).cpu
                    &&& final(self).psp == old(self).psp - frame::ZONE_WORDS
                },
            },
            *final(self) == (Kernel {
                tct: final(self).tct,
                stacks: final(self).stacks,
                psp: final(self).psp,
                cpu: final(self).cpu,
                halted: final(self).halted,
                ..*old(self)
            }),
    {
        let ghost pre = *self;
        self.save_task_context();
        match self.tct.get_current_tcb() {
            Some(t) => {
                match t.state {
                    TaskStates::RUNNING => {
                        self.tct.set_task_state(TaskStates::READY);
                    },
                    _ => {},
                }
            },
            None => {},
        }
        proof {
            assert(self.tct.tasks@ =~= pre.saved_tasks());
            assert(self.tct.slots_wf());
            assert forall|i: int|
                0 <= i < self.tct.heap_size && crate::tct::runnable(
                    #[trigger] self.tct.state_of(i),
                ) implies self.tct.task(i).sp + frame::FRAME_WORDS <= self.stacks@[i]@.len() by {
                if i != pre.tct.current_task as int {
                    assert(self.tct.tasks@[i] == pre.tct.tasks@[i]);
                    assert(self.stacks@[i] == pre.stacks@[i]);
                    assert(crate::tct::runnable(pre.tct.state_of(i)));
                }
            }
        }
        self.load_next_task();
    }
}

impl Kernel {
    /// A state from which a full preemption can proceed: the system runs,
    /// the table and stacks line up, the live stack pointer leaves room
    /// for one frame, no task but possibly the current one is running, and
    /// every other task keeps a full saved frame in bounds. This is the
    /// running invariant with the current task's own state left open — a
    /// trap may have just blocked or terminated it.
    pub open spec fn switch_pre(self) -> bool {
        let cur = self.tct.current_task as int;
        &&& self.started
        &&& !self.halted
        &&& self.tct.slots_wf()
        &&& self.tct.tasks@.len() < usize::MAX
        &&& 0 < self.tct.heap_size
        &&& self.tct.current_task < self.tct.heap_size
        &&& self.stacks@.len() == self.tct.heap_size
        &&& forall|i: int|
            0 <= i < self.tct.heap_size ==> frame::FRAME_WORDS <= (#[trigger] self.stacks@[i])@.len()
        &&& frame::FRAME_WORDS <= self.psp
        &&& self.psp <= self.stacks@[cur]@.len()
        &&& forall|i: int|
            0 <= i < self.tct.heap_size && i != cur ==> (#[trigger] self.tct.state_of(i))
                != TaskStates::RUNNING && self.tct.task(i).sp + frame::FRAME_WORDS
                <= self.stacks@[i]@.len()
        &&& self.timer_wf()
        &&& self.counters_wf()
    }

    /// One full preemption, as the hardware chains it: exception entry
    /// stacks the hardware zone, the context switch saves the software
    /// zone and selects the next runnable task, and exception return
    /// unstacks that task's hardware zone. With nothing runnable the
    /// system halts with the frame saved.
    fn switch_now(&mut self)
        requires
            old(self).switch_pre(),
        ensures
            final(self).wf(),
            final(self).started,
            final(self).tct.heap_size == old(self).tct.heap_size,
            final(self).tct.currently_sleeping == old(self).tct.currently_sleeping,
            switch_frame_saved(*old(self), *final(self)),
            switch_select_post(*old(self), *final(self), old(self).preempt_saved_tasks()),
            *final(self) == (Kernel {
                tct: final(self).tct,
                stacks: final(self).stacks,
                psp: final(self).psp,
                cpu: final(self).cpu,
                halted: final(self).halted,
                ..*old(self)
            }),
    {
        let ghost pre = *self;
        self.exception_entry();
        proof {
            assert(self.saved_tasks() =~= pre.preempt_saved_tasks());
        }
        self.context_switch();
        proof {
            let cur = pre.tct.current_task as int;
            frame::lemma_save_then_load_identity(pre.stacks@[cur]@, pre.psp as int, pre.cpu);
            assert((self.stacks@[cur])@ =~= frame::store_words(
                pre.stacks@[cur]@,
                pre.psp - frame::FRAME_WORDS,
                frame::frame_words(pre.cpu),
            ));
        }
        if !self.halted {
            proof {
                let t1 = pre.preempt_saved_tasks();
                let cur = pre.tct.current_task as int;
                let heap = pre.tct.heap_size as int;
                let idx = crate::tct::select_next(t1, heap, cur)->Some_0;
                lemma_scan_selects_runnable(t1, heap, cur, 1);
                assert(0 <= idx < heap);
                assert(t1[idx] is Some && crate::tct::runnable(t1[idx]->Some_0.state));
                if idx != cur {
                    assert(t1[idx] == pre.tct.tasks@[idx]);
                    assert(pre.tct.state_of(idx) != TaskStates::RUNNING);
                    assert(self.stacks@[idx] == pre.stacks@[idx]);
                }
                assert(t1[idx]->Some_0.sp + frame::FRAME_WORDS <= self.stacks@[idx]@.len());
            }
            self.exception_return();
        }
        proof {
            let t1 = pre.preempt_saved_tasks();
            let cur = pre.tct.current_task as int;
            let heap = pre.tct.heap_size as int;
            assert(t1[cur]->Some_0.state != TaskStates::RUNNING);
            match crate::tct::select_next(t1, heap, cur) {
                Some(sel) => {
                    lemma_scan_selects_runnable(t1, heap, cur, 1);
                    let idx = crate::tct::select_next(t1, heap, cur)->Some_0;
                    assert(0 <= idx < heap);
                    assert(self.cpu == frame::frame_at(
                        (self.stacks@[idx])@,
                        t1[idx]->Some_0.sp as int,
                    ));
                    assert(switch_select_post(pre, *self, t1));
                    // the selected task alone is running in the new table
                    assert forall|i: int|
                        0 <= i < heap && i != idx implies #[trigger] self.tct.state_of(i)
                        != TaskStates::RUNNING by {
                        assert(self.tct.tasks@[i] == t1[i]);
                        if i != cur {
                            assert(t1[i] == pre.tct.tasks@[i]);
                            assert(pre.tct.state_of(i) != TaskStates::RUNNING);
                        }
                    }
                    assert(self.tct.exactly_one_running());
                    assert forall|i: int|
                        0 <= i < heap && self.tct.state_of(i) != TaskStates::RUNNING implies (
                    #[trigger] self.tct.task(i)).sp + frame::FRAME_WORDS
                        <= self.stacks@[i]@.len() by {
                        if i != cur && i != idx {
                            assert(self.tct.tasks@[i] == pre.tct.tasks@[i]);
                            assert(self.stacks@[i] == pre.stacks@[i]);
                            assert(pre.tct.state_of(i) != TaskStates::RUNNING);
                        }
                        if i == cur && i != idx {
                            assert(self.tct.tasks@[i] == t1[cur]);
                            assert(self.stacks@[cur]@.len() == pre.stacks@[cur]@.len());
                        }
                    }
                    assert(self.stacks_wf());
                    assert(self.running_wf());
                    if self.timer.enabled {
                        let s = self.tct.currently_sleeping as int;
                        assert(self.tct.state_of(s) == TaskStates::BLOCKED) by {
                            assert(t1[idx]->Some_0.state != TaskStates::BLOCKED);
                            if s != cur && s != idx {
                                assert(self.tct.tasks@[s] == pre.tct.tasks@[s]);
                            }
                            if s == cur {
                                assert(pre.tct.state_of(cur) == TaskStates::BLOCKED);
                                assert(self.tct.tasks@[s] == t1[cur]);
                            }
                        }
                    }
                    assert(self.timer_wf());
                    assert(self.wf());
                },
                None => {
                    assert(self.halted);
                    assert forall|i: int|
                        0 <= i < heap && self.tct.state_of(i) != TaskStates::RUNNING implies (
                    #[trigger] self.tct.task(i)).sp + frame::FRAME_WORDS
                        <= self.stacks@[i]@.len() by {
                        if i != cur {
                            assert(self.tct.tasks@[i] == pre.tct.tasks@[i]);
                            assert(self.stacks@[i] == pre.stacks@[i]);
                            assert(pre.tct.state_of(i) != TaskStates::RUNNING);
                        } else {
                            assert(self.tct.tasks@[i] == t1[cur]);
                            assert(self.stacks@[cur]@.len() == pre.stacks@[cur]@.len());
                        }
                    }
                    assert(self.stacks_wf());
                    if self.timer.enabled {
                        let s = self.tct.currently_sleeping as int;
                        assert(self.tct.state_of(s) == TaskStates::BLOCKED) by {
                            if s != cur {
                                assert(self.tct.tasks@[s] == pre.tct.tasks@[s]);
                            } else {
                                assert(pre.tct.state_of(cur) == TaskStates::BLOCKED);
                                assert(self.tct.tasks@[s] == t1[cur]);
                            }
                        }
                    }
                    assert(self.timer_wf());
                    assert(self.wf());
                },
            }
        }
    }
}

impl Kernel {
    /// Whether the next timer tick reaches the sleep deadline.
    pub open spec fn tick_fires_timer(self) -> bool {
        self.timer.enabled && self.timer.counter + 1 >= self.timer.compare
    }

    /// The sleep-timer interrupt: the counter is stopped and cleared, the
    /// interrupted task's frame is saved and the task steps back to ready,
    /// and the one sleeping task transitions from blocked back to running
    /// with its frame restored — chosen by the wakeup slot, not by
    /// round-robin. The wakeup outranks the scheduling tick, so it
    /// proceeds whether or not a critical section holds the tick masked.
    pub fn timer_isr(&mut self)
        requires
            old(self).tct.slots_wf(),
            old(self).tct.tasks@.len() < usize::MAX,
            old(self).stacks_wf(),
            old(self).running_wf(),
            old(self).counters_wf(),
            old(self).started,
            !old(self).halted,
            old(self).tct.currently_sleeping < old(self).tct.heap_size,
            old(self).tct.state_of(old(self).tct.currently_sleeping as int) == TaskStates::BLOCKED,
        ensures
            final(self).wf(),
            final(self).started,
            !final(self).halted,
            final(self).timer == (SleepTimer {
                enabled: false,
                counter: 0,
                compare: old(self).timer.compare,
            }),
            switch_frame_saved(*old(self), *final(self)),
            final(self).tct.heap_size == old(self).tct.heap_size,
            final(self).tct.currently_sleeping == old(self).tct.currently_sleeping,
            final(self).tct.current_task == old(self).tct.currently_sleeping,
            final(self).tct.tasks@ == old(self).preempt_saved_tasks().update(
                old(self).tct.currently_sleeping as int,
                Some(
                    TCB {
                        state: TaskStates::RUNNING,
                        ..old(self).tct.task(old(self).tct.currently_sleeping as int)
                    },
                ),
            ),
            final(self).psp == old(self).tct.task(old(self).tct.currently_sleeping as int).sp
                + frame::FRAME_WORDS,
            final(self).cpu == frame::frame_at(
                (final(self).stacks@[old(self).tct.currently_sleeping as int])@,
                old(self).tct.task(old(self).tct.currently_sleeping as int).sp as int,
            ),
            *final(self) == (Kernel {
                tct: final(self).tct,
                stacks: final(self).stacks,
                psp: final(self).psp,
                cpu: final(self).cpu,
                timer: final(self).timer,
                ..*old(self)
            }),
    {
        let ghost pre = *self;
        proof {
            // the sleeper is blocked, the current task running: distinct slots
            assert(pre.tct.currently_sleeping != pre.tct.current_task);
        }
        self.timer.stop();
        self.exception_entry();
        self.save_task_context();
        match self.tct.get_current_tcb() {
            Some(t) => {
                match t.state {
                    TaskStates::RUNNING => {
                        self.tct.set_task_state(TaskStates::READY);
                    },
                    _ => {},
                }
            },
            None => {},
        }
        proof {
            assert(self.tct.tasks@ =~= pre.preempt_saved_tasks());
            assert(self.tct.slots_wf());
            let s = pre.tct.currently_sleeping as int;
            assert(self.tct.tasks@[s] == pre.tct.tasks@[s]);
            assert(self.tct.state_of(s) == TaskStates::BLOCKED);
            assert(self.tct.task(s).sp + frame::FRAME_WORDS <= self.stacks@[s]@.len());
        }
        self.load_sleeping_task();
        proof {
            let s = pre.tct.currently_sleeping as int;
            assert(self.psp + frame::ZONE_WORDS <= self.stacks@[s]@.len());
        }
        self.exception_return();
        proof {
            let t1 = pre.preempt_saved_tasks();
            let cur = pre.tct.current_task as int;
            let heap = pre.tct.heap_size as int;
            let s = pre.tct.currently_sleeping as int;
            frame::lemma_save_then_load_identity(pre.stacks@[cur]@, pre.psp as int, pre.cpu);
            assert((self.stacks@[cur])@ =~= frame::store_words(
                pre.stacks@[cur]@,
                pre.psp - frame::FRAME_WORDS,
                frame::frame_words(pre.cpu),
            ));
            assert(self.cpu == frame::frame_at((self.stacks@[s])@, t1[s]->Some_0.sp as int));
            assert(t1[cur]->Some_0.state != TaskStates::RUNNING);
            assert forall|i: int|
                0 <= i < heap && i != s implies #[trigger] self.tct.state_of(i)
                != TaskStates::RUNNING by {
                assert(self.tct.tasks@[i] == t1[i]);
                if i != cur {
                    assert(t1[i] == pre.tct.tasks@[i]);
                    assert(pre.tct.state_of(i) != TaskStates::RUNNING);
                }
            }
            assert(self.tct.exactly_one_running());
            assert forall|i: int|
                0 <= i < heap && self.tct.state_of(i) != TaskStates::RUNNING implies (
            #[trigger] self.tct.task(i)).sp + frame::FRAME_WORDS <= self.stacks@[i]@.len() by {
                if i != cur && i != s {
                    assert(self.tct.tasks@[i] == pre.tct.tasks@[i]);
                    assert(self.stacks@[i] == pre.stacks@[i]);
                    assert(pre.tct.state_of(i) != TaskStates::RUNNING);
                }
                if i == cur {
                    assert(self.tct.tasks@[i] == t1[cur]);
                    assert(self.stacks@[cur]@.len() == pre.stacks@[cur]@.len());
                }
            }
            assert(self.stacks_wf());
            assert(self.running_wf());
            assert(self.timer_wf());
            assert(self.wf());
        }
    }

    /// One scheduling tick, as the interrupt machinery runs it. Nothing
    /// moves on a halted or not-yet-started system. Otherwise time
    /// advances by one timer count, and exactly one of three things
    /// happens: a reached sleep deadline wakes the sleeping task; an
    /// unmasked tick preempts the running task round-robin — coming
    /// straight back to it, registers and live stack untouched, when it is
    /// the only one; a masked tick is recorded as pending and changes
    /// nothing else, the critical section staying unbroken.
    pub fn tick(&mut self)
        requires
            old(self).wf(),
            old(self).now < u64::MAX,
        ensures
            final(self).wf(),
            // a stopped or unstarted system stays exactly as it is
            !old(self).started || old(self).halted ==> *final(self) == *old(self),
            // otherwise one timer count elapses
            old(self).started && !old(self).halted ==> {
                &&& final(self).now == old(self).now + 1
                &&& final(self).started
                &&& final(self).stdout_log@ == old(self).stdout_log@
                &&& final(self).terminate_syscalls == old(self).terminate_syscalls
                &&& final(self).terminated_transitions == old(self).terminated_transitions
                &&& final(self).sleep_armed_at == old(self).sleep_armed_at
            },
            // the tick inside a critical section is observed but switches nothing
            old(self).started && !old(self).halted && !old(self).tick_fires_timer() && !old(
                self,
            ).systick_on ==> *final(self) == (Kernel {
                now: (old(self).now + 1) as u64,
                timer: (SleepTimer {
                    counter: if old(self).timer.enabled {
                        (old(self).timer.counter + 1) as u64
                    } else {
                        old(self).timer.counter
                    },
                    ..old(self).timer
                }),
                tick_pending: true,
                ..*old(self)
            }),
            // a reached sleep deadline wakes the sleeping task
            old(self).started && !old(self).halted && old(self).tick_fires_timer() ==> {
                &&& !final(self).halted
                &&& final(self).tct.current_task == old(self).tct.currently_sleeping
                &&& final(self).tct.tasks@ == old(self).preempt_saved_tasks().update(
                    old(self).tct.currently_sleeping as int,
                    Some(
                        TCB {
                            state: TaskStates::RUNNING,
                            ..old(self).tct.task(old(self).tct.currently_sleeping as int)
                        },
                    ),
                )
                &&& !final(self).timer.enabled
                &&& switch_frame_saved(*old(self), *final(self))
                &&& final(self).systick_on == old(self).systick_on
                &&& final(self).tct.currently_sleeping == old(self).tct.currently_sleeping
                &&& final(self).psp == old(self).tct.task(
                    old(self).tct.currently_sleeping as int,
                ).sp + frame::FRAME_WORDS
                &&& final(self).cpu == frame::frame_at(
                    (final(self).stacks@[old(self).tct.currently_sleeping as int])@,
                    old(self).tct.task(old(self).tct.currently_sleeping as int).sp as int,
                )
            },
            // an unmasked tick preempts round-robin
            old(self).started && !old(self).halted && !old(self).tick_fires_timer() && old(
                self,
            ).systick_on ==> {
                &&& switch_frame_saved(*old(self), *final(self))
                &&& switch_select_post(*old(self), *final(self), old(self).preempt_saved_tasks())
                &&& final(self).tct.currently_sleeping == old(self).tct.currently_sleeping
                &&& final(self).systick_on && final(self).tick_pending == old(self).tick_pending
                &&& final(self).timer == (SleepTimer {
                    counter: if old(self).timer.enabled {
                        (old(self).timer.counter + 1) as u64
                    } else {
                        old(self).timer.counter
                    },
                    ..old(self).timer
                })
            },
            // with a single task the tick comes straight back to it
            old(self).started && !old(self).halted && !old(self).tick_fires_timer() && old(
                self,
            ).systick_on && old(self).tct.heap_size == 1 ==> {
                &&& !final(self).halted
                &&& final(self).tct.current_task == old(self).tct.current_task
                &&& final(self).cpu == old(self).cpu
                &&& final(self).psp == old(self).psp
                &&& forall|j: int|
                    old(self).psp <= j < (old(self).stacks@[old(
                        self,
                    ).tct.current_task as int])@.len() ==> (#[trigger] (final(self).stacks@[old(
                        self,
                    ).tct.current_task as int])@[j]) == (old(self).stacks@[old(
                        self,
                    ).tct.current_task as int])@[j]
            },
            // a terminated task stays terminated
            forall|i: int|
                0 <= i < old(self).tct.heap_size && old(self).tct.state_of(i)
                    == TaskStates::TERMINATED ==> #[trigger] final(self).tct.state_of(i)
                    == TaskStates::TERMINATED,
            final(self).tct.heap_size == old(self).tct.heap_size,
    {
        if !self.started || self.halted {
            return ;
        }
        let ghost pre = *self;
        self.now = self.now + 1;
        let fired = self.timer.advance();
        if fired {
            self.timer_isr();
            proof {
                let cur = pre.tct.current_task as int;
                let t1 = pre.preempt_saved_tasks();
                let s = pre.tct.currently_sleeping as int;
                assert forall|i: int|
                    0 <= i < pre.tct.heap_size && pre.tct.state_of(i)
                        == TaskStates::TERMINATED implies #[trigger] self.tct.state_of(i)
                    == TaskStates::TERMINATED by {
                    assert(i != s);
                    if i != cur {
                        assert(t1[i] == pre.tct.tasks@[i]);
                    }
                }
            }
        } else if self.systick_on {
            self.switch_now();
            proof {
                let cur = pre.tct.current_task as int;
                let heap = pre.tct.heap_size as int;
                let t1 = pre.preempt_saved_tasks();
                match crate::tct::select_next(t1, heap, cur) {
                    Some(sel) => {
                        lemma_scan_selects_runnable(t1, heap, cur, 1);
                    },
                    None => {},
                }
                assert forall|i: int|
                    0 <= i < pre.tct.heap_size && pre.tct.state_of(i)
                        == TaskStates::TERMINATED implies #[trigger] self.tct.state_of(i)
                    == TaskStates::TERMINATED by {
                    if i != cur {
                        assert(t1[i] == pre.tct.tasks@[i]);
                    }
                }
                if pre.tct.heap_size == 1 {
                    assert(cur == 0);
                    assert(crate::tct::wrap_at(1, 0, 1) == 0);
                    assert(t1[0] is Some && crate::tct::runnable(t1[0]->Some_0.state));
                    assert(crate::tct::select_next(t1, 1, 0) == Some(0int));
                    frame::lemma_frame_roundtrip(
                        pre.stacks@[0]@,
                        pre.psp - frame::FRAME_WORDS,
                        pre.cpu,
                    );
                    assert(self.cpu == pre.cpu);
                    assert(self.psp == pre.psp);
                }
            }
        } else {
            self.tick_pending = true;
            proof {
                assert(self.timer_wf());
                assert(self.wf());
            }
        }
    }
}

impl Kernel {
    /// The table left when a trap changes the current task's state to
    /// `st` and a switch then saves its frame: the descriptor records the
    /// stack pointer sixteen words below the live one and the new state.
    pub open spec fn trapped_saved_tasks(self, st: TaskStates) -> Seq<Option<TCB>>
        recommends
            self.tct.current_task < self.tct.heap_size,
            frame::FRAME_WORDS <= self.psp,
    {
        let cur = self.tct.current_task as int;
        let t = self.tct.task(cur);
        self.tct.tasks@.update(
            cur,
            Some(TCB { sp: (self.psp - frame::FRAME_WORDS) as usize, state: st, pid: t.pid }),
        )
    }

    /// The supervisor-call dispatcher: a task raised the trap instruction
    /// with a metadata record, and the handler decodes it and acts.
    /// Entering the critical section masks the scheduling tick and leaving
    /// it unmasks it, serving at once a tick that arrived inside; a yield
    /// gives the remaining slice away through the ordinary switch; a
    /// termination marks the caller terminated — for good — and switches;
    /// a sleep arms the timer with the scaled millisecond count, blocks
    /// the caller, records it as the one sleeper, and switches; a write
    /// logs the payload to the standard-output sink without a switch.
    pub fn svcall(&mut self, meta: TrapMeta)
        requires
            old(self).wf(),
            old(self).started,
            !old(self).halted,
            old(self).terminate_syscalls < u64::MAX,
        ensures
            final(self).wf(),
            final(self).started,
            final(self).now == old(self).now,
            final(self).tct.heap_size == old(self).tct.heap_size,
            // entering the critical section masks the tick and nothing more
            meta.id == TrapReason::EnableRt ==> *final(self) == (Kernel {
                systick_on: false,
                ..*old(self)
            }),
            // leaving it unmasks the tick
            meta.id == TrapReason::DisableRt && !old(self).tick_pending ==> *final(self)
                == (Kernel { systick_on: true, ..*old(self) }),
            // a tick that arrived inside the critical section is served now
            meta.id == TrapReason::DisableRt && old(self).tick_pending ==> {
                &&& switch_frame_saved(*old(self), *final(self))
                &&& switch_select_post(*old(self), *final(self), old(self).preempt_saved_tasks())
                &&& final(self).tct.currently_sleeping == old(self).tct.currently_sleeping
                &&& final(self).systick_on
                &&& !final(self).tick_pending
            },
            // a yield behaves exactly as a scheduling tick
            meta.id == TrapReason::YieldTask ==> {
                &&& switch_frame_saved(*old(self), *final(self))
                &&& switch_select_post(*old(self), *final(self), old(self).preempt_saved_tasks())
                &&& final(self).tct.currently_sleeping == old(self).tct.currently_sleeping
                &&& final(self).systick_on == old(self).systick_on
                &&& final(self).tick_pending == old(self).tick_pending
            },
            // a termination trap is counted once, moves the caller into the
            // sink state, and hands the CPU on
            meta.id == TrapReason::TerminateTask ==> {
                &&& final(self).terminate_syscalls == old(self).terminate_syscalls + 1
                &&& final(self).terminated_transitions == old(self).terminated_transitions + 1
                &&& final(self).tct.state_of(old(self).tct.current_task as int)
                    == TaskStates::TERMINATED
                &&& switch_frame_saved(*old(self), *final(self))
                &&& switch_select_post(
                    *old(self),
                    *final(self),
                    old(self).trapped_saved_tasks(TaskStates::TERMINATED),
                )
            },
            // a sleep arms the timer with the scaled count, blocks the
            // caller and records it as the one sleeper
            meta.id == TrapReason::Sleep ==> {
                &&& final(self).timer == (SleepTimer {
                    enabled: true,
                    counter: 0,
                    compare: (meta.payload as u64 * crate::timer::SLEEP_TICKS_PER_MS) as u64,
                })
                &&& final(self).sleep_armed_at == old(self).now
                &&& final(self).tct.currently_sleeping == old(self).tct.current_task
                &&& final(self).tct.state_of(old(self).tct.current_task as int)
                    == TaskStates::BLOCKED
                &&& switch_frame_saved(*old(self), *final(self))
                &&& switch_select_post(
                    *old(self),
                    *final(self),
                    old(self).trapped_saved_tasks(TaskStates::BLOCKED),
                )
            },
            // a write is logged with its caller and switches nothing; the
            // handler leaves the tick unmasked behind it
            meta.id == TrapReason::WriteStdOut ==> *final(self) == (Kernel {
                stdout_log: final(self).stdout_log,
                systick_on: true,
                ..*old(self)
            }) && final(self).stdout_log@ == old(self).stdout_log@.push(
                (old(self).tct.current_task, meta.payload),
            ),
            // nothing else moves the bookkeeping
            meta.id != TrapReason::TerminateTask ==> {
                &&& final(self).terminate_syscalls == old(self).terminate_syscalls
                &&& final(self).terminated_transitions == old(self).terminated_transitions
            },
            meta.id != TrapReason::WriteStdOut ==> final(self).stdout_log@ == old(self).stdout_log@,
            meta.id != TrapReason::Sleep ==> {
                &&& final(self).timer == old(self).timer
                &&& final(self).sleep_armed_at == old(self).sleep_armed_at
                &&& final(self).tct.currently_sleeping == old(self).tct.currently_sleeping
            },
            // a terminated task never comes back
            forall|i: int|
                0 <= i < old(self).tct.heap_size && old(self).tct.state_of(i)
                    == TaskStates::TERMINATED ==> #[trigger] final(self).tct.state_of(i)
                    == TaskStates::TERMINATED,
    {
        let ghost pre = *self;
        match meta.id {
            TrapReason::EnableRt => {
                self.systick_on = false;
            },
            TrapReason::DisableRt => {
                self.systick_on = true;
                if self.tick_pending {
                    self.tick_pending = false;
                    proof {
                        assert(self.preempt_saved_tasks() =~= pre.preempt_saved_tasks());
                    }
                    self.switch_now();
                    proof {
                        lemma_absorbing_after_switch(pre, *self, pre.preempt_saved_tasks());
                    }
                }
            },
            TrapReason::YieldTask => {
                self.switch_now();
                proof {
                    lemma_absorbing_after_switch(pre, *self, pre.preempt_saved_tasks());
                }
            },
            TrapReason::TerminateTask => {
                self.terminate_syscalls = self.terminate_syscalls + 1;
                self.terminated_transitions = self.terminated_transitions + 1;
                self.tct.terminate_task();
                proof {
                    assert(self.tct.slots_wf());
                    assert(self.preempt_saved_tasks() =~= pre.trapped_saved_tasks(
                        TaskStates::TERMINATED,
                    ));
                    assert forall|i: int|
                        0 <= i < self.tct.heap_size && i != self.tct.current_task implies (
                    #[trigger] self.tct.state_of(i)) != TaskStates::RUNNING && self.tct.task(i).sp
                        + frame::FRAME_WORDS <= self.stacks@[i]@.len() by {
                        assert(self.tct.tasks@[i] == pre.tct.tasks@[i]);
                        assert(pre.tct.state_of(i) != TaskStates::RUNNING);
                        assert(pre.tct.task(i).sp + frame::FRAME_WORDS <= pre.stacks@[i]@.len());
                    }
                    assert(self.switch_pre());
                }
                self.switch_now();
                proof {
                    let t1 = pre.trapped_saved_tasks(TaskStates::TERMINATED);
                    let cur = pre.tct.current_task as int;
                    let heap = pre.tct.heap_size as int;
                    match crate::tct::select_next(t1, heap, cur) {
                        Some(sel) => {
                            lemma_scan_selects_runnable(t1, heap, cur, 1);
                            assert(crate::tct::select_next(t1, heap, cur)->Some_0 != cur);
                        },
                        None => {},
                    }
                    assert(self.tct.state_of(cur) == TaskStates::TERMINATED);
                    lemma_absorbing_after_switch(pre, *self, t1);
                }
            },
            TrapReason::Sleep => {
                self.timer.program(meta.payload);
                self.sleep_armed_at = self.now;
                self.tct.mark_self_as_sleeping();
                proof {
                    assert(self.tct.slots_wf());
                    assert(self.preempt_saved_tasks() =~= pre.trapped_saved_tasks(
                        TaskStates::BLOCKED,
                    ));
                    assert(self.timer_wf());
                    assert forall|i: int|
                        0 <= i < self.tct.heap_size && i != self.tct.current_task implies (
                    #[trigger] self.tct.state_of(i)) != TaskStates::RUNNING && self.tct.task(i).sp
                        + frame::FRAME_WORDS <= self.stacks@[i]@.len() by {
                        assert(self.tct.tasks@[i] == pre.tct.tasks@[i]);
                        assert(pre.tct.state_of(i) != TaskStates::RUNNING);
                        assert(pre.tct.task(i).sp + frame::FRAME_WORDS <= pre.stacks@[i]@.len());
                    }
                    assert(self.switch_pre());
                }
                self.switch_now();
                proof {
                    let t1 = pre.trapped_saved_tasks(TaskStates::BLOCKED);
                    let cur = pre.tct.current_task as int;
                    let heap = pre.tct.heap_size as int;
                    match crate::tct::select_next(t1, heap, cur) {
                        Some(sel) => {
                            lemma_scan_selects_runnable(t1, heap, cur, 1);
                            assert(crate::tct::select_next(t1, heap, cur)->Some_0 != cur);
                        },
                        None => {},
                    }
                    assert(self.tct.state_of(cur) == TaskStates::BLOCKED);
                    lemma_absorbing_after_switch(pre, *self, t1);
                }
            },
            TrapReason::WriteStdOut => {
                let cur: usize = self.tct.current_task;
                self.stdout_log.push((cur, meta.payload));
                self.systick_on = true;
            },
        }
    }
}

/// After a switch over a saved table `t1` that differs from the old table
/// only at the old current slot — whose old state was not terminated or
/// stays terminated — every task terminated before is terminated still.
proof fn lemma_absorbing_after_switch(pre: Kernel, post: Kernel, t1: Seq<Option<TCB>>)
    requires
        pre.tct.slots_wf(),
        pre.tct.current_task < pre.tct.heap_size,
        post.tct.heap_size == pre.tct.heap_size,
        t1.len() == pre.tct.tasks@.len(),
        forall|i: int|
            0 <= i < pre.tct.heap_size && i != pre.tct.current_task ==> t1[i]
                == pre.tct.tasks@[i],
        t1[pre.tct.current_task as int] is Some,
        pre.tct.state_of(pre.tct.current_task as int) == TaskStates::TERMINATED ==> t1[pre.tct.current_task as int]->Some_0.state
            == TaskStates::TERMINATED,
        switch_select_post(pre, post, t1),
    ensures
        forall|i: int|
            0 <= i < pre.tct.heap_size && pre.tct.state_of(i) == TaskStates::TERMINATED
                ==> #[trigger] post.tct.state_of(i) == TaskStates::TERMINATED,
{
    let cur = pre.tct.current_task as int;
    let heap = pre.tct.heap_size as int;
    match crate::tct::select_next(t1, heap, cur) {
        Some(sel) => {
            lemma_scan_selects_runnable(t1, heap, cur, 1);
            let idx = crate::tct::select_next(t1, heap, cur)->Some_0;
            assert forall|i: int|
                0 <= i < heap && pre.tct.state_of(i)
                    == TaskStates::TERMINATED implies #[trigger] post.tct.state_of(i)
                == TaskStates::TERMINATED by {
                assert(i != idx);
                assert(post.tct.tasks@[i] == t1[i]);
            }
        },
        None => {
            assert forall|i: int|
                0 <= i < heap && pre.tct.state_of(i)
                    == TaskStates::TERMINATED implies #[trigger] post.tct.state_of(i)
                == TaskStates::TERMINATED by {
                assert(post.tct.tasks@[i] == t1[i]);
            }
        },
    }
}

/// Every index the round-robin scan returns designates an occupied slot
/// holding a runnable task.
proof fn lemma_scan_selects_runnable(tasks: Seq<Option<TCB>>, heap_size: int, current: int, k: int)
    requires
        0 <= current < heap_size,
        crate::tct::scan_from(tasks, heap_size, current, k) is Some,
    ensures
        ({
            let idx = crate::tct::scan_from(tasks, heap_size, current, k)->Some_0;
            &&& 0 <= idx < heap_size
            &&& tasks[idx] is Some
            &&& crate::tct::runnable(tasks[idx]->Some_0.state)
        }),
    decreases heap_size + 1 - k,
{
    if 1 <= k <= heap_size {
        let idx = crate::tct::wrap_at(heap_size, current, k);
        if tasks[idx] is Some && crate::tct::runnable(tasks[idx]->Some_0.state) {
        } else {
            lemma_scan_selects_runnable(tasks, heap_size, current, k + 1);
        }
    }
}

/// Exactly one task is running: in every well-formed state of a started,
/// unhalted system, the task at the current index holds the CPU and no
/// other occupied slot is in the running state.
pub proof fn lemma_exactly_one_running(k: Kernel)
    requires
        k.wf(),
        k.started,
        !k.halted,
    ensures
        k.tct.exactly_one_running(),
        k.tct.state_of(k.tct.current_task as int) == TaskStates::RUNNING,
        forall|i: int|
            0 <= i < k.tct.heap_size && i != k.tct.current_task ==> #[trigger] k.tct.state_of(i)
                != TaskStates::RUNNING,
{
}

/// Every suspended task's saved stack pointer stays within its declared
/// private stack, with the whole sixteen-word frame inside the bounds: in
/// every well-formed state, each occupied slot whose task is not running
/// keeps a full frame between its saved stack pointer and the top of its
/// own stack.
pub proof fn lemma_saved_frames_in_bounds(k: Kernel)
    requires
        k.wf(),
    ensures
        forall|i: int|
            0 <= i < k.tct.heap_size && k.tct.state_of(i) != TaskStates::RUNNING ==> (
            #[trigger] k.tct.task(i)).sp + frame::FRAME_WORDS <= k.stacks@[i]@.len(),
{
}

/// The scheduler's counters stay in range: in every well-formed state of a
/// started, unhalted system the current index lies below the number of
/// occupied slots, which never exceeds the table's capacity.
pub proof fn lemma_counters_in_range(k: Kernel)
    requires
        k.wf(),
        k.started,
        !k.halted,
    ensures
        k.tct.current_task < k.tct.heap_size,
        k.tct.heap_size <= k.tct.capacity(),
{
}

/// The termination bookkeeping balances: in every well-formed state the
/// number of transitions ever made into the terminated state equals the
/// number of termination traps ever issued.
pub proof fn lemma_termination_balance(k: Kernel)
    requires
        k.wf(),
    ensures
        k.terminated_transitions == k.terminate_syscalls,
{
}

/// Sleep monotonicity: in every well-formed state whose sleep timer has
/// reached its compare value, at least that many timer ticks have elapsed
/// since the timer was armed — a sleeping task is never woken before the
/// span it asked for, as measured by the sleep-timer tick.
pub proof fn lemma_sleep_wakes_no_earlier(k: Kernel)
    requires
        k.wf(),
        k.timer.enabled,
        k.timer.fired(),
    ensures
        k.now - k.sleep_armed_at >= k.timer.compare,
{
}

/// Fatal-fault entry: a runtime invariant was broken — a missing runnable
/// task, a torn frame — and the system halts for good: no further
/// scheduling, no further output.
#[allow(non_snake_case)]
pub fn HardFault(kernel: &mut Kernel)
    ensures
        *final(kernel) == (Kernel { halted: true, ..*old(kernel) }),
{
    kernel.halted = true;
}

/// The interrupt control and state register value that pends the
/// context-switch exception: the tick handler writes this back to request
/// the switch at the lowest priority.
#[allow(non_snake_case)]
pub fn trigger_PendSV(icsr: u32) -> (updated: u32)
    ensures
        updated == icsr | (1u32 << ICSR_PENDSV_BIT),
{
    icsr | (1u32 << ICSR_PENDSV_BIT)
}

} // verus!
