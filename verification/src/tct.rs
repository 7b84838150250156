//! Task Control Table: the fixed-capacity array of task descriptors and the
//! round-robin selection over it.
//!
//! One descriptor — a TCB — per task: the saved stack pointer (meaningful
//! only while the task is not executing), the scheduling state, and the
//! stable task identity, equal to the insertion index. Entries are appended
//! during boot and never removed; slots beyond `heap_size` stay empty.
//! Selection is strict round-robin over the occupied prefix, wrapping at
//! `heap_size`, skipping blocked and terminated entries.

use vstd::prelude::*;

verus! {

/// Scheduling states of a task.
#[derive(Clone, Copy, PartialEq, Eq, Structural, Debug)]
pub enum TaskStates {
    READY,
    RUNNING,
    BLOCKED,
    TERMINATED,
}

/// A state in which the scheduler may hand the CPU to a task: ready, or —
/// as the fallback when the scan comes back around — already running.
pub open spec fn runnable(s: TaskStates) -> bool {
    s == TaskStates::READY || s == TaskStates::RUNNING
}

/// The slot reached `k` steps after `current` in cyclic order over the
/// occupied prefix, wrapping at `heap_size`.
pub open spec fn wrap_at(heap_size: int, current: int, k: int) -> int
    recommends
        0 < heap_size,
        current < heap_size,
        0 <= k <= heap_size,
{
    if current + k < heap_size {
        current + k
    } else {
        current + k - heap_size
    }
}

/// The round-robin scan from offset `k`: the first slot at cyclic distance
/// `k` or more from `current` — up to one full turn — holding a task the
/// scheduler may run.
pub open spec fn scan_from(tasks: Seq<Option<TCB>>, heap_size: int, current: int, k: int) -> Option<
    int,
>
    decreases heap_size + 1 - k,
{
    if 1 <= k <= heap_size {
        let idx = wrap_at(heap_size, current, k);
        if tasks[idx] is Some && runnable(tasks[idx]->Some_0.state) {
            Some(idx)
        } else {
            scan_from(tasks, heap_size, current, k + 1)
        }
    } else {
        None
    }
}

/// The slot that round-robin selection picks next after `current`.
pub open spec fn select_next(tasks: Seq<Option<TCB>>, heap_size: int, current: int) -> Option<int> {
    scan_from(tasks, heap_size, current, 1)
}

/// Task Control Block: descriptor of one task.
#[derive(Clone, Copy, PartialEq, Eq, Structural, Debug)]
pub struct TCB {
    /// Saved stack pointer, as a word index into the task's private stack.
    pub sp: usize,
    /// Scheduling state.
    pub state: TaskStates,
    /// Stable identity, equal to the insertion index.
    pub pid: usize,
}

/// The Task Control Table: a fixed-capacity array of optional descriptors,
/// occupied from index zero up to `heap_size`, with the index of the task
/// now holding the CPU and the single slot for a task awaiting its timer
/// wakeup.
pub struct TaskControlTable {
    /// The slots; the vector's length is the table's capacity and never
    /// changes after construction.
    pub tasks: Vec<Option<TCB>>,
    /// Number of occupied slots, counted from index zero.
    pub heap_size: usize,
    /// Index of the task now holding the CPU.
    pub current_task: usize,
    /// Index of the one task awaiting a sleep-timer wakeup. The table holds
    /// at most one sleeping task; a second sleep overwrites this slot.
    pub currently_sleeping: usize,
}

impl TaskControlTable {
    /// The table's capacity: the fixed number of slots.
    pub open spec fn capacity(self) -> int {
        self.tasks@.len() as int
    }

    /// The descriptor at slot `i`, which must be occupied.
    pub open spec fn task(self, i: int) -> TCB
        recommends
            0 <= i < self.tasks@.len(),
            self.tasks@[i] is Some,
    {
        self.tasks@[i]->Some_0
    }

    /// The scheduling state at occupied slot `i`.
    pub open spec fn state_of(self, i: int) -> TaskStates {
        self.task(i).state
    }

    /// Shape of the table: the occupied slots are exactly the prefix below
    /// `heap_size`, and each descriptor's identity equals its index.
    pub open spec fn slots_wf(self) -> bool {
        &&& self.heap_size <= self.tasks@.len()
        &&& forall|i: int|
            0 <= i < self.heap_size ==> (#[trigger] self.tasks@[i]) is Some && self.tasks@[i]->Some_0.pid
                == i
        &&& forall|i: int| self.heap_size <= i < self.tasks@.len() ==> (#[trigger] self.tasks@[i]) is None
    }

    /// Exactly one task is running: the one at `current_task`, which lies
    /// inside the occupied prefix.
    pub open spec fn exactly_one_running(self) -> bool {
        &&& self.current_task < self.heap_size
        &&& self.state_of(self.current_task as int) == TaskStates::RUNNING
        &&& forall|i: int|
            0 <= i < self.heap_size && i != self.current_task ==> (#[trigger] self.state_of(i))
                != TaskStates::RUNNING
    }

    /// The slot reached `k` steps after `current_task` in cyclic order,
    /// wrapping at `heap_size`.
    pub open spec fn wrap(self, k: int) -> int
        recommends
            0 < self.heap_size,
            self.current_task < self.heap_size,
            0 <= k <= self.heap_size,
    {
        wrap_at(self.heap_size as int, self.current_task as int, k)
    }

    /// The round-robin scan from offset `k`; see [`scan_from`].
    pub open spec fn spec_scan(self, k: int) -> Option<int> {
        scan_from(self.tasks@, self.heap_size as int, self.current_task as int, k)
    }

    /// The slot that round-robin selection picks next: the first runnable
    /// slot after `current_task` in cyclic order, or nothing when every
    /// task is blocked or terminated.
    pub open spec fn spec_select_next(self) -> Option<int> {
        select_next(self.tasks@, self.heap_size as int, self.current_task as int)
    }

    /// A fresh, zeroed table of the given capacity: every slot empty, every
    /// counter zero.
    pub fn new(capacity: usize) -> (t: TaskControlTable)
        ensures
            t.capacity() == capacity,
            t.heap_size == 0,
            t.current_task == 0,
            t.currently_sleeping == 0,
            t.slots_wf(),
    {
        let mut tasks: Vec<Option<TCB>> = Vec::new();
        let mut i: usize = 0;
        while i < capacity
            invariant
                i <= capacity,
                tasks@.len() == i,
                forall|j: int| 0 <= j < i ==> (#[trigger] tasks@[j]) is None,
            decreases capacity - i,
        {
            tasks.push(None);
            i = i + 1;
        }
        TaskControlTable { tasks, heap_size: 0, current_task: 0, currently_sleeping: 0 }
    }

    /// The descriptor of the current task, when its slot is occupied.
    pub fn get_current_tcb(&self) -> (t: Option<TCB>)
        ensures
            t == if self.current_task < self.tasks@.len() {
                self.tasks@[self.current_task as int]
            } else {
                None::<TCB>
            },
    {
        if self.current_task < self.tasks.len() {
            self.tasks[self.current_task]
        } else {
            None
        }
    }

    /// Whether the current task's slot is occupied.
    pub open spec fn current_occupied(self) -> bool {
        self.current_task < self.tasks@.len() && self.tasks@[self.current_task as int] is Some
    }

    /// Appends a ready task with the given saved stack pointer at index
    /// `heap_size` and returns that index as its identity; a full table
    /// rejects the insertion and stays unchanged — running out of capacity
    /// is a configuration error caught at boot.
    pub fn insert(&mut self, stack_pointer: usize) -> (pid: Option<usize>)
        requires
            old(self).slots_wf(),
        ensures
            final(self).slots_wf(),
            final(self).current_task == old(self).current_task,
            final(self).currently_sleeping == old(self).currently_sleeping,
            final(self).tasks@.len() == old(self).tasks@.len(),
            if old(self).heap_size < old(self).tasks@.len() {
                &&& pid == Some(old(self).heap_size)
                &&& final(self).heap_size == old(self).heap_size + 1
                &&& final(self).tasks@ == old(self).tasks@.update(
                    old(self).heap_size as int,
                    Some(
                        TCB {
                            sp: stack_pointer,
                            state: TaskStates::READY,
                            pid: old(self).heap_size,
                        },
                    ),
                )
            } else {
                &&& pid is None
                &&& *final(self) == *old(self)
            },
    {
        if self.heap_size < self.tasks.len() {
            let pid: usize = self.heap_size;
            self.tasks[pid] = Some(TCB { sp: stack_pointer, state: TaskStates::READY, pid });
            self.heap_size = pid + 1;
            Some(pid)
        } else {
            None
        }
    }

    /// Writes `new_state` into the current task's descriptor; with an
    /// unoccupied current slot the table is left unchanged.
    pub fn set_task_state(&mut self, new_state: TaskStates)
        ensures
            final(self).heap_size == old(self).heap_size,
            final(self).current_task == old(self).current_task,
            final(self).currently_sleeping == old(self).currently_sleeping,
            if old(self).current_occupied() {
                final(self).tasks@ == old(self).tasks@.update(
                    old(self).current_task as int,
                    Some(
                        TCB {
                            state: new_state,
                            ..old(self).task(old(self).current_task as int)
                        },
                    ),
                )
            } else {
                final(self).tasks@ == old(self).tasks@
            },
    {
        match self.get_current_tcb() {
            Some(t) => {
                self.tasks[self.current_task] = Some(TCB { state: new_state, ..t });
            },
            None => {},
        }
    }

    /// Writes the captured process-stack pointer into the current task's
    /// descriptor; with an unoccupied current slot the table is left
    /// unchanged.
    pub fn update_sp(&mut self, new_sp: usize)
        ensures
            final(self).heap_size == old(self).heap_size,
            final(self).current_task == old(self).current_task,
            final(self).currently_sleeping == old(self).currently_sleeping,
            if old(self).current_occupied() {
                final(self).tasks@ == old(self).tasks@.update(
                    old(self).current_task as int,
                    Some(TCB { sp: new_sp, ..old(self).task(old(self).current_task as int) }),
                )
            } else {
                final(self).tasks@ == old(self).tasks@
            },
    {
        match self.get_current_tcb() {
            Some(t) => {
                self.tasks[self.current_task] = Some(TCB { sp: new_sp, ..t });
            },
            None => {},
        }
    }

    /// Marks the current task terminated: the sink state, out of which no
    /// transition leads.
    pub fn terminate_task(&mut self)
        ensures
            final(self).heap_size == old(self).heap_size,
            final(self).current_task == old(self).current_task,
            final(self).currently_sleeping == old(self).currently_sleeping,
            if old(self).current_occupied() {
                final(self).tasks@ == old(self).tasks@.update(
                    old(self).current_task as int,
                    Some(
                        TCB {
                            state: TaskStates::TERMINATED,
                            ..old(self).task(old(self).current_task as int)
                        },
                    ),
                )
            } else {
                final(self).tasks@ == old(self).tasks@
            },
    {
        self.set_task_state(TaskStates::TERMINATED);
    }

    /// Marks the current task blocked and records its index as the one
    /// sleeping task, to be woken by the sleep timer.
    pub fn mark_self_as_sleeping(&mut self)
        ensures
            final(self).heap_size == old(self).heap_size,
            final(self).current_task == old(self).current_task,
            final(self).currently_sleeping == old(self).current_task,
            if old(self).current_occupied() {
                final(self).tasks@ == old(self).tasks@.update(
                    old(self).current_task as int,
                    Some(
                        TCB {
                            state: TaskStates::BLOCKED,
                            ..old(self).task(old(self).current_task as int)
                        },
                    ),
                )
            } else {
                final(self).tasks@ == old(self).tasks@
            },
    {
        self.set_task_state(TaskStates::BLOCKED);
        self.currently_sleeping = self.current_task;
    }

    /// The scan step of [`Self::next_process`]: the index that round-robin
    /// selection picks, with the table untouched.
    fn find_next(&self) -> (r: Option<usize>)
        requires
            self.slots_wf(),
            0 < self.heap_size,
            self.heap_size < usize::MAX,
            self.current_task < self.heap_size,
        ensures
            match r {
                Some(idx) => {
                    &&& self.spec_select_next() == Some(idx as int)
                    &&& idx < self.heap_size
                    &&& runnable(self.state_of(idx as int))
                },
                None => self.spec_select_next() is None,
            },
    {
        let hs: usize = self.heap_size;
        let mut k: usize = 1;
        while k <= hs
            invariant
                self.slots_wf(),
                0 < hs,
                hs < usize::MAX,
                hs == self.heap_size,
                self.current_task < hs,
                1 <= k <= hs + 1,
                self.spec_select_next() == self.spec_scan(k as int),
            decreases hs + 1 - k,
        {
            let idx: usize = if self.current_task >= hs - k {
                self.current_task - (hs - k)
            } else {
                self.current_task + k
            };
            assert(idx == self.wrap(k as int));
            match self.tasks[idx] {
                Some(t) => {
                    match t.state {
                        TaskStates::READY | TaskStates::RUNNING => {
                            return Some(idx);
                        },
                        _ => {},
                    }
                },
                None => {},
            }
            k = k + 1;
        }
        None
    }

    /// Round-robin selection: advances `current_task` to the first runnable
    /// slot in cyclic order, transitions a ready selection to running, and
    /// returns its saved stack pointer. When every task is blocked or
    /// terminated there is nothing to run: the table is left unchanged and
    /// the caller must treat the condition as fatal.
    pub fn next_process(&mut self) -> (sp: Option<usize>)
        requires
            old(self).slots_wf(),
            0 < old(self).heap_size,
            old(self).heap_size < usize::MAX,
            old(self).current_task < old(self).heap_size,
        ensures
            final(self).slots_wf(),
            final(self).heap_size == old(self).heap_size,
            final(self).currently_sleeping == old(self).currently_sleeping,
            final(self).tasks@.len() == old(self).tasks@.len(),
            match old(self).spec_select_next() {
                Some(idx) => {
                    &&& 0 <= idx < old(self).heap_size
                    &&& sp == Some(old(self).task(idx).sp)
                    &&& runnable(old(self).state_of(idx))
                    &&& final(self).current_task == idx
                    &&& final(self).tasks@ == old(self).tasks@.update(
                        idx,
                        Some(TCB { state: TaskStates::RUNNING, ..old(self).task(idx) }),
                    )
                },
                None => {
                    &&& sp is None
                    &&& *final(self) == *old(self)
                },
            },
    {
        match self.find_next() {
            Some(idx) => {
                match self.tasks[idx] {
                    Some(t) => {
                        self.tasks[idx] = Some(TCB { state: TaskStates::RUNNING, ..t });
                        self.current_task = idx;
                        Some(t.sp)
                    },
                    None => {
                        // excluded: the selected slot is occupied
                        proof {
                            assert(false);
                        }
                        None
                    },
                }
            },
            None => None,
        }
    }

    /// Timer wakeup: transitions the one sleeping task from blocked back to
    /// running, makes it current, and returns its saved stack pointer.
    pub fn get_sleeping(&mut self) -> (sp: usize)
        requires
            old(self).slots_wf(),
            old(self).currently_sleeping < old(self).heap_size,
            old(self).state_of(old(self).currently_sleeping as int) == TaskStates::BLOCKED,
        ensures
            final(self).slots_wf(),
            final(self).heap_size == old(self).heap_size,
            final(self).currently_sleeping == old(self).currently_sleeping,
            final(self).current_task == old(self).currently_sleeping,
            final(self).tasks@.len() == old(self).tasks@.len(),
            sp == old(self).task(old(self).currently_sleeping as int).sp,
            final(self).tasks@ == old(self).tasks@.update(
                old(self).currently_sleeping as int,
                Some(
                    TCB {
                        state: TaskStates::RUNNING,
                        ..old(self).task(old(self).currently_sleeping as int)
                    },
                ),
            ),
    {
        let idx: usize = self.currently_sleeping;
        match self.tasks[idx] {
            Some(t) => {
                self.tasks[idx] = Some(TCB { state: TaskStates::RUNNING, ..t });
                self.current_task = idx;
                t.sp
            },
            None => {
                // excluded: the sleeping slot is occupied
                proof {
                    assert(false);
                }
                0
            },
        }
    }
}

/// With every task but one blocked or terminated, round-robin selection
/// still finds that one runnable task, wherever it stands relative to the
/// current index.
pub proof fn lemma_single_runnable_selected(t: TaskControlTable, r: int)
    requires
        t.slots_wf(),
        0 < t.heap_size,
        t.current_task < t.heap_size,
        0 <= r < t.heap_size,
        runnable(t.state_of(r)),
        forall|i: int| 0 <= i < t.heap_size && i != r ==> !runnable(#[trigger] t.state_of(i)),
    ensures
        t.spec_select_next() == Some(r),
{
    let kr: int = if r > t.current_task {
        r - t.current_task
    } else {
        r + t.heap_size - t.current_task
    };
    assert(1 <= kr <= t.heap_size);
    assert(t.wrap(kr) == r);
    lemma_scan_reaches(t, 1, kr, r);
}

/// Helper for [`lemma_single_runnable_selected`]: the scan from offset `k`
/// reaches the single runnable slot `r` standing at offset `kr`.
proof fn lemma_scan_reaches(t: TaskControlTable, k: int, kr: int, r: int)
    requires
        t.slots_wf(),
        0 < t.heap_size,
        t.current_task < t.heap_size,
        0 <= r < t.heap_size,
        runnable(t.state_of(r)),
        forall|i: int| 0 <= i < t.heap_size && i != r ==> !runnable(#[trigger] t.state_of(i)),
        1 <= k <= kr <= t.heap_size,
        t.wrap(kr) == r,
    ensures
        t.spec_scan(k) == Some(r),
    decreases t.heap_size - k,
{
    if t.wrap(k) == r {
        assert(t.spec_scan(k) == Some(r));
    } else {
        assert(0 <= t.wrap(k) < t.heap_size);
        assert(!runnable(t.state_of(t.wrap(k))));
        assert(k < kr);
        lemma_scan_reaches(t, k + 1, kr, r);
    }
}

} // verus!
