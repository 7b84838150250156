//! The cooperative thread runner: a small fixed slot table of process
//! frames driven by explicit invocation rather than by the tick.
//!
//! Beside the preemptive engine, the project carries this simpler runner:
//! up to four threads, each a full frame with a private stack area, walked
//! in slot order. Scheduling decides which threads to invoke and how their
//! states step; the invocation itself — dropping into a thread by its
//! frame — is a machine affair that stays outside the crate, so a
//! scheduling pass returns the identities to invoke, in order, and the
//! caller performs each invocation.

use vstd::prelude::*;

verus! {

/// Number of thread slots the runner holds.
pub const THREAD_SLOTS: usize = 4;

/// Words of private stack area in one thread's frame.
pub const THREAD_STACK_WORDS: usize = 64;

/// Words of private stack area in the kernel thread's frame.
pub const KERNEL_STACK_WORDS: usize = 512;

/// Lifecycle states of a cooperative thread.
#[derive(Clone, Copy, PartialEq, Eq, Structural, Debug)]
#[allow(non_camel_case_types)]
pub enum ProcessState {
    Created,
    Waiting,
    Running,
    _Blocked,
    _Terminated,
}

/// One cooperative thread: its private stack area, the full register
/// image an invocation starts from, its slot identity and its state. The
/// register-area word normally holding the frame's own address is left as
/// its placeholder here; the runtime writes the address in before use.
pub struct ProcessFrame {
    pub p_stack: Vec<u32>,
    pub auto_r0: u32,
    pub auto_r1: u32,
    pub auto_r2: u32,
    pub auto_r3: u32,
    pub auto_r12: u32,
    pub auto_lr: u32,
    pub auto_pc: u32,
    pub auto_x_psr: u32,
    pub r4_control: u32,
    pub r5: u32,
    pub r6: u32,
    pub r7: u32,
    pub r8: u32,
    pub r9_tr: u32,
    pub r10: u32,
    pub r11: u32,
    pub lr: u32,
    pub id: usize,
    pub state: ProcessState,
}

/// The kernel thread's frame: the same register image over a larger stack
/// area, plus a scratch buffer.
pub struct KernelFrame {
    pub p_stack: Vec<u32>,
    pub auto_r0: u32,
    pub auto_r1: u32,
    pub auto_r2: u32,
    pub auto_r3: u32,
    pub auto_r12: u32,
    pub auto_lr: u32,
    pub auto_pc: u32,
    pub auto_x_psr: u32,
    pub r4_control: u32,
    pub r5: u32,
    pub r6: u32,
    pub r7: u32,
    pub r8: u32,
    pub r9_tr: u32,
    pub r10: u32,
    pub r11: u32,
    pub lr: u32,
    pub id: usize,
    pub state: ProcessState,
    pub p_buffer: Vec<u32>,
}

/// A vector of `n` zeroed words.
fn zero_words(n: usize) -> (v: Vec<u32>)
    ensures
        v@.len() == n,
        forall|i: int| 0 <= i < n ==> v@[i] == 0,
{
    let mut v: Vec<u32> = Vec::new();
    let mut i: usize = 0;
    while i < n
        invariant
            i <= n,
            v@.len() == i,
            forall|j: int| 0 <= j < i ==> v@[j] == 0,
        decreases n - i,
    {
        v.push(0);
        i = i + 1;
    }
    v
}

/// The first empty slot, scanning upward from `k`.
pub open spec fn first_free_from(threads: Seq<Option<ProcessFrame>>, k: int) -> Option<int>
    decreases threads.len() - k,
{
    if 0 <= k < threads.len() {
        if threads[k] is None {
            Some(k)
        } else {
            first_free_from(threads, k + 1)
        }
    } else {
        None
    }
}

/// The slot table of the cooperative runner.
pub struct Scheduler {
    pub threads: Vec<Option<ProcessFrame>>,
}

impl Scheduler {
    /// An empty runner: four slots, all free.
    pub fn default() -> (s: Scheduler)
        ensures
            s.threads@.len() == THREAD_SLOTS,
            forall|i: int| 0 <= i < THREAD_SLOTS ==> (#[trigger] s.threads@[i]) is None,
    {
        let mut threads: Vec<Option<ProcessFrame>> = Vec::new();
        let mut i: usize = 0;
        while i < THREAD_SLOTS
            invariant
                i <= THREAD_SLOTS,
                threads@.len() == i,
                forall|j: int| 0 <= j < i ==> (#[trigger] threads@[j]) is None,
            decreases THREAD_SLOTS - i,
        {
            threads.push(None);
            i = i + 1;
        }
        Scheduler { threads }
    }

    /// Places a fresh thread for the routine at address `user_task` into
    /// the first free slot and reports success; with every slot taken the
    /// runner is unchanged and the request fails.
    pub fn add_user_task(&mut self, user_task: u32) -> (r: Result<(), ()>)
        ensures
            final(self).threads@.len() == old(self).threads@.len(),
            match first_free_from(old(self).threads@, 0) {
                Some(n) => {
                    &&& r is Ok
                    &&& final(self).threads@[n] is Some
                    &&& frame_matches_new_thread(
                        final(self).threads@[n]->Some_0,
                        user_task,
                        n as usize,
                    )
                    &&& forall|i: int|
                        0 <= i < old(self).threads@.len() && i != n ==> final(self).threads@[i]
                            == old(self).threads@[i]
                },
                None => {
                    &&& r is Err
                    &&& final(self).threads@ == old(self).threads@
                },
            },
    {
        let len: usize = self.threads.len();
        let mut n: usize = 0;
        while n < len
            invariant
                n <= len,
                len == self.threads@.len(),
                self.threads@ == old(self).threads@,
                first_free_from(self.threads@, 0) == first_free_from(self.threads@, n as int),
            decreases len - n,
        {
            let free = match &self.threads[n] {
                Option::None => true,
                Option::Some(_) => false,
            };
            if free {
                let p = ProcessFrame {
                    p_stack: zero_words(THREAD_STACK_WORDS),
                    auto_r0: 0xaa,
                    auto_r1: 0xbb,
                    auto_r2: 0xcc,
                    auto_r3: 0xdd,
                    auto_r12: 0xabcdef,
                    auto_lr: 0x0,
                    auto_pc: user_task,
                    auto_x_psr: 0x1000000,
                    r4_control: 0x3,
                    r5: user_task,
                    r6: 0xFF6,
                    r7: 0xFF7,
                    r8: 0xFF8,
                    r9_tr: 0xFF9,
                    r10: 0xFFA,
                    r11: 0xFFB,
                    lr: user_task,
                    id: n,
                    state: ProcessState::Created,
                };
                self.threads[n] = Some(p);
                return Ok(());
            }
            n = n + 1;
        }
        Err(())
    }

    /// One cooperative pass over the slots in order: each created thread
    /// is to be invoked and settles into waiting; each waiting thread is
    /// to be invoked and is marked running; a running thread is left
    /// alone. The identities to invoke come back in slot order; the
    /// caller drops into each thread in turn. Blocked and terminated
    /// threads do not occur in this runner.
    pub fn schedule_user_threads(&mut self) -> (invoked: Vec<usize>)
        requires
            forall|i: int|
                0 <= i < old(self).threads@.len() && (#[trigger] old(self).threads@[i]) is Some
                    ==> old(self).threads@[i]->Some_0.state != ProcessState::_Blocked && old(
                    self,
                ).threads@[i]->Some_0.state != ProcessState::_Terminated,
        ensures
            final(self).threads@.len() == old(self).threads@.len(),
            forall|i: int|
                0 <= i < old(self).threads@.len() ==> scheduled_step(
                    old(self).threads@[i],
                    #[trigger] final(self).threads@[i],
                ),
            invoked@ == invocation_order(old(self).threads@),
    {
        let len: usize = self.threads.len();
        let mut invoked: Vec<usize> = Vec::new();
        let mut n: usize = 0;
        while n < len
            invariant
                n <= len,
                len == self.threads@.len(),
                len == old(self).threads@.len(),
                forall|i: int|
                    n <= i < len && (#[trigger] self.threads@[i]) is Some ==> self.threads@[i]
                        ->Some_0.state != ProcessState::_Blocked && self.threads@[i]->Some_0.state
                        != ProcessState::_Terminated,
                forall|i: int|
                    0 <= i < n ==> scheduled_step(
                        old(self).threads@[i],
                        #[trigger] self.threads@[i],
                    ),
                forall|i: int| n <= i < len ==> self.threads@[i] == old(self).threads@[i],
                invoked@ == invocation_order_upto(old(self).threads@, n as int),
            decreases len - n,
        {
            proof {
                assert(self.threads@[n as int] == old(self).threads@[n as int]);
            }
            let step: u8 = match &self.threads[n] {
                Option::Some(t) => {
                    match t.state {
                        ProcessState::Created => 1,
                        ProcessState::Waiting => 2,
                        _ => 0,
                    }
                },
                Option::None => 0,
            };
            proof {
                assert(step == 1 || step == 2 ==> invokable(old(self).threads@[n as int]));
                assert(step == 0 ==> !invokable(old(self).threads@[n as int]));
            }
            if step == 1 {
                let t = self.threads[n].take();
                match t {
                    Option::Some(mut f) => {
                        Scheduler::handle_created(&mut f);
                        self.threads[n] = Some(f);
                    },
                    Option::None => {},
                }
                invoked.push(n);
            } else if step == 2 {
                let t = self.threads[n].take();
                match t {
                    Option::Some(mut f) => {
                        Scheduler::handle_waiting(&mut f);
                        self.threads[n] = Some(f);
                    },
                    Option::None => {},
                }
                invoked.push(n);
            }
            proof {
                assert(invoked@ == invocation_order_upto(old(self).threads@, n as int + 1));
            }
            n = n + 1;
        }
        invoked
    }

    /// A created thread is invoked for the first time: it runs for the
    /// call and settles into waiting.
    fn handle_created(t: &mut ProcessFrame)
        ensures
            *final(t) == (ProcessFrame { state: ProcessState::Waiting, ..*old(t) }),
    {
        t.state = ProcessState::Running;
        t.state = ProcessState::Waiting;
    }

    /// A waiting thread is invoked again and is marked running.
    fn handle_waiting(t: &mut ProcessFrame)
        ensures
            *final(t) == (ProcessFrame { state: ProcessState::Running, ..*old(t) }),
    {
        t.state = ProcessState::Running;
    }

    /// A running thread needs nothing.
    fn handle_running(_t: &mut ProcessFrame)
        ensures
            *final(_t) == *old(_t),
    {
    }
}

/// Whether a stored thread frame carries exactly the start image of a
/// fresh thread for the routine at `user_task` in slot `n`, with a zeroed
/// stack area.
pub open spec fn frame_matches_new_thread(f: ProcessFrame, user_task: u32, n: usize) -> bool {
    &&& f.p_stack@.len() == THREAD_STACK_WORDS
    &&& (forall|i: int| 0 <= i < THREAD_STACK_WORDS ==> f.p_stack@[i] == 0)
    &&& f.auto_r0 == 0xaa
    &&& f.auto_r1 == 0xbb
    &&& f.auto_r2 == 0xcc
    &&& f.auto_r3 == 0xdd
    &&& f.auto_r12 == 0xabcdef
    &&& f.auto_lr == 0x0
    &&& f.auto_pc == user_task
    &&& f.auto_x_psr == 0x1000000
    &&& f.r4_control == 0x3
    &&& f.r5 == user_task
    &&& f.r6 == 0xFF6
    &&& f.r7 == 0xFF7
    &&& f.r8 == 0xFF8
    &&& f.r9_tr == 0xFF9
    &&& f.r10 == 0xFFA
    &&& f.r11 == 0xFFB
    &&& f.lr == user_task
    &&& f.id == n
    &&& f.state == ProcessState::Created
}

/// How one scheduling pass steps a slot: created settles into waiting,
/// waiting is marked running, anything else — including an empty slot —
/// is untouched.
pub open spec fn scheduled_step(before: Option<ProcessFrame>, after: Option<ProcessFrame>) -> bool {
    match before {
        Some(t) => {
            match t.state {
                ProcessState::Created => after == Some(
                    ProcessFrame { state: ProcessState::Waiting, ..t },
                ),
                ProcessState::Waiting => after == Some(
                    ProcessFrame { state: ProcessState::Running, ..t },
                ),
                _ => after == before,
            }
        },
        None => after == before,
    }
}

/// Whether a scheduling pass invokes the thread in this slot: it is
/// occupied and its thread stands created or waiting.
pub open spec fn invokable(slot: Option<ProcessFrame>) -> bool {
    slot is Some && (slot->Some_0.state == ProcessState::Created || slot->Some_0.state
        == ProcessState::Waiting)
}

/// The identities a scheduling pass invokes among the slots below `k`, in
/// slot order.
pub open spec fn invocation_order_upto(threads: Seq<Option<ProcessFrame>>, k: int) -> Seq<usize>
    decreases k,
{
    if 0 < k <= threads.len() {
        let rest = invocation_order_upto(threads, k - 1);
        if invokable(threads[k - 1]) {
            rest.push((k - 1) as usize)
        } else {
            rest
        }
    } else {
        Seq::empty()
    }
}

/// The identities a scheduling pass invokes, in slot order.
pub open spec fn invocation_order(threads: Seq<Option<ProcessFrame>>) -> Seq<usize> {
    invocation_order_upto(threads, threads.len() as int)
}

/// Builds the kernel thread's start frame for the routine at `init_fn`:
/// the same register image as a user thread over the larger stack area,
/// the control word selecting privileged thread mode, state running. The
/// caller drops into it to start the system.
pub fn init_scheduler(init_fn: u32) -> (k: KernelFrame)
    ensures
        k.p_stack@.len() == KERNEL_STACK_WORDS,
        k.p_buffer@.len() == KERNEL_STACK_WORDS,
        forall|i: int| 0 <= i < KERNEL_STACK_WORDS ==> k.p_stack@[i] == 0 && k.p_buffer@[i] == 0,
        k.auto_r0 == 0xaaa,
        k.auto_r1 == 0xbbb,
        k.auto_r2 == 0xccc,
        k.auto_r3 == 0xddd,
        k.auto_r12 == 0xabcdef,
        k.auto_lr == 0x0,
        k.auto_pc == init_fn,
        k.lr == init_fn,
        k.auto_x_psr == 0x1000000,
        k.r4_control == 0x2,
        k.r5 == 0xFF5,
        k.r6 == 0xFF6,
        k.r7 == 0xFF7,
        k.r8 == 0xFF8,
        k.r9_tr == 0xFF9,
        k.r10 == 0xFFA,
        k.r11 == 0xFFB,
        k.id == 1,
        k.state == ProcessState::Running,
{
    KernelFrame {
        p_stack: zero_words(KERNEL_STACK_WORDS),
        auto_r0: 0xaaa,
        auto_r1: 0xbbb,
        auto_r2: 0xccc,
        auto_r3: 0xddd,
        auto_r12: 0xabcdef,
        auto_lr: 0x0,
        auto_pc: init_fn,
        auto_x_psr: 0x1000000,
        r4_control: 0x2,
        r5: 0xFF5,
        r6: 0xFF6,
        r7: 0xFF7,
        r8: 0xFF8,
        r9_tr: 0xFF9,
        r10: 0xFFA,
        r11: 0xFFB,
        lr: init_fn,
        id: 1,
        state: ProcessState::Running,
        p_buffer: zero_words(KERNEL_STACK_WORDS),
    }
}

} // verus!
