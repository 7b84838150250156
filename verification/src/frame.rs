//! Register-frame model: the sixteen words of CPU state that a suspended
//! task keeps on its private stack.
//!
//! The frame has two zones. The upper eight words — `r0, r1, r2, r3, r12,
//! lr, pc, xpsr` — are the hardware-saved zone, written by the CPU itself on
//! exception entry. The lower eight words — `r4` through `r11` — are the
//! software-saved zone, pushed by the context-switch primitive. The stack
//! grows downward, so the software zone sits at lower addresses and the
//! saved stack pointer designates its first word.
//!
//! A task's private stack is modelled as a vector of words; an address is an
//! index into it. The assembly that moves words between the CPU registers
//! and the stack is architecture-specific and stays outside the crate; the
//! functions here perform the same moves on the model, word for word.

use vstd::prelude::*;

verus! {

/// Number of words in a full saved frame.
pub const FRAME_WORDS: usize = 16;

/// Number of words in each of the two zones.
pub const ZONE_WORDS: usize = 8;

/// Initial program-status value for a fresh task: the Thumb bit is set, as
/// the architecture requires for every instruction fetch.
pub const XPSR_INIT: u32 = 0x2100_0000;

/// The Thumb bit within the program-status word.
pub const XPSR_THUMB_BIT: u32 = 0x0100_0000;

/// Exception-return value that resumes thread mode on the process stack
/// with a basic frame. An architecture constant, not a per-task choice.
pub const EXC_RETURN_THREAD_PSP: u32 = 0xFFFF_FFFD;

/// One task's visible register file, equally the layout of its saved frame.
#[derive(Clone, Copy, PartialEq, Eq, Structural, Debug)]
pub struct ProcessFrame {
    pub r0: u32,
    pub r1: u32,
    pub r2: u32,
    pub r3: u32,
    pub r12: u32,
    pub lr: u32,
    pub pc: u32,
    pub psr: u32,
    pub r4: u32,
    pub r5: u32,
    pub r6: u32,
    pub r7: u32,
    pub r8: u32,
    pub r9: u32,
    pub r10: u32,
    pub r11: u32,
}

impl ProcessFrame {
    /// The frame synthesized for a task that has never run: the program
    /// counter holds the task's entry address, the link register the
    /// address of the termination syscall wrapper — so that returning from
    /// the task function terminates it in order — the status word has the
    /// Thumb bit set, and every other register is zero.
    pub fn initial(entry: u32, terminate_wrapper: u32) -> (f: ProcessFrame)
        ensures
            f == spec_initial(entry, terminate_wrapper),
    {
        ProcessFrame {
            r0: 0,
            r1: 0,
            r2: 0,
            r3: 0,
            r12: 0,
            lr: terminate_wrapper,
            pc: entry,
            psr: XPSR_INIT,
            r4: 0,
            r5: 0,
            r6: 0,
            r7: 0,
            r8: 0,
            r9: 0,
            r10: 0,
            r11: 0,
        }
    }
}

/// The frame of a task that has never run; see [`ProcessFrame::initial`].
pub open spec fn spec_initial(entry: u32, terminate_wrapper: u32) -> ProcessFrame {
    ProcessFrame {
        r0: 0,
        r1: 0,
        r2: 0,
        r3: 0,
        r12: 0,
        lr: terminate_wrapper,
        pc: entry,
        psr: XPSR_INIT,
        r4: 0,
        r5: 0,
        r6: 0,
        r7: 0,
        r8: 0,
        r9: 0,
        r10: 0,
        r11: 0,
    }
}

/// The software-saved zone as it lies in memory, lowest address first.
pub open spec fn sw_zone_words(f: ProcessFrame) -> Seq<u32> {
    seq![f.r4, f.r5, f.r6, f.r7, f.r8, f.r9, f.r10, f.r11]
}

/// The hardware-saved zone as it lies in memory, lowest address first.
pub open spec fn hw_zone_words(f: ProcessFrame) -> Seq<u32> {
    seq![f.r0, f.r1, f.r2, f.r3, f.r12, f.lr, f.pc, f.psr]
}

/// The full sixteen-word frame as it lies in memory: software zone below,
/// hardware zone above.
pub open spec fn frame_words(f: ProcessFrame) -> Seq<u32> {
    sw_zone_words(f) + hw_zone_words(f)
}

/// `mem` with the words `ws` written at `at`; everything else unchanged.
pub open spec fn store_words(mem: Seq<u32>, at: int, ws: Seq<u32>) -> Seq<u32> {
    Seq::new(mem.len(), |i: int| if at <= i < at + ws.len() {
        ws[i - at]
    } else {
        mem[i]
    })
}

/// The frame read back from `mem` at stack-pointer `sp`: software zone at
/// `sp`, hardware zone at `sp + 8`.
pub open spec fn frame_at(mem: Seq<u32>, sp: int) -> ProcessFrame {
    ProcessFrame {
        r4: mem[sp + 0],
        r5: mem[sp + 1],
        r6: mem[sp + 2],
        r7: mem[sp + 3],
        r8: mem[sp + 4],
        r9: mem[sp + 5],
        r10: mem[sp + 6],
        r11: mem[sp + 7],
        r0: mem[sp + 8],
        r1: mem[sp + 9],
        r2: mem[sp + 10],
        r3: mem[sp + 11],
        r12: mem[sp + 12],
        lr: mem[sp + 13],
        pc: mem[sp + 14],
        psr: mem[sp + 15],
    }
}

/// What the CPU does on exception entry: push the hardware-saved zone of
/// the running register file onto the process stack. Returns the stack
/// pointer after the push.
pub fn push_hw_zone(stack: &mut Vec<u32>, sp: usize, regs: &ProcessFrame) -> (new_sp: usize)
    requires
        ZONE_WORDS <= sp <= old(stack).len(),
    ensures
        new_sp == sp - ZONE_WORDS,
        final(stack)@ == store_words(old(stack)@, sp - ZONE_WORDS, hw_zone_words(*regs)),
{
    let base: usize = sp - ZONE_WORDS;
    stack[base + 0] = regs.r0;
    stack[base + 1] = regs.r1;
    stack[base + 2] = regs.r2;
    stack[base + 3] = regs.r3;
    stack[base + 4] = regs.r12;
    stack[base + 5] = regs.lr;
    stack[base + 6] = regs.pc;
    stack[base + 7] = regs.psr;
    proof {
        assert(stack@ =~= store_words(old(stack)@, sp - ZONE_WORDS, hw_zone_words(*regs)));
    }
    base
}

/// What the context-switch primitive does to save: push the software-saved
/// zone `r4`–`r11` below the already-pushed hardware zone. Returns the
/// stack pointer after the push — the value recorded in the task's
/// descriptor.
pub fn push_sw_zone(stack: &mut Vec<u32>, sp: usize, regs: &ProcessFrame) -> (new_sp: usize)
    requires
        ZONE_WORDS <= sp <= old(stack).len(),
    ensures
        new_sp == sp - ZONE_WORDS,
        final(stack)@ == store_words(old(stack)@, sp - ZONE_WORDS, sw_zone_words(*regs)),
{
    let base: usize = sp - ZONE_WORDS;
    stack[base + 0] = regs.r4;
    stack[base + 1] = regs.r5;
    stack[base + 2] = regs.r6;
    stack[base + 3] = regs.r7;
    stack[base + 4] = regs.r8;
    stack[base + 5] = regs.r9;
    stack[base + 6] = regs.r10;
    stack[base + 7] = regs.r11;
    proof {
        assert(stack@ =~= store_words(old(stack)@, sp - ZONE_WORDS, sw_zone_words(*regs)));
    }
    base
}

/// What the context-switch primitive does to load: pop `r4`–`r11` from the
/// given stack pointer into the register file. Returns the stack pointer
/// after the pop.
pub fn pop_sw_zone(stack: &Vec<u32>, sp: usize, regs: &mut ProcessFrame) -> (new_sp: usize)
    requires
        sp + ZONE_WORDS <= stack.len(),
    ensures
        new_sp == sp + ZONE_WORDS,
        *final(regs) == (ProcessFrame {
            r4: stack@[sp + 0],
            r5: stack@[sp + 1],
            r6: stack@[sp + 2],
            r7: stack@[sp + 3],
            r8: stack@[sp + 4],
            r9: stack@[sp + 5],
            r10: stack@[sp + 6],
            r11: stack@[sp + 7],
            ..*old(regs)
        }),
{
    regs.r4 = stack[sp + 0];
    regs.r5 = stack[sp + 1];
    regs.r6 = stack[sp + 2];
    regs.r7 = stack[sp + 3];
    regs.r8 = stack[sp + 4];
    regs.r9 = stack[sp + 5];
    regs.r10 = stack[sp + 6];
    regs.r11 = stack[sp + 7];
    sp + ZONE_WORDS
}

/// What the CPU does on exception return: pop the hardware-saved zone from
/// the process stack into the register file. Returns the stack pointer
/// after the pop.
pub fn pop_hw_zone(stack: &Vec<u32>, sp: usize, regs: &mut ProcessFrame) -> (new_sp: usize)
    requires
        sp + ZONE_WORDS <= stack.len(),
    ensures
        new_sp == sp + ZONE_WORDS,
        *final(regs) == (ProcessFrame {
            r0: stack@[sp + 0],
            r1: stack@[sp + 1],
            r2: stack@[sp + 2],
            r3: stack@[sp + 3],
            r12: stack@[sp + 4],
            lr: stack@[sp + 5],
            pc: stack@[sp + 6],
            psr: stack@[sp + 7],
            ..*old(regs)
        }),
{
    regs.r0 = stack[sp + 0];
    regs.r1 = stack[sp + 1];
    regs.r2 = stack[sp + 2];
    regs.r3 = stack[sp + 3];
    regs.r12 = stack[sp + 4];
    regs.lr = stack[sp + 5];
    regs.pc = stack[sp + 6];
    regs.psr = stack[sp + 7];
    sp + ZONE_WORDS
}

/// Write a whole sixteen-word frame at `sp`: the synthesis step of task
/// creation, which lays down the initial frame in the task's private stack.
pub fn write_frame(stack: &mut Vec<u32>, sp: usize, f: &ProcessFrame)
    requires
        sp + FRAME_WORDS <= old(stack).len(),
    ensures
        final(stack)@ == store_words(old(stack)@, sp as int, frame_words(*f)),
{
    stack[sp + 0] = f.r4;
    stack[sp + 1] = f.r5;
    stack[sp + 2] = f.r6;
    stack[sp + 3] = f.r7;
    stack[sp + 4] = f.r8;
    stack[sp + 5] = f.r9;
    stack[sp + 6] = f.r10;
    stack[sp + 7] = f.r11;
    stack[sp + 8] = f.r0;
    stack[sp + 9] = f.r1;
    stack[sp + 10] = f.r2;
    stack[sp + 11] = f.r3;
    stack[sp + 12] = f.r12;
    stack[sp + 13] = f.lr;
    stack[sp + 14] = f.pc;
    stack[sp + 15] = f.psr;
    proof {
        assert(stack@ =~= store_words(old(stack)@, sp as int, frame_words(*f)));
    }
}

/// Read a whole sixteen-word frame back from `sp`.
pub fn read_frame(stack: &Vec<u32>, sp: usize) -> (f: ProcessFrame)
    requires
        sp + FRAME_WORDS <= stack.len(),
    ensures
        f == frame_at(stack@, sp as int),
{
    ProcessFrame {
        r4: stack[sp + 0],
        r5: stack[sp + 1],
        r6: stack[sp + 2],
        r7: stack[sp + 3],
        r8: stack[sp + 4],
        r9: stack[sp + 5],
        r10: stack[sp + 6],
        r11: stack[sp + 7],
        r0: stack[sp + 8],
        r1: stack[sp + 9],
        r2: stack[sp + 10],
        r3: stack[sp + 11],
        r12: stack[sp + 12],
        lr: stack[sp + 13],
        pc: stack[sp + 14],
        psr: stack[sp + 15],
    }
}

/// Saving a frame and loading it back restores it bit-exact: writing the
/// hardware zone at `sp - 8`, then the software zone at `sp - 16` — the
/// order of exception entry followed by the save primitive — leaves in
/// memory at `sp - 16` exactly the frame that was saved. Together with the
/// load contracts this is the save-then-load identity: a task preempted and
/// resumed with no scheduler mutation in between sees every register and
/// its stack pointer unchanged.
pub proof fn lemma_save_then_load_identity(mem: Seq<u32>, sp: int, f: ProcessFrame)
    requires
        FRAME_WORDS <= sp <= mem.len(),
    ensures
        frame_at(
            store_words(store_words(mem, sp - 8, hw_zone_words(f)), sp - 16, sw_zone_words(f)),
            sp - 16,
        ) == f,
        store_words(store_words(mem, sp - 8, hw_zone_words(f)), sp - 16, sw_zone_words(f))
            == store_words(mem, sp - 16, frame_words(f)),
{
    assert(store_words(store_words(mem, sp - 8, hw_zone_words(f)), sp - 16, sw_zone_words(f))
        =~= store_words(mem, sp - 16, frame_words(f)));
}

/// A frame written to memory is the frame read back: storing `frame_words`
/// at `sp` makes `frame_at` yield the same frame.
pub proof fn lemma_frame_roundtrip(mem: Seq<u32>, sp: int, f: ProcessFrame)
    requires
        0 <= sp,
        sp + FRAME_WORDS <= mem.len(),
    ensures
        frame_at(store_words(mem, sp, frame_words(f)), sp) == f,
{
}

} // verus!
