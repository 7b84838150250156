//! The register-frame model on concrete values: synthesis and round trips.

use rtos_core::frame::{
    pop_hw_zone, pop_sw_zone, push_hw_zone, push_sw_zone, read_frame, write_frame, ProcessFrame,
    EXC_RETURN_THREAD_PSP, FRAME_WORDS, XPSR_INIT, XPSR_THUMB_BIT, ZONE_WORDS,
};
use rtos_core::kernel::Kernel;

#[test]
fn initial_frame_fields() {
    let f = ProcessFrame::initial(0x0800_1234, 0x0800_0F00);
    assert_eq!(f.pc, 0x0800_1234);
    assert_eq!(f.lr, 0x0800_0F00);
    assert_eq!(f.psr, XPSR_INIT);
    assert_ne!(f.psr & XPSR_THUMB_BIT, 0);
    assert_eq!(f.r0, 0);
    assert_eq!(f.r1, 0);
    assert_eq!(f.r2, 0);
    assert_eq!(f.r3, 0);
    assert_eq!(f.r12, 0);
    assert_eq!(f.r4, 0);
    assert_eq!(f.r5, 0);
    assert_eq!(f.r6, 0);
    assert_eq!(f.r7, 0);
    assert_eq!(f.r8, 0);
    assert_eq!(f.r9, 0);
    assert_eq!(f.r10, 0);
    assert_eq!(f.r11, 0);
}

#[test]
fn stack_synthesis_layout() {
    // create a task and check the words its synthesized frame holds
    let mut k = Kernel::new(1);
    let entry: u32 = 0x0800_4000;
    let term: u32 = 0x0800_0F00;
    assert_eq!(k.create_task(entry, term, 64), Some(0));
    let sp = k.tct.tasks[0].unwrap().sp;
    assert_eq!(sp, 64 - FRAME_WORDS);
    let stack = &k.stacks[0];
    // software zone: r4 through r11, all zero
    for j in 0..8 {
        assert_eq!(stack[sp + j], 0);
    }
    // hardware zone: r0, r1, r2, r3, r12 zero, then lr, pc, xpsr
    for j in 8..13 {
        assert_eq!(stack[sp + j], 0);
    }
    assert_eq!(stack[sp + 13], term);
    assert_eq!(stack[sp + 14], entry);
    assert_eq!(stack[sp + 15], XPSR_INIT);
}

#[test]
fn write_then_read_roundtrip() {
    let mut stack: Vec<u32> = vec![0xDEAD_BEEF; 32];
    let f = ProcessFrame {
        r0: 1,
        r1: 2,
        r2: 3,
        r3: 4,
        r12: 5,
        lr: 6,
        pc: 7,
        psr: 8,
        r4: 9,
        r5: 10,
        r6: 11,
        r7: 12,
        r8: 13,
        r9: 14,
        r10: 15,
        r11: 16,
    };
    write_frame(&mut stack, 10, &f);
    let g = read_frame(&stack, 10);
    assert_eq!(g, f);
    // words outside the frame are untouched
    assert_eq!(stack[9], 0xDEAD_BEEF);
    assert_eq!(stack[26], 0xDEAD_BEEF);
}

#[test]
fn save_then_load_identity() {
    // push both zones as preemption does, pop them back, compare
    let mut stack: Vec<u32> = vec![0; 64];
    let regs = ProcessFrame {
        r0: 0x10,
        r1: 0x11,
        r2: 0x12,
        r3: 0x13,
        r12: 0x1C,
        lr: 0xFFFF_FFFD,
        pc: 0x0800_5000,
        psr: XPSR_INIT,
        r4: 0x24,
        r5: 0x25,
        r6: 0x26,
        r7: 0x27,
        r8: 0x28,
        r9: 0x29,
        r10: 0x2A,
        r11: 0x2B,
    };
    let psp: usize = 64;
    let after_hw = push_hw_zone(&mut stack, psp, &regs);
    assert_eq!(after_hw, psp - ZONE_WORDS);
    let sp = push_sw_zone(&mut stack, after_hw, &regs);
    assert_eq!(sp, psp - FRAME_WORDS);

    let mut restored = ProcessFrame::initial(0, 0);
    let mid = pop_sw_zone(&stack, sp, &mut restored);
    let top = pop_hw_zone(&stack, mid, &mut restored);
    assert_eq!(top, psp);
    assert_eq!(restored, regs);
}

#[test]
fn exception_return_value_is_architecture_constant() {
    assert_eq!(EXC_RETURN_THREAD_PSP, 0xFFFF_FFFD);
}
