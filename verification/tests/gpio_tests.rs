//! GPIO register computations on concrete values.

use rtos_core::gpio::{
    get_port, set_moder, set_otyper, ModerTypes, OutputTypes, GPIOA_BASE, GPIOB_BASE, GPIOC_BASE,
};
use rtos_core::kernel::trigger_PendSV;

#[test]
fn port_mnemonics_map_to_base_addresses() {
    assert_eq!(get_port("A"), GPIOA_BASE);
    assert_eq!(get_port("B"), GPIOB_BASE);
    assert_eq!(get_port("C"), GPIOC_BASE);
    // unknown mnemonics fall back to port A
    assert_eq!(get_port("E"), GPIOA_BASE);
    assert_eq!(get_port(""), GPIOA_BASE);
    assert_eq!(get_port("BC"), GPIOA_BASE);
}

#[test]
fn moder_field_is_rewritten_in_place() {
    // from all-zero: output mode for pin 11 sets bits 23:22 to 01
    assert_eq!(set_moder(0, ModerTypes::GeneralPurposeOutputMode, 11), 0b01 << 22);
    // an existing configuration of another pin is kept
    let before: u32 = 0b10 << 4;  // pin 2 in alternate function mode
    let after = set_moder(before, ModerTypes::AnalogMode, 0);
    assert_eq!(after, (0b10 << 4) | 0b11);
    // rewriting the same pin clears its old field first
    let cleared = set_moder(after, ModerTypes::InputMode, 0);
    assert_eq!(cleared, 0b10 << 4);
}

#[test]
fn otyper_bit_follows_the_output_type() {
    assert_eq!(set_otyper(0, OutputTypes::OpenDrain, 9), 1 << 9);
    assert_eq!(set_otyper(1 << 9, OutputTypes::PushPull, 9), 0);
    // other pins keep their bit
    let with_two: u32 = (1 << 3) | (1 << 9);
    assert_eq!(set_otyper(with_two, OutputTypes::PushPull, 9), 1 << 3);
}

#[test]
fn pendsv_request_sets_bit_28() {
    assert_eq!(trigger_PendSV(0), 1 << 28);
    assert_eq!(trigger_PendSV(0x0000_0F0F), 0x1000_0F0F);
    // an already-pending request stays set
    assert_eq!(trigger_PendSV(1 << 28), 1 << 28);
}
