//! GPIO register-value computations.
//!
//! The hardware driver reads a port configuration register, reworks the bit
//! field of one pin, and writes the result back. The read and the write are
//! volatile accesses that stay outside this crate; the rework in the middle
//! is a pure function of the old register value and is verified here.

use vstd::prelude::*;

verus! {

use vstd::string::StringSliceAdditionalSpecFns;

/// Base address of GPIO port A.
pub const GPIOA_BASE: u32 = 0x4800_0000;
/// Base address of GPIO port B.
pub const GPIOB_BASE: u32 = 0x4800_0400;
/// Base address of GPIO port C.
pub const GPIOC_BASE: u32 = 0x4800_0800;

/// Pin modes of the port mode register, two bits per pin.
pub enum ModerTypes {
    InputMode,
    GeneralPurposeOutputMode,
    AlternateFunctionMode,
    AnalogMode,
}

/// Output driver types of the port output type register, one bit per pin.
pub enum OutputTypes {
    PushPull,
    OpenDrain,
}

impl ModerTypes {
    /// The two-bit field value that selects this mode.
    pub open spec fn spec_bits(self) -> u32 {
        match self {
            ModerTypes::InputMode => 0b00u32,
            ModerTypes::GeneralPurposeOutputMode => 0b01u32,
            ModerTypes::AlternateFunctionMode => 0b10u32,
            ModerTypes::AnalogMode => 0b11u32,
        }
    }

    /// Executable twin of [`Self::spec_bits`].
    pub fn bits(&self) -> (r: u32)
        ensures
            r == self.spec_bits(),
    {
        match self {
            ModerTypes::InputMode => 0b00u32,
            ModerTypes::GeneralPurposeOutputMode => 0b01u32,
            ModerTypes::AlternateFunctionMode => 0b10u32,
            ModerTypes::AnalogMode => 0b11u32,
        }
    }
}

/// Base address selected by a port mnemonic, given as the mnemonic's UTF-8
/// bytes: `B` and `C` name their ports, anything else falls back to port A.
pub open spec fn port_base_of(bytes: Seq<u8>) -> u32 {
    if bytes == seq![66u8] {  // "B"
        GPIOB_BASE
    } else if bytes == seq![67u8] {  // "C"
        GPIOC_BASE
    } else {
        GPIOA_BASE
    }
}

/// Base address of the port named by its one-letter mnemonic; an unknown
/// mnemonic falls back to port A.
pub fn get_port(port_mnemonic: &str) -> (base: u32)
    ensures
        base == port_base_of(port_mnemonic.spec_bytes()),
{
    let b: &[u8] = port_mnemonic.as_bytes();
    if b.len() == 1 {
        let c: u8 = *vstd::slice::slice_index_get(b, 0);
        if c == 66 {
            proof {
                assert(b@ =~= seq![66u8]);
            }
            return GPIOB_BASE;
        }
        if c == 67 {
            proof {
                assert(b@ =~= seq![67u8]);
            }
            return GPIOC_BASE;
        }
        proof {
            assert(b@ != seq![66u8] && b@ != seq![67u8]) by {
                assert(seq![66u8][0] == 66u8 && seq![67u8][0] == 67u8);
            }
        }
        return GPIOA_BASE;
    }
    proof {
        assert(b@ != seq![66u8] && b@ != seq![67u8]) by {
            assert(seq![66u8].len() == 1 && seq![67u8].len() == 1);
        }
    }
    GPIOA_BASE
}

/// New content of the port mode register after the two-bit field of `pin`
/// is cleared and rewritten to select `moder_type`; all other pins keep
/// their configuration.
pub fn set_moder(current_register_content: u32, moder_type: ModerTypes, pin: u8) -> (updated: u32)
    requires
        pin < 16,
    ensures
        updated == (current_register_content & !(0b11u32 << (pin * 2))) | (
        moder_type.spec_bits() << (pin * 2)),
{
    let cleared: u32 = current_register_content & !(0b11u32 << (pin * 2));
    cleared | (moder_type.bits() << (pin * 2))
}

/// New content of the port output type register after the bit of `pin` is
/// set for open-drain or cleared for push-pull; all other pins keep their
/// configuration.
pub fn set_otyper(current_register_content: u32, output_type: OutputTypes, pin: u8) -> (updated: u32)
    requires
        pin < 16,
    ensures
        updated == match output_type {
            OutputTypes::PushPull => current_register_content & !(1u32 << pin),
            OutputTypes::OpenDrain => current_register_content | (1u32 << pin),
        },
{
    match output_type {
        OutputTypes::PushPull => current_register_content & !(1u32 << pin),
        OutputTypes::OpenDrain => current_register_content | (1u32 << pin),
    }
}

} // verus!
