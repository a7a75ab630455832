//! Register names and how they map onto the 16-bit storage words.

use vstd::prelude::*;

verus! {

/// The names by which the register file is addressed.
///
/// `AL`/`AH` name the low and high byte of the word `AX`, and likewise for
/// `BX`, `CX` and `DX`. Every other name denotes a whole 16-bit word.
#[derive(Debug, Clone, Copy, PartialEq, Eq, Hash, Structural)]
pub enum Register {
    // Main registers
    AX,
    AL,
    AH,
    BX,
    BH,
    BL,
    CX,
    CH,
    CL,
    DX,
    DH,
    DL,
    // Segment registers
    CS,
    DS,
    ES,
    SS,
    // Index registers
    SI,
    DI,
    BP,
    SP,
    // Program counter
    /// A 16-bit register like the others. The position at which a
    /// processor decodes its program is kept apart from it.
    IP,
}

/// The part of a 16-bit storage word that a register name denotes.
#[derive(Debug, Clone, Copy, PartialEq, Eq, Hash, Structural)]
pub enum Part {
    /// All sixteen bits.
    Whole,
    /// Bits 0 to 7.
    Low,
    /// Bits 8 to 15.
    High,
}

impl Register {
    /// The part of its storage word that this name denotes.
    pub open spec fn part_spec(self) -> Part {
        match self {
            Register::AL | Register::BL | Register::CL | Register::DL => Part::Low,
            Register::AH | Register::BH | Register::CH | Register::DH => Part::High,
            _ => Part::Whole,
        }
    }

    /// The 16-bit register whose storage word backs this name. A 16-bit
    /// register is its own parent.
    pub open spec fn parent_spec(self) -> Register {
        match self {
            Register::AL | Register::AH => Register::AX,
            Register::BL | Register::BH => Register::BX,
            Register::CL | Register::CH => Register::CX,
            Register::DL | Register::DH => Register::DX,
            r => r,
        }
    }

    /// Whether this name denotes a single byte.
    pub open spec fn is_byte(self) -> bool {
        self.part_spec() != Part::Whole
    }

    /// The number of distinct values the register can hold: 2^8 for a byte
    /// register, 2^16 otherwise.
    pub open spec fn modulus(self) -> int {
        if self.is_byte() {
            0x100
        } else {
            0x1_0000
        }
    }

    /// `x` reduced modulo the width of the register: the value the register
    /// holds after `x` is stored in it.
    pub open spec fn wrap(self, x: int) -> u16 {
        if self.is_byte() {
            (x % 0x100) as u16
        } else {
            (x % 0x1_0000) as u16
        }
    }

    /// Whether two names share storage, so that a write to one can be
    /// observed through the other.
    pub open spec fn overlaps(self, other: Register) -> bool {
        &&& self.parent_spec() == other.parent_spec()
        &&& (self.part_spec() == Part::Whole || other.part_spec() == Part::Whole
            || self.part_spec() == other.part_spec())
    }

    /// The part of its storage word that this name denotes.
    #[verifier::when_used_as_spec(part_spec)]
    pub fn part(self) -> (p: Part)
        ensures
            p == self.part_spec(),
    {
        match self {
            Register::AL | Register::BL | Register::CL | Register::DL => Part::Low,
            Register::AH | Register::BH | Register::CH | Register::DH => Part::High,
            _ => Part::Whole,
        }
    }

    /// The 16-bit register whose storage word backs this name.
    #[verifier::when_used_as_spec(parent_spec)]
    pub fn parent(self) -> (r: Register)
        ensures
            r == self.parent_spec(),
    {
        match self {
            Register::AL | Register::AH => Register::AX,
            Register::BL | Register::BH => Register::BX,
            Register::CL | Register::CH => Register::CX,
            Register::DL | Register::DH => Register::DX,
            r => r,
        }
    }
}

} // verus!
