//! The instruction set.

use crate::register::Register;
use vstd::prelude::*;

verus! {

/// A decoded instruction.
///
/// Only `Noop`, `Increment` and `Decrement` are produced by the decoder and
/// acted on by the executor. `Stop` and the move family are part of the
/// instruction set but have neither an encoding nor an effect yet.
#[derive(Debug, Clone, Copy, PartialEq, Eq, Structural)]
pub enum Opcode {
    Noop,
    Stop,
    /// Adds one to the register, wrapping at its width.
    Increment(Register),
    /// Subtracts one from the register, wrapping at its width.
    Decrement(Register),
    /// Direction and the two registers.
    MoveRegReg(bool, Register, Register),
    /// Direction, register and memory address.
    MoveRegMem(bool, Register, u16),
    /// 16-bit immediate and destination register.
    MoveImmReg16(u16, Register),
    /// 8-bit immediate and destination register.
    MoveImmReg8(u8, Register),
    /// Immediate and memory address.
    MoveImmMem(u16, u16),
}

impl Opcode {
    /// The number of bytes that an instruction produced by the decoder
    /// occupies in the program: two when the second byte of a group selected
    /// it, which is the case for the byte registers, and one otherwise.
    pub open spec fn encoded_len(self) -> nat {
        match self {
            Opcode::Increment(r) | Opcode::Decrement(r) => if r.is_byte() {
                2
            } else {
                1
            },
            _ => 1,
        }
    }

    /// The number of bytes occupied by a sequence of instructions.
    pub open spec fn total_len(ops: Seq<Opcode>) -> nat
        decreases ops.len(),
    {
        if ops.len() == 0 {
            0
        } else {
            ops[0].encoded_len() + Opcode::total_len(ops.drop_first())
        }
    }
}

} // verus!
