//! The ways in which a program can be rejected.

use vstd::prelude::*;

verus! {

/// Why a byte buffer could not be decoded.
#[derive(Debug, Clone, Copy, PartialEq, Eq, Structural)]
pub enum DecodeError {
    /// The byte that follows a group prefix selects no instruction of that
    /// group. `offset` is the position of the prefix.
    InvalidSecondaryOpcode { offset: usize, prefix: u8, secondary: u8 },
    /// A group prefix is the last byte of the buffer. `offset` is the
    /// position of the prefix.
    TruncatedInstruction { offset: usize, prefix: u8 },
}

/// Why assembly source could not be turned into byte code.
#[derive(Debug, Clone, Copy, PartialEq, Eq, Structural)]
pub enum AssemblyError {
    /// The assembler does not exist yet.
    Unimplemented,
}

} // verus!
