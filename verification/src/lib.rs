//! A small simulator for an 8/16-bit, x86-like instruction subset.
//!
//! A program is a raw byte buffer. It is first decoded into a sequence of
//! typed instructions and then interpreted against a register file; the two
//! passes never interleave.

pub mod decoder;
pub mod error;
pub mod executor;
pub mod flags;
pub mod opcode;
pub mod processor;
pub mod register;
pub mod register_file;

pub use error::{AssemblyError, DecodeError};
pub use flags::{Flag, FlagSet};
pub use opcode::Opcode;
pub use processor::{Processor, ProcessorState};
pub use register::{Part, Register};
pub use register_file::RegisterFile;
