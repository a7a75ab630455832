//! From bytes to instructions.
//!
//! Most instructions are one byte long. The bytes `0xFE` and `0xFC` open a
//! two-byte group: the byte that follows selects the instruction.

use crate::error::DecodeError;
use crate::opcode::Opcode;
use crate::register::Register;
use vstd::prelude::*;

verus! {

/// Whether `b` opens a two-byte group.
pub open spec fn is_group_prefix(b: u8) -> bool {
    b == 0xFE || b == 0xFC
}

/// The table of one-byte instructions. `None` for a byte without an entry.
pub open spec fn primary_table(b: u8) -> Option<Opcode> {
    match b {
        0x90 => Some(Opcode::Noop),
        0x40 => Some(Opcode::Increment(Register::AX)),
        0x41 => Some(Opcode::Increment(Register::CX)),
        0x42 => Some(Opcode::Increment(Register::DX)),
        0x43 => Some(Opcode::Increment(Register::BX)),
        0x46 => Some(Opcode::Increment(Register::SI)),
        0x47 => Some(Opcode::Increment(Register::DI)),
        0x48 => Some(Opcode::Decrement(Register::AX)),
        0x49 => Some(Opcode::Decrement(Register::CX)),
        0x4A => Some(Opcode::Decrement(Register::DX)),
        0x4B => Some(Opcode::Decrement(Register::BX)),
        _ => None,
    }
}

/// The tables of the two groups. `None` where `prefix` opens no group or
/// `b` has no entry in its table.
pub open spec fn secondary_table(prefix: u8, b: u8) -> Option<Opcode> {
    if prefix == 0xFE {
        match b {
            0xC0 => Some(Opcode::Increment(Register::AL)),
            0xC1 => Some(Opcode::Increment(Register::CL)),
            0xC2 => Some(Opcode::Increment(Register::DL)),
            0xC3 => Some(Opcode::Increment(Register::BL)),
            0xC8 => Some(Opcode::Decrement(Register::AL)),
            0xC9 => Some(Opcode::Decrement(Register::CL)),
            0xCA => Some(Opcode::Decrement(Register::DL)),
            0xCB => Some(Opcode::Decrement(Register::BL)),
            0xCC => Some(Opcode::Decrement(Register::AH)),
            0xCD => Some(Opcode::Decrement(Register::CH)),
            0xCE => Some(Opcode::Decrement(Register::DH)),
            0xCF => Some(Opcode::Decrement(Register::BH)),
            _ => None,
        }
    } else if prefix == 0xFC {
        match b {
            0xC4 => Some(Opcode::Increment(Register::AH)),
            0xC5 => Some(Opcode::Increment(Register::CH)),
            0xC6 => Some(Opcode::Increment(Register::DH)),
            0xC7 => Some(Opcode::Increment(Register::BH)),
            _ => None,
        }
    } else {
        None
    }
}

/// The instruction that starts at `pos`, together with the position of the
/// instruction after it.
///
/// A byte without an entry in the one-byte table is read as `Noop`. A group
/// prefix must be followed by a byte of its table.
pub open spec fn decode_at(bytes: Seq<u8>, pos: int) -> Result<(Opcode, int), DecodeError>
    recommends
        0 <= pos < bytes.len(),
{
    let b = bytes[pos];
    if is_group_prefix(b) {
        if pos + 1 >= bytes.len() {
            Err(DecodeError::TruncatedInstruction { offset: pos as usize, prefix: b })
        } else {
            match secondary_table(b, bytes[pos + 1]) {
                Some(op) => Ok((op, pos + 2)),
                None => Err(
                    DecodeError::InvalidSecondaryOpcode {
                        offset: pos as usize,
                        prefix: b,
                        secondary: bytes[pos + 1],
                    },
                ),
            }
        }
    } else {
        match primary_table(b) {
            Some(op) => Ok((op, pos + 1)),
            None => Ok((Opcode::Noop, pos + 1)),
        }
    }
}

/// The instructions from `pos` to the end of the buffer, or the first error
/// met on the way.
pub open spec fn decode_from(bytes: Seq<u8>, pos: int) -> Result<Seq<Opcode>, DecodeError>
    decreases bytes.len() - pos,
{
    if pos < 0 || pos >= bytes.len() {
        Ok(Seq::empty())
    } else {
        match decode_at(bytes, pos) {
            Err(e) => Err(e),
            Ok((op, next)) => match decode_from(bytes, next) {
                Err(e) => Err(e),
                Ok(rest) => Ok(seq![op] + rest),
            },
        }
    }
}

/// The instructions of a whole program.
pub open spec fn decode_program(bytes: Seq<u8>) -> Result<Seq<Opcode>, DecodeError> {
    decode_from(bytes, 0)
}

/// Whether the byte at `i` is a group prefix that is not followed by a byte
/// of its table: either the buffer ends there, or the next byte selects
/// nothing.
pub open spec fn malformed_at(bytes: Seq<u8>, i: int) -> bool {
    &&& 0 <= i < bytes.len()
    &&& is_group_prefix(bytes[i])
    &&& (i + 1 >= bytes.len() || secondary_table(bytes[i], bytes[i + 1]) is None)
}

/// Looks `b` up in the table of one-byte instructions.
pub fn lookup_primary(b: u8) -> (op: Option<Opcode>)
    ensures
        op == primary_table(b),
{
    match b {
        0x90 => Some(Opcode::Noop),
        0x40 => Some(Opcode::Increment(Register::AX)),
        0x41 => Some(Opcode::Increment(Register::CX)),
        0x42 => Some(Opcode::Increment(Register::DX)),
        0x43 => Some(Opcode::Increment(Register::BX)),
        0x46 => Some(Opcode::Increment(Register::SI)),
        0x47 => Some(Opcode::Increment(Register::DI)),
        0x48 => Some(Opcode::Decrement(Register::AX)),
        0x49 => Some(Opcode::Decrement(Register::CX)),
        0x4A => Some(Opcode::Decrement(Register::DX)),
        0x4B => Some(Opcode::Decrement(Register::BX)),
        _ => None,
    }
}

/// Looks `b` up in the table of the group that `prefix` opens.
pub fn lookup_secondary(prefix: u8, b: u8) -> (op: Option<Opcode>)
    ensures
        op == secondary_table(prefix, b),
{
    match prefix {
        0xFE => match b {
            0xC0 => Some(Opcode::Increment(Register::AL)),
            0xC1 => Some(Opcode::Increment(Register::CL)),
            0xC2 => Some(Opcode::Increment(Register::DL)),
            0xC3 => Some(Opcode::Increment(Register::BL)),
            0xC8 => Some(Opcode::Decrement(Register::AL)),
            0xC9 => Some(Opcode::Decrement(Register::CL)),
            0xCA => Some(Opcode::Decrement(Register::DL)),
            0xCB => Some(Opcode::Decrement(Register::BL)),
            0xCC => Some(Opcode::Decrement(Register::AH)),
            0xCD => Some(Opcode::Decrement(Register::CH)),
            0xCE => Some(Opcode::Decrement(Register::DH)),
            0xCF => Some(Opcode::Decrement(Register::BH)),
            _ => None,
        },
        0xFC => match b {
            0xC4 => Some(Opcode::Increment(Register::AH)),
            0xC5 => Some(Opcode::Increment(Register::CH)),
            0xC6 => Some(Opcode::Increment(Register::DH)),
            0xC7 => Some(Opcode::Increment(Register::BH)),
            _ => None,
        },
        _ => None,
    }
}

/// Decodes the instruction that starts at `pos` and returns it with the
/// position of the instruction after it. Reads `bytes[pos]` and, after a
/// group prefix, `bytes[pos + 1]` if there is one; nothing else.
pub fn decode_instruction(bytes: &[u8], pos: usize) -> (r: Result<(Opcode, usize), DecodeError>)
    requires
        pos < bytes@.len(),
    ensures
        match r {
            Ok((op, next)) => decode_at(bytes@, pos as int) == Ok::<(Opcode, int), DecodeError>(
                (op, next as int),
            ),
            Err(e) => decode_at(bytes@, pos as int) == Err::<(Opcode, int), DecodeError>(e),
        },
{
    let b = bytes[pos];
    if b == 0xFE || b == 0xFC {
        if bytes.len() - pos < 2 {
            return Err(DecodeError::TruncatedInstruction { offset: pos, prefix: b });
        }
        let secondary = bytes[pos + 1];
        match lookup_secondary(b, secondary) {
            Some(op) => Ok((op, pos + 2)),
            None => Err(DecodeError::InvalidSecondaryOpcode { offset: pos, prefix: b, secondary }),
        }
    } else {
        match lookup_primary(b) {
            Some(op) => Ok((op, pos + 1)),
            None => Ok((Opcode::Noop, pos + 1)),
        }
    }
}

/// Every instruction ends inside the buffer, and the distance to the next
/// one is the length of its encoding.
pub proof fn lemma_decode_at_advances(bytes: Seq<u8>, pos: int)
    requires
        0 <= pos < bytes.len(),
    ensures
        decode_at(bytes, pos) matches Ok((op, next)) ==> next == pos + op.encoded_len() && next
            <= bytes.len(),
{
}

/// A byte that is neither in the one-byte table nor a group prefix decodes
/// to `Noop` and takes one byte, wherever it stands.
pub proof fn lemma_unknown_byte_is_noop(bytes: Seq<u8>, pos: int)
    requires
        0 <= pos < bytes.len(),
        primary_table(bytes[pos]) is None,
        !is_group_prefix(bytes[pos]),
    ensures
        decode_at(bytes, pos) == Ok::<(Opcode, int), DecodeError>((Opcode::Noop, pos + 1)),
{
}

/// A successful decode accounts for every byte: the encoded lengths of the
/// instructions from `pos` on add up to the number of bytes from `pos` to
/// the end of the buffer.
pub proof fn lemma_decode_consumes_buffer(bytes: Seq<u8>, pos: int)
    requires
        0 <= pos <= bytes.len(),
    ensures
        decode_from(bytes, pos) matches Ok(ops) ==> Opcode::total_len(ops) == bytes.len() - pos,
    decreases bytes.len() - pos,
{
    if pos < bytes.len() {
        if let Ok((op, next)) = decode_at(bytes, pos) {
            lemma_decode_at_advances(bytes, pos);
            lemma_decode_consumes_buffer(bytes, next);
            if let Ok(rest) = decode_from(bytes, next) {
                assert((seq![op] + rest).drop_first() =~= rest);
            }
        }
    }
}

/// Decoding depends on nothing but the bytes: two buffers that hold the same
/// bytes decode to the same instructions, or fail with the same error.
pub proof fn lemma_decode_deterministic(a: Seq<u8>, b: Seq<u8>)
    requires
        a.len() == b.len(),
        forall|i: int| 0 <= i < a.len() ==> a[i] == b[i],
    ensures
        decode_program(a) == decode_program(b),
{
    assert(a =~= b);
}

/// Only a group can make decoding fail: a buffer without a group prefix
/// decodes to one instruction per byte.
pub proof fn lemma_decode_without_groups(bytes: Seq<u8>, pos: int)
    requires
        0 <= pos <= bytes.len(),
        forall|i: int| pos <= i < bytes.len() ==> !is_group_prefix(#[trigger] bytes[i]),
    ensures
        decode_from(bytes, pos) matches Ok(ops) && ops.len() == bytes.len() - pos,
    decreases bytes.len() - pos,
{
    if pos < bytes.len() {
        lemma_decode_without_groups(bytes, pos + 1);
    }
}

/// Decoding succeeds exactly on the buffers in which no group is malformed.
pub proof fn lemma_decode_succeeds_iff_well_formed(bytes: Seq<u8>, pos: int)
    requires
        0 <= pos <= bytes.len(),
    ensures
        decode_from(bytes, pos) is Ok <==> forall|i: int|
            pos <= i < bytes.len() ==> !malformed_at(bytes, i),
    decreases bytes.len() - pos,
{
    if pos < bytes.len() {
        match decode_at(bytes, pos) {
            Ok((op, next)) => {
                lemma_decode_succeeds_iff_well_formed(bytes, next);
                assert(!malformed_at(bytes, pos));
                assert(next == pos + 2 ==> !malformed_at(bytes, pos + 1));
            },
            Err(e) => {
                assert(malformed_at(bytes, pos));
            },
        }
    }
}

/// A failed decode names the first malformed group of the buffer. Where
/// `first` is the least position from `pos` on that holds one, decoding
/// fails with `TruncatedInstruction` if the prefix at `first` is the last
/// byte, and with `InvalidSecondaryOpcode` and the byte after it otherwise.
pub proof fn lemma_decode_fails_at_first_malformed(bytes: Seq<u8>, pos: int, first: int)
    requires
        0 <= pos <= first,
        malformed_at(bytes, first),
        forall|i: int| pos <= i < first ==> !malformed_at(bytes, i),
    ensures
        decode_from(bytes, pos) == Err::<Seq<Opcode>, DecodeError>(
            if first + 1 >= bytes.len() {
                DecodeError::TruncatedInstruction { offset: first as usize, prefix: bytes[first] }
            } else {
                DecodeError::InvalidSecondaryOpcode {
                    offset: first as usize,
                    prefix: bytes[first],
                    secondary: bytes[first + 1],
                }
            },
        ),
    decreases first - pos,
{
    if pos < first {
        assert(!malformed_at(bytes, pos));
        match decode_at(bytes, pos) {
            Ok((op, next)) => {
                assert(next == pos + 2 ==> !malformed_at(bytes, pos + 1));
                lemma_decode_fails_at_first_malformed(bytes, next, first);
            },
            Err(e) => {},
        }
    }
}

} // verus!
