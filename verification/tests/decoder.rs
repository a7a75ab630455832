use sim8086::decoder::{decode_instruction, lookup_primary, lookup_secondary};
use sim8086::{DecodeError, Opcode, Register};

#[test]
fn one_byte_table() {
    assert_eq!(lookup_primary(0x90), Some(Opcode::Noop));
    assert_eq!(lookup_primary(0x40), Some(Opcode::Increment(Register::AX)));
    assert_eq!(lookup_primary(0x41), Some(Opcode::Increment(Register::CX)));
    assert_eq!(lookup_primary(0x42), Some(Opcode::Increment(Register::DX)));
    assert_eq!(lookup_primary(0x43), Some(Opcode::Increment(Register::BX)));
    assert_eq!(lookup_primary(0x46), Some(Opcode::Increment(Register::SI)));
    assert_eq!(lookup_primary(0x47), Some(Opcode::Increment(Register::DI)));
    assert_eq!(lookup_primary(0x48), Some(Opcode::Decrement(Register::AX)));
    assert_eq!(lookup_primary(0x49), Some(Opcode::Decrement(Register::CX)));
    assert_eq!(lookup_primary(0x4A), Some(Opcode::Decrement(Register::DX)));
    assert_eq!(lookup_primary(0x4B), Some(Opcode::Decrement(Register::BX)));
}

#[test]
fn one_byte_table_has_eleven_entries() {
    let entries = (0..=255u8).filter(|b| lookup_primary(*b).is_some()).count();
    assert_eq!(entries, 11);
    assert_eq!(lookup_primary(0x44), None);
    assert_eq!(lookup_primary(0x45), None);
    assert_eq!(lookup_primary(0x4C), None);
    assert_eq!(lookup_primary(0xFE), None);
    assert_eq!(lookup_primary(0xFC), None);
    assert_eq!(lookup_primary(0x00), None);
}

#[test]
fn group_fe_table() {
    assert_eq!(lookup_secondary(0xFE, 0xC0), Some(Opcode::Increment(Register::AL)));
    assert_eq!(lookup_secondary(0xFE, 0xC1), Some(Opcode::Increment(Register::CL)));
    assert_eq!(lookup_secondary(0xFE, 0xC2), Some(Opcode::Increment(Register::DL)));
    assert_eq!(lookup_secondary(0xFE, 0xC3), Some(Opcode::Increment(Register::BL)));
    assert_eq!(lookup_secondary(0xFE, 0xC8), Some(Opcode::Decrement(Register::AL)));
    assert_eq!(lookup_secondary(0xFE, 0xC9), Some(Opcode::Decrement(Register::CL)));
    assert_eq!(lookup_secondary(0xFE, 0xCA), Some(Opcode::Decrement(Register::DL)));
    assert_eq!(lookup_secondary(0xFE, 0xCB), Some(Opcode::Decrement(Register::BL)));
    assert_eq!(lookup_secondary(0xFE, 0xCC), Some(Opcode::Decrement(Register::AH)));
    assert_eq!(lookup_secondary(0xFE, 0xCD), Some(Opcode::Decrement(Register::CH)));
    assert_eq!(lookup_secondary(0xFE, 0xCE), Some(Opcode::Decrement(Register::DH)));
    assert_eq!(lookup_secondary(0xFE, 0xCF), Some(Opcode::Decrement(Register::BH)));
    let entries = (0..=255u8).filter(|b| lookup_secondary(0xFE, *b).is_some()).count();
    assert_eq!(entries, 12);
    assert_eq!(lookup_secondary(0xFE, 0xC4), None);
    assert_eq!(lookup_secondary(0xFE, 0xC7), None);
}

#[test]
fn group_fc_table() {
    assert_eq!(lookup_secondary(0xFC, 0xC4), Some(Opcode::Increment(Register::AH)));
    assert_eq!(lookup_secondary(0xFC, 0xC5), Some(Opcode::Increment(Register::CH)));
    assert_eq!(lookup_secondary(0xFC, 0xC6), Some(Opcode::Increment(Register::DH)));
    assert_eq!(lookup_secondary(0xFC, 0xC7), Some(Opcode::Increment(Register::BH)));
    let entries = (0..=255u8).filter(|b| lookup_secondary(0xFC, *b).is_some()).count();
    assert_eq!(entries, 4);
    assert_eq!(lookup_secondary(0xFC, 0xC0), None);
    assert_eq!(lookup_secondary(0xFC, 0xC8), None);
}

#[test]
fn only_two_bytes_open_a_group() {
    for prefix in 0..=255u8 {
        if prefix == 0xFE || prefix == 0xFC {
            continue;
        }
        for b in 0..=255u8 {
            assert_eq!(lookup_secondary(prefix, b), None);
        }
    }
}

#[test]
fn decode_instruction_gives_the_next_position() {
    let bytes = [0x90, 0x4B, 0xFE, 0xCF, 0x07, 0xFC, 0xC6];
    assert_eq!(decode_instruction(&bytes, 0), Ok((Opcode::Noop, 1)));
    assert_eq!(decode_instruction(&bytes, 1), Ok((Opcode::Decrement(Register::BX), 2)));
    assert_eq!(decode_instruction(&bytes, 2), Ok((Opcode::Decrement(Register::BH), 4)));
    assert_eq!(decode_instruction(&bytes, 4), Ok((Opcode::Noop, 5)));
    assert_eq!(decode_instruction(&bytes, 5), Ok((Opcode::Increment(Register::DH), 7)));
    // Read from the middle of a group, the second byte is a byte like any other.
    assert_eq!(decode_instruction(&bytes, 3), Ok((Opcode::Noop, 4)));
}

#[test]
fn decode_instruction_reports_a_bad_group() {
    let bytes = [0x40, 0xFE, 0xC4, 0xFC];
    assert_eq!(
        decode_instruction(&bytes, 1),
        Err(DecodeError::InvalidSecondaryOpcode { offset: 1, prefix: 0xFE, secondary: 0xC4 })
    );
    assert_eq!(
        decode_instruction(&bytes, 3),
        Err(DecodeError::TruncatedInstruction { offset: 3, prefix: 0xFC })
    );
    // A group prefix after a group prefix is no entry of the table.
    assert_eq!(
        decode_instruction(&[0xFE, 0xFE, 0xC0], 0),
        Err(DecodeError::InvalidSecondaryOpcode { offset: 0, prefix: 0xFE, secondary: 0xFE })
    );
}
