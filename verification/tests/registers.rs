use sim8086::executor::execute_instruction;
use sim8086::{Flag, FlagSet, Opcode, Part, Register, RegisterFile};

#[test]
fn parts_and_parents() {
    assert_eq!(Register::AL.part(), Part::Low);
    assert_eq!(Register::BL.part(), Part::Low);
    assert_eq!(Register::CL.part(), Part::Low);
    assert_eq!(Register::DL.part(), Part::Low);
    assert_eq!(Register::AH.part(), Part::High);
    assert_eq!(Register::BH.part(), Part::High);
    assert_eq!(Register::CH.part(), Part::High);
    assert_eq!(Register::DH.part(), Part::High);
    for r in [
        Register::AX,
        Register::BX,
        Register::CX,
        Register::DX,
        Register::CS,
        Register::DS,
        Register::ES,
        Register::SS,
        Register::SI,
        Register::DI,
        Register::BP,
        Register::SP,
        Register::IP,
    ] {
        assert_eq!(r.part(), Part::Whole);
        assert_eq!(r.parent(), r);
    }
    assert_eq!(Register::AL.parent(), Register::AX);
    assert_eq!(Register::AH.parent(), Register::AX);
    assert_eq!(Register::BL.parent(), Register::BX);
    assert_eq!(Register::BH.parent(), Register::BX);
    assert_eq!(Register::CL.parent(), Register::CX);
    assert_eq!(Register::CH.parent(), Register::CX);
    assert_eq!(Register::DL.parent(), Register::DX);
    assert_eq!(Register::DH.parent(), Register::DX);
}

#[test]
fn word_register_reads_what_was_written() {
    let mut registers = RegisterFile::new();
    registers.write(Register::SP, 0xBEEF);
    assert_eq!(registers.read(Register::SP), 0xBEEF);
    assert_eq!(registers, RegisterFile { sp: 0xBEEF, ..RegisterFile::new() });
    registers.write(Register::IP, 0xFFFF);
    registers.write(Register::CS, 1);
    registers.write(Register::DS, 2);
    registers.write(Register::ES, 3);
    registers.write(Register::SS, 4);
    registers.write(Register::SI, 5);
    registers.write(Register::DI, 6);
    registers.write(Register::BP, 7);
    assert_eq!(
        registers,
        RegisterFile {
            ax: 0,
            bx: 0,
            cx: 0,
            dx: 0,
            cs: 1,
            ds: 2,
            es: 3,
            ss: 4,
            si: 5,
            di: 6,
            bp: 7,
            sp: 0xBEEF,
            ip: 0xFFFF,
        }
    );
}

#[test]
fn byte_registers_are_halves_of_their_parent() {
    let mut registers = RegisterFile::new();
    registers.write(Register::BX, 0x12AB);
    assert_eq!(registers.read(Register::BL), 0xAB);
    assert_eq!(registers.read(Register::BH), 0x12);

    registers.write(Register::BL, 0xCD);
    assert_eq!(registers.read(Register::BX), 0x12CD);
    assert_eq!(registers.read(Register::BH), 0x12);

    registers.write(Register::BH, 0x34);
    assert_eq!(registers.read(Register::BX), 0x34CD);
    assert_eq!(registers.read(Register::BL), 0xCD);

    assert_eq!(registers, RegisterFile { bx: 0x34CD, ..RegisterFile::new() });
}

#[test]
fn byte_write_keeps_the_low_eight_bits() {
    let mut registers = RegisterFile::new();
    registers.write(Register::DX, 0xA5A5);
    registers.write(Register::DL, 0x1234);
    assert_eq!(registers.read(Register::DL), 0x34);
    assert_eq!(registers.read(Register::DH), 0xA5);
    assert_eq!(registers.read(Register::DX), 0xA534);
    registers.write(Register::DH, 0xFF01);
    assert_eq!(registers.read(Register::DH), 0x01);
    assert_eq!(registers.read(Register::DX), 0x0134);
}

#[test]
fn increment_wraps_at_the_width() {
    let mut registers = RegisterFile::new();
    registers.write(Register::AX, 0x12FF);
    execute_instruction(&mut registers, Opcode::Increment(Register::AL));
    assert_eq!(registers.read(Register::AX), 0x1200);

    registers.write(Register::AX, 0xFF34);
    execute_instruction(&mut registers, Opcode::Increment(Register::AH));
    assert_eq!(registers.read(Register::AX), 0x0034);

    registers.write(Register::AX, 0x12FF);
    execute_instruction(&mut registers, Opcode::Increment(Register::AX));
    assert_eq!(registers.read(Register::AX), 0x1300);

    registers.write(Register::AX, 0xFFFF);
    execute_instruction(&mut registers, Opcode::Increment(Register::AX));
    assert_eq!(registers.read(Register::AX), 0);
    assert_eq!(registers, RegisterFile::new());
}

#[test]
fn decrement_wraps_at_the_width() {
    let mut registers = RegisterFile::new();
    registers.write(Register::CX, 0x1200);
    execute_instruction(&mut registers, Opcode::Decrement(Register::CL));
    assert_eq!(registers.read(Register::CX), 0x12FF);

    registers.write(Register::CX, 0x0034);
    execute_instruction(&mut registers, Opcode::Decrement(Register::CH));
    assert_eq!(registers.read(Register::CX), 0xFF34);

    registers.write(Register::CX, 0x1200);
    execute_instruction(&mut registers, Opcode::Decrement(Register::CX));
    assert_eq!(registers.read(Register::CX), 0x11FF);

    registers.write(Register::SI, 0);
    execute_instruction(&mut registers, Opcode::Decrement(Register::SI));
    assert_eq!(registers.read(Register::SI), 0xFFFF);
}

#[test]
fn instructions_without_semantics_change_nothing() {
    let mut registers = RegisterFile::new();
    registers.write(Register::AX, 0x1234);
    registers.write(Register::DI, 0x4321);
    let before = registers;
    for op in [
        Opcode::Noop,
        Opcode::Stop,
        Opcode::MoveRegReg(true, Register::AX, Register::DI),
        Opcode::MoveRegMem(false, Register::AX, 0x10),
        Opcode::MoveImmReg16(0xFFFF, Register::AX),
        Opcode::MoveImmReg8(0xFF, Register::AL),
        Opcode::MoveImmMem(1, 2),
    ] {
        execute_instruction(&mut registers, op);
        assert_eq!(registers, before);
    }
}

#[test]
fn flags_are_independent() {
    let all = [
        Flag::Carry,
        Flag::Auxiliary,
        Flag::Parity,
        Flag::Zero,
        Flag::Sign,
        Flag::Overflow,
        Flag::Trap,
        Flag::Interrupt,
        Flag::Direction,
    ];
    for f in all {
        let mut flags = FlagSet::new();
        flags.set(f, true);
        for g in all {
            assert_eq!(flags.get(g), g == f);
        }
        flags.set(f, false);
        assert_eq!(flags, FlagSet::new());
    }
}
