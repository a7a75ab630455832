//! What each instruction does to the register file.

use crate::opcode::Opcode;
use crate::register::Register;
use crate::register_file::RegisterFile;
use vstd::prelude::*;

verus! {

/// The register file after one instruction.
///
/// `Increment` and `Decrement` add or subtract one modulo the width of their
/// register. Every other instruction leaves the register file as it is.
pub open spec fn step(rf: RegisterFile, op: Opcode) -> RegisterFile {
    match op {
        Opcode::Increment(r) => rf.store(r, r.wrap(rf.value(r) + 1)),
        Opcode::Decrement(r) => rf.store(r, r.wrap(rf.value(r) - 1)),
        _ => rf,
    }
}

/// The register file after a sequence of instructions, applied in order.
pub open spec fn run(rf: RegisterFile, ops: Seq<Opcode>) -> RegisterFile
    decreases ops.len(),
{
    if ops.len() == 0 {
        rf
    } else {
        step(run(rf, ops.drop_last()), ops.last())
    }
}

/// Applies one instruction to the register file.
pub fn execute_instruction(rf: &mut RegisterFile, op: Opcode)
    ensures
        *final(rf) == step(*old(rf), op),
{
    match op {
        Opcode::Increment(r) => {
            let v = rf.read(r);
            proof {
                rf.lemma_write_wraps(r, v.wrapping_add(1), r.wrap(v + 1));
            }
            rf.write(r, v.wrapping_add(1));
        },
        Opcode::Decrement(r) => {
            let v = rf.read(r);
            proof {
                rf.lemma_write_wraps(r, v.wrapping_sub(1), r.wrap(v - 1));
            }
            rf.write(r, v.wrapping_sub(1));
        },
        // Instructions without an effect of their own.
        _ => {},
    }
}

/// Running no instruction changes nothing.
pub proof fn lemma_run_empty(rf: RegisterFile)
    ensures
        run(rf, Seq::empty()) == rf,
{
}

/// An instruction other than `Increment` and `Decrement` changes nothing.
pub proof fn lemma_step_without_effect(rf: RegisterFile, op: Opcode)
    requires
        !(op is Increment),
        !(op is Decrement),
    ensures
        step(rf, op) == rf,
{
}

/// `Increment` adds one to its register modulo the register's width, and is
/// invisible through every register that shares no bits with it.
pub proof fn lemma_increment(rf: RegisterFile, r: Register, q: Register)
    ensures
        step(rf, Opcode::Increment(r)).value(r) == r.wrap(rf.value(r) + 1),
        !r.overlaps(q) ==> step(rf, Opcode::Increment(r)).value(q) == rf.value(q),
{
    let v = r.wrap(rf.value(r) + 1);
    rf.lemma_read_after_write(r, v);
    if !r.overlaps(q) {
        rf.lemma_write_keeps_disjoint(r, v, q);
    }
}

/// `Decrement` subtracts one from its register modulo the register's width,
/// and is invisible through every register that shares no bits with it.
pub proof fn lemma_decrement(rf: RegisterFile, r: Register, q: Register)
    ensures
        step(rf, Opcode::Decrement(r)).value(r) == r.wrap(rf.value(r) - 1),
        !r.overlaps(q) ==> step(rf, Opcode::Decrement(r)).value(q) == rf.value(q),
{
    let v = r.wrap(rf.value(r) - 1);
    rf.lemma_read_after_write(r, v);
    if !r.overlaps(q) {
        rf.lemma_write_keeps_disjoint(r, v, q);
    }
}

} // verus!
