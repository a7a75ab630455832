//! The processor: a program, its decoded form, and the machine state.

use crate::decoder::{
    decode_from, decode_instruction, decode_program, is_group_prefix, lemma_decode_at_advances,
    lemma_decode_consumes_buffer, lemma_unknown_byte_is_noop, primary_table,
};
use crate::error::{AssemblyError, DecodeError};
use crate::executor::{execute_instruction, run};
use crate::flags::FlagSet;
use crate::opcode::Opcode;
use crate::register_file::RegisterFile;
use vstd::prelude::*;

verus! {

/// What a [`Processor`] holds, as mathematical values.
pub struct ProcessorState {
    /// The program.
    pub byte_code: Seq<u8>,
    /// The position in `byte_code` of the next byte to decode.
    pub instruction_pointer: nat,
    /// The instructions decoded so far.
    pub quasi_compiled: Seq<Opcode>,
    pub registers: RegisterFile,
    pub flags: FlagSet,
}

impl ProcessorState {
    /// The instruction pointer never leaves the program.
    pub open spec fn wf(self) -> bool {
        self.instruction_pointer <= self.byte_code.len()
    }

    /// The state of a processor that was just given the program `byte_code`.
    pub open spec fn initial(byte_code: Seq<u8>) -> ProcessorState {
        ProcessorState {
            byte_code,
            instruction_pointer: 0,
            quasi_compiled: Seq::empty(),
            registers: RegisterFile::zeroed(),
            flags: FlagSet::cleared(),
        }
    }

    /// The state after the decode pass, or the error that stops it.
    ///
    /// Decoding starts at the instruction pointer and runs to the end of the
    /// program. The instructions found are appended to those already there
    /// and the instruction pointer comes to rest at the end of the program.
    pub open spec fn decoded(self) -> Result<ProcessorState, DecodeError> {
        match decode_from(self.byte_code, self.instruction_pointer as int) {
            Ok(ops) => Ok(
                ProcessorState {
                    instruction_pointer: self.byte_code.len(),
                    quasi_compiled: self.quasi_compiled + ops,
                    ..self
                },
            ),
            Err(e) => Err(e),
        }
    }

    /// The state after the execute pass: the decoded instructions have been
    /// applied to the registers, and nothing else has changed.
    pub open spec fn executed(self) -> ProcessorState {
        ProcessorState { registers: run(self.registers, self.quasi_compiled), ..self }
    }

    /// With nothing decoded, the execute pass changes nothing.
    pub proof fn lemma_execute_nothing(self)
        requires
            self.quasi_compiled.len() == 0,
        ensures
            self.executed() == self,
    {
    }

    /// The decode pass never moves the instruction pointer back, keeps what
    /// was decoded before, and accounts for every byte it passes: the
    /// encoded lengths of the instructions it adds sum to the distance that
    /// the instruction pointer travels, which ends at the end of the program.
    pub proof fn lemma_decode_pass_consumes_program(self)
        requires
            self.wf(),
        ensures
            self.decoded() matches Ok(s) ==> {
                let kept = self.quasi_compiled.len() as int;
                &&& s.wf()
                &&& self.instruction_pointer <= s.instruction_pointer == self.byte_code.len()
                &&& s.quasi_compiled.take(kept) == self.quasi_compiled
                &&& Opcode::total_len(s.quasi_compiled.skip(kept)) == s.instruction_pointer
                    - self.instruction_pointer
            },
    {
        lemma_decode_consumes_buffer(self.byte_code, self.instruction_pointer as int);
        if let Ok(ops) = decode_from(self.byte_code, self.instruction_pointer as int) {
            assert((self.quasi_compiled + ops).take(self.quasi_compiled.len() as int)
                =~= self.quasi_compiled);
            assert((self.quasi_compiled + ops).skip(self.quasi_compiled.len() as int) =~= ops);
        }
    }

    /// On a fresh processor the decode pass yields the instructions of the
    /// whole program, or the error that the program holds, and touches
    /// neither registers nor flags.
    pub proof fn lemma_decode_fresh(byte_code: Seq<u8>)
        ensures
            ProcessorState::initial(byte_code).decoded() == match decode_program(byte_code) {
                Ok(ops) => Ok::<ProcessorState, DecodeError>(
                    ProcessorState {
                        instruction_pointer: byte_code.len(),
                        quasi_compiled: ops,
                        ..ProcessorState::initial(byte_code)
                    },
                ),
                Err(e) => Err(e),
            },
    {
        if let Ok(ops) = decode_program(byte_code) {
            assert(Seq::<Opcode>::empty() + ops =~= ops);
        }
    }

    /// A program of one byte that is neither in the one-byte table nor a
    /// group prefix decodes to a single `Noop`, and executing it changes
    /// neither a register nor a flag.
    pub proof fn lemma_unknown_byte_program(b: u8)
        requires
            primary_table(b) is None,
            !is_group_prefix(b),
        ensures
            ProcessorState::initial(seq![b]).decoded() matches Ok(s) && {
                &&& s.quasi_compiled == seq![Opcode::Noop]
                &&& s.instruction_pointer == 1
                &&& s.executed() == s
                &&& s.registers == RegisterFile::zeroed()
                &&& s.flags == FlagSet::cleared()
            },
    {
        let bytes = seq![b];
        lemma_unknown_byte_is_noop(bytes, 0);
        assert(decode_from(bytes, 1) == Ok::<Seq<Opcode>, DecodeError>(Seq::empty()));
        let ops = seq![Opcode::Noop];
        assert(seq![Opcode::Noop] + Seq::<Opcode>::empty() =~= ops);
        assert(Seq::<Opcode>::empty() + ops =~= ops);
        assert(ops.drop_last() =~= Seq::<Opcode>::empty());
        assert(run(RegisterFile::zeroed(), ops) == RegisterFile::zeroed()) by {
            reveal_with_fuel(run, 2);
        }
    }
}

/// A processor. It is made from a program, decodes it in one pass and
/// executes the decoded instructions in another.
///
/// The instruction pointer is the position of the decode pass in the
/// program. It is not the register `IP`, which lives in the register file
/// and is touched by instructions only.
#[derive(Debug)]
pub struct Processor {
    flags: FlagSet,
    registers: RegisterFile,
    instruction_pointer: usize,
    byte_code: Vec<u8>,
    quasi_compiled: Vec<Opcode>,
}

impl View for Processor {
    type V = ProcessorState;

    closed spec fn view(&self) -> ProcessorState {
        ProcessorState {
            byte_code: self.byte_code@,
            instruction_pointer: self.instruction_pointer as nat,
            quasi_compiled: self.quasi_compiled@,
            registers: self.registers,
            flags: self.flags,
        }
    }
}

impl Processor {
    /// Creates a processor for the program `hex_code`: registers zero, flags
    /// clear, nothing decoded, instruction pointer at the first byte.
    pub fn default(hex_code: Vec<u8>) -> (p: Processor)
        ensures
            p@ == ProcessorState::initial(hex_code@),
            p@.wf(),
    {
        Processor {
            flags: FlagSet::new(),
            registers: RegisterFile::new(),
            instruction_pointer: 0,
            byte_code: hex_code,
            quasi_compiled: Vec::new(),
        }
    }

    /// Turns assembly source into byte code. There is no assembler yet: the
    /// call fails whatever the processor holds.
    pub fn source_code_to_byte_code(&self) -> (r: Result<(), AssemblyError>)
        ensures
            r == Err::<(), AssemblyError>(AssemblyError::Unimplemented),
    {
        Err(AssemblyError::Unimplemented)
    }

    /// The byte at the instruction pointer.
    pub fn get_current_hex_code(&self) -> (b: u8)
        requires
            self@.instruction_pointer < self@.byte_code.len(),
        ensures
            b == self@.byte_code[self@.instruction_pointer as int],
    {
        self.byte_code[self.instruction_pointer]
    }

    /// The decode pass: decodes the program from the instruction pointer to
    /// its end and appends the instructions to those already decoded.
    ///
    /// On an error nothing is kept: the processor is left as it was, so that
    /// a later execute pass never sees part of a malformed program.
    pub fn compile_byte_code_to_quasi_compiled(&mut self) -> (r: Result<(), DecodeError>)
        requires
            old(self)@.wf(),
        ensures
            final(self)@.wf(),
            match r {
                Ok(()) => old(self)@.decoded() == Ok::<ProcessorState, DecodeError>(final(self)@),
                Err(e) => {
                    &&& old(self)@.decoded() == Err::<ProcessorState, DecodeError>(e)
                    &&& final(self)@ == old(self)@
                },
            },
    {
        let start = self.instruction_pointer;
        let mut pos = start;
        let mut decoded: Vec<Opcode> = Vec::new();
        while pos < self.byte_code.len()
            invariant
                start <= pos <= self.byte_code.len(),
                *self == *old(self),
                start == self.instruction_pointer,
                decode_from(self.byte_code@, start as int) == match decode_from(
                    self.byte_code@,
                    pos as int,
                ) {
                    Ok(rest) => Ok::<Seq<Opcode>, DecodeError>(decoded@ + rest),
                    Err(e) => Err(e),
                },
            decreases self.byte_code.len() - pos,
        {
            match decode_instruction(self.byte_code.as_slice(), pos) {
                Ok((op, next)) => {
                    proof {
                        lemma_decode_at_advances(self.byte_code@, pos as int);
                        if let Ok(rest) = decode_from(self.byte_code@, next as int) {
                            assert(decoded@.push(op) + rest =~= decoded@ + (seq![op] + rest));
                        }
                    }
                    decoded.push(op);
                    pos = next;
                },
                Err(e) => {
                    return Err(e);
                },
            }
        }
        proof {
            assert(decoded@ + Seq::<Opcode>::empty() =~= decoded@);
        }
        self.instruction_pointer = pos;
        self.quasi_compiled.append(&mut decoded);
        Ok(())
    }

    /// The execute pass: applies the decoded instructions to the registers,
    /// first to last. The flags, the program, the decoded instructions and
    /// the instruction pointer stay as they are.
    pub fn execute_quasi_compiled(&mut self)
        ensures
            old(self)@.wf() ==> final(self)@.wf(),
            final(self)@ == old(self)@.executed(),
    {
        let mut i: usize = 0;
        while i < self.quasi_compiled.len()
            invariant
                i <= self.quasi_compiled.len(),
                self.flags == old(self).flags,
                self.instruction_pointer == old(self).instruction_pointer,
                self.byte_code == old(self).byte_code,
                self.quasi_compiled == old(self).quasi_compiled,
                self.registers == run(old(self).registers, self.quasi_compiled@.take(i as int)),
            decreases self.quasi_compiled.len() - i,
        {
            proof {
                assert(self.quasi_compiled@.take(i + 1).drop_last() =~= self.quasi_compiled@.take(
                    i as int,
                ));
            }
            let op = self.quasi_compiled[i];
            execute_instruction(&mut self.registers, op);
            i += 1;
        }
        proof {
            assert(self.quasi_compiled@.take(i as int) =~= self.quasi_compiled@);
        }
    }

    /// The registers.
    pub fn registers(&self) -> (rf: RegisterFile)
        ensures
            rf == self@.registers,
    {
        self.registers
    }

    /// The flags.
    pub fn flags(&self) -> (flags: FlagSet)
        ensures
            flags == self@.flags,
    {
        self.flags
    }

    /// The position of the next byte to decode.
    pub fn instruction_pointer(&self) -> (pos: usize)
        ensures
            pos == self@.instruction_pointer,
    {
        self.instruction_pointer
    }

    /// The program.
    pub fn byte_code(&self) -> (bytes: &[u8])
        ensures
            bytes@ == self@.byte_code,
    {
        self.byte_code.as_slice()
    }

    /// The instructions decoded so far.
    pub fn quasi_compiled(&self) -> (ops: &[Opcode])
        ensures
            ops@ == self@.quasi_compiled,
    {
        self.quasi_compiled.as_slice()
    }
}

} // verus!
