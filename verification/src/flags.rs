//! The condition and control flags.

use vstd::prelude::*;

verus! {

/// The names of the nine flags.
#[derive(Debug, Clone, Copy, PartialEq, Eq, Hash, Structural)]
pub enum Flag {
    // Condition flags
    Carry,
    Auxiliary,
    Parity,
    Zero,
    Sign,
    Overflow,
    // Control flags
    Trap,
    Interrupt,
    Direction,
}

/// Nine independent booleans, one per [`Flag`].
#[derive(Debug, Clone, Copy, PartialEq, Eq, Structural)]
pub struct FlagSet {
    pub carry: bool,
    pub auxiliary: bool,
    pub parity: bool,
    pub zero: bool,
    pub sign: bool,
    pub overflow: bool,
    pub trap: bool,
    pub interrupt: bool,
    pub direction: bool,
}

impl FlagSet {
    /// The flag set with every flag clear.
    pub open spec fn cleared() -> FlagSet {
        FlagSet {
            carry: false,
            auxiliary: false,
            parity: false,
            zero: false,
            sign: false,
            overflow: false,
            trap: false,
            interrupt: false,
            direction: false,
        }
    }

    /// Whether `f` is set.
    pub open spec fn value(self, f: Flag) -> bool {
        match f {
            Flag::Carry => self.carry,
            Flag::Auxiliary => self.auxiliary,
            Flag::Parity => self.parity,
            Flag::Zero => self.zero,
            Flag::Sign => self.sign,
            Flag::Overflow => self.overflow,
            Flag::Trap => self.trap,
            Flag::Interrupt => self.interrupt,
            Flag::Direction => self.direction,
        }
    }

    /// This flag set with `f` replaced by `b`.
    pub open spec fn store(self, f: Flag, b: bool) -> FlagSet {
        match f {
            Flag::Carry => FlagSet { carry: b, ..self },
            Flag::Auxiliary => FlagSet { auxiliary: b, ..self },
            Flag::Parity => FlagSet { parity: b, ..self },
            Flag::Zero => FlagSet { zero: b, ..self },
            Flag::Sign => FlagSet { sign: b, ..self },
            Flag::Overflow => FlagSet { overflow: b, ..self },
            Flag::Trap => FlagSet { trap: b, ..self },
            Flag::Interrupt => FlagSet { interrupt: b, ..self },
            Flag::Direction => FlagSet { direction: b, ..self },
        }
    }

    /// Creates a flag set with every flag clear.
    pub fn new() -> (flags: FlagSet)
        ensures
            flags == FlagSet::cleared(),
    {
        FlagSet {
            carry: false,
            auxiliary: false,
            parity: false,
            zero: false,
            sign: false,
            overflow: false,
            trap: false,
            interrupt: false,
            direction: false,
        }
    }

    /// Reads `f`.
    pub fn get(&self, f: Flag) -> (b: bool)
        ensures
            b == self.value(f),
    {
        match f {
            Flag::Carry => self.carry,
            Flag::Auxiliary => self.auxiliary,
            Flag::Parity => self.parity,
            Flag::Zero => self.zero,
            Flag::Sign => self.sign,
            Flag::Overflow => self.overflow,
            Flag::Trap => self.trap,
            Flag::Interrupt => self.interrupt,
            Flag::Direction => self.direction,
        }
    }

    /// Sets `f` to `b` and leaves the other eight flags alone.
    pub fn set(&mut self, f: Flag, b: bool)
        ensures
            *final(self) == old(self).store(f, b),
    {
        match f {
            Flag::Carry => self.carry = b,
            Flag::Auxiliary => self.auxiliary = b,
            Flag::Parity => self.parity = b,
            Flag::Zero => self.zero = b,
            Flag::Sign => self.sign = b,
            Flag::Overflow => self.overflow = b,
            Flag::Trap => self.trap = b,
            Flag::Interrupt => self.interrupt = b,
            Flag::Direction => self.direction = b,
        }
    }

    /// The flags are independent: after a write, the written flag holds the
    /// new value and every other flag holds what it held before.
    pub proof fn lemma_flags_independent(self, f: Flag, b: bool, g: Flag)
        ensures
            self.store(f, b).value(g) == if g == f {
                b
            } else {
                self.value(g)
            },
    {
    }
}

} // verus!
