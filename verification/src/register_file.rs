//! The register file: thirteen 16-bit storage words, some of them also
//! addressable by byte.

use crate::register::{Part, Register};
use vstd::prelude::*;

verus! {

/// Storage for every register. Each field is the 16-bit word of the register
/// of the same name; the byte registers have no storage of their own and are
/// views of the words `ax`, `bx`, `cx` and `dx`.
#[derive(Debug, Clone, Copy, PartialEq, Eq, Structural)]
pub struct RegisterFile {
    pub ax: u16,
    pub bx: u16,
    pub cx: u16,
    pub dx: u16,
    pub cs: u16,
    pub ds: u16,
    pub es: u16,
    pub ss: u16,
    pub si: u16,
    pub di: u16,
    pub bp: u16,
    pub sp: u16,
    pub ip: u16,
}

impl RegisterFile {
    /// The register file with every word zero.
    pub open spec fn zeroed() -> RegisterFile {
        RegisterFile {
            ax: 0,
            bx: 0,
            cx: 0,
            dx: 0,
            cs: 0,
            ds: 0,
            es: 0,
            ss: 0,
            si: 0,
            di: 0,
            bp: 0,
            sp: 0,
            ip: 0,
        }
    }

    /// The storage word that backs `r`.
    pub open spec fn word(self, r: Register) -> u16 {
        match r.parent() {
            Register::AX => self.ax,
            Register::BX => self.bx,
            Register::CX => self.cx,
            Register::DX => self.dx,
            Register::CS => self.cs,
            Register::DS => self.ds,
            Register::ES => self.es,
            Register::SS => self.ss,
            Register::SI => self.si,
            Register::DI => self.di,
            Register::BP => self.bp,
            Register::SP => self.sp,
            _ => self.ip,
        }
    }

    /// This register file with the storage word that backs `r` replaced by `w`.
    pub open spec fn with_word(self, r: Register, w: u16) -> RegisterFile {
        match r.parent() {
            Register::AX => RegisterFile { ax: w, ..self },
            Register::BX => RegisterFile { bx: w, ..self },
            Register::CX => RegisterFile { cx: w, ..self },
            Register::DX => RegisterFile { dx: w, ..self },
            Register::CS => RegisterFile { cs: w, ..self },
            Register::DS => RegisterFile { ds: w, ..self },
            Register::ES => RegisterFile { es: w, ..self },
            Register::SS => RegisterFile { ss: w, ..self },
            Register::SI => RegisterFile { si: w, ..self },
            Register::DI => RegisterFile { di: w, ..self },
            Register::BP => RegisterFile { bp: w, ..self },
            Register::SP => RegisterFile { sp: w, ..self },
            _ => RegisterFile { ip: w, ..self },
        }
    }

    /// The value held by `r`: the whole word for a 16-bit register, the
    /// low or high byte of the parent's word for a byte register.
    pub open spec fn value(self, r: Register) -> u16 {
        let w = self.word(r);
        match r.part() {
            Part::Whole => w,
            Part::Low => (w % 0x100) as u16,
            Part::High => (w / 0x100) as u16,
        }
    }

    /// This register file after `v` is stored into `r`. A byte register keeps
    /// only the low eight bits of `v` and leaves the other half of its
    /// parent's word as it is.
    pub open spec fn store(self, r: Register, v: u16) -> RegisterFile {
        let w = self.word(r);
        let updated = match r.part() {
            Part::Whole => v,
            Part::Low => ((w / 0x100) * 0x100 + v % 0x100) as u16,
            Part::High => ((v % 0x100) * 0x100 + w % 0x100) as u16,
        };
        self.with_word(r, updated)
    }

    /// Creates a register file with every register zero.
    pub fn new() -> (rf: RegisterFile)
        ensures
            rf == RegisterFile::zeroed(),
    {
        RegisterFile {
            ax: 0,
            bx: 0,
            cx: 0,
            dx: 0,
            cs: 0,
            ds: 0,
            es: 0,
            ss: 0,
            si: 0,
            di: 0,
            bp: 0,
            sp: 0,
            ip: 0,
        }
    }

    fn load_word(&self, r: Register) -> (w: u16)
        ensures
            w == self.word(r),
    {
        match r.parent() {
            Register::AX => self.ax,
            Register::BX => self.bx,
            Register::CX => self.cx,
            Register::DX => self.dx,
            Register::CS => self.cs,
            Register::DS => self.ds,
            Register::ES => self.es,
            Register::SS => self.ss,
            Register::SI => self.si,
            Register::DI => self.di,
            Register::BP => self.bp,
            Register::SP => self.sp,
            _ => self.ip,
        }
    }

    fn store_word(&mut self, r: Register, w: u16)
        ensures
            *final(self) == old(self).with_word(r, w),
    {
        match r.parent() {
            Register::AX => self.ax = w,
            Register::BX => self.bx = w,
            Register::CX => self.cx = w,
            Register::DX => self.dx = w,
            Register::CS => self.cs = w,
            Register::DS => self.ds = w,
            Register::ES => self.es = w,
            Register::SS => self.ss = w,
            Register::SI => self.si = w,
            Register::DI => self.di = w,
            Register::BP => self.bp = w,
            Register::SP => self.sp = w,
            _ => self.ip = w,
        }
    }

    /// Reads `r`. A byte register yields a value below 256.
    pub fn read(&self, r: Register) -> (v: u16)
        ensures
            v == self.value(r),
            v < r.modulus(),
    {
        let w = self.load_word(r);
        match r.part() {
            Part::Whole => w,
            Part::Low => w % 0x100,
            Part::High => w / 0x100,
        }
    }

    /// Writes `v` to `r`, reduced modulo the register's width. Only the bits
    /// that `r` names change.
    pub fn write(&mut self, r: Register, v: u16)
        ensures
            *final(self) == old(self).store(r, v),
    {
        let w = self.load_word(r);
        let updated = match r.part() {
            Part::Whole => v,
            Part::Low => (w / 0x100) * 0x100 + v % 0x100,
            Part::High => (v % 0x100) * 0x100 + w % 0x100,
        };
        self.store_word(r, updated);
    }

    /// A register reads back what was last written to it, modulo its width.
    pub proof fn lemma_read_after_write(self, r: Register, v: u16)
        ensures
            self.store(r, v).value(r) == r.wrap(v as int),
    {
    }

    /// A write stores its value modulo the register's width: two values that
    /// agree modulo the width leave the same register file.
    pub proof fn lemma_write_wraps(self, r: Register, v: u16, w: u16)
        requires
            r.wrap(v as int) == r.wrap(w as int),
        ensures
            self.store(r, v) == self.store(r, w),
    {
    }

    /// A write is invisible through every name that shares no bits with the
    /// one written: other words, and the other half of the same word.
    pub proof fn lemma_write_keeps_disjoint(self, r: Register, v: u16, q: Register)
        requires
            !r.overlaps(q),
        ensures
            self.store(r, v).value(q) == self.value(q),
    {
    }

    /// A 16-bit register with byte views is made of exactly those two bytes.
    pub proof fn lemma_word_of_halves(self, low: Register, high: Register)
        requires
            low.part() == Part::Low,
            high.part() == Part::High,
            low.parent() == high.parent(),
        ensures
            self.value(low.parent()) == self.value(high) * 0x100 + self.value(low),
    {
    }

    /// Writing one half of a word is seen through the parent as a change of
    /// that half alone.
    pub proof fn lemma_byte_write_through_parent(self, r: Register, v: u16)
        requires
            r.is_byte(),
        ensures
            r.part() == Part::Low ==> self.store(r, v).value(r.parent()) == (self.value(r.parent())
                / 0x100) * 0x100 + v % 0x100,
            r.part() == Part::High ==> self.store(r, v).value(r.parent()) == (v % 0x100) * 0x100
                + self.value(r.parent()) % 0x100,
    {
    }

    /// Writing a 16-bit register sets both of its byte views.
    pub proof fn lemma_word_write_through_halves(self, r: Register, v: u16, q: Register)
        requires
            r.part() == Part::Whole,
            q.parent() == r,
        ensures
            q.part() == Part::Low ==> self.store(r, v).value(q) == v % 0x100,
            q.part() == Part::High ==> self.store(r, v).value(q) == v / 0x100,
    {
    }
}

} // verus!
