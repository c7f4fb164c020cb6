//! Program status registers and condition codes.
use vstd::prelude::*;
use crate::util::{bit_spec, lemma_bit};
use crate::cpu::CPU;

verus! {

/// Bits 31 - 28, 7 - 5 of the Current Program Status Register.
#[derive(Clone, Copy, PartialEq, Eq, Debug)]
pub enum PSRBit {
    /// Sign flag, bit 31.
    N,
    /// Zero flag, bit 30.
    Z,
    /// Carry flag, bit 29.
    C,
    /// Overflow flag, bit 28.
    V,
    /// IRQ disable, bit 7.
    I,
    /// FIQ disable, bit 6.
    F,
    /// State bit (Thumb / ARM), bit 5.
    T,
}

impl PSRBit {
    /// Bit position of the flag in a PSR.
    pub open spec fn pos(self) -> u32 {
        match self {
            PSRBit::N => 31,
            PSRBit::Z => 30,
            PSRBit::C => 29,
            PSRBit::V => 28,
            PSRBit::I => 7,
            PSRBit::F => 6,
            PSRBit::T => 5,
        }
    }

    /// Bit position of the flag in a PSR.
    pub fn position(&self) -> (r: u32)
        ensures
            r == self.pos(),
    {
        match self {
            PSRBit::N => 31,
            PSRBit::Z => 30,
            PSRBit::C => 29,
            PSRBit::V => 28,
            PSRBit::I => 7,
            PSRBit::F => 6,
            PSRBit::T => 5,
        }
    }
}

/// Operating mode, bits 4 - 0 of a PSR.
#[derive(Clone, Copy, PartialEq, Eq, Debug)]
pub enum PSRMode {
    User,
    FIQ,
    IRQ,
    Supervisor,
    Abort,
    Undefined,
    System,
}

impl PSRMode {
    /// The mode bits.
    pub open spec fn mode_bits(self) -> u32 {
        match self {
            PSRMode::User => 0b10000,
            PSRMode::FIQ => 0b10001,
            PSRMode::IRQ => 0b10010,
            PSRMode::Supervisor => 0b10011,
            PSRMode::Abort => 0b10111,
            PSRMode::Undefined => 0b11011,
            PSRMode::System => 0b11111,
        }
    }

    /// The mode bits.
    pub fn value(&self) -> (r: u32)
        ensures
            r == self.mode_bits(),
    {
        match self {
            PSRMode::User => 0b10000,
            PSRMode::FIQ => 0b10001,
            PSRMode::IRQ => 0b10010,
            PSRMode::Supervisor => 0b10011,
            PSRMode::Abort => 0b10111,
            PSRMode::Undefined => 0b11011,
            PSRMode::System => 0b11111,
        }
    }
}

/// Whether five mode bits name one of the seven operating modes.
pub open spec fn valid_mode(m: u32) -> bool {
    m == 0b10000 || m == 0b10001 || m == 0b10010 || m == 0b10011 || m == 0b10111 || m
        == 0b11011 || m == 0b11111
}

/// Value of flag `b` in the status word `psr`.
pub open spec fn flag(psr: u32, b: PSRBit) -> bool {
    bit_spec(psr, b.pos())
}

/// `x` with bit `p` set to `t`.
pub open spec fn set_bit_spec(x: u32, p: u32, t: bool) -> u32 {
    if t {
        x | (1u32 << p)
    } else {
        x & !(1u32 << p)
    }
}

/// The bits of a PSR that a transfer writes: the flags only, or the
/// flags and the control byte.
pub open spec fn psr_mask(f: bool) -> u32 {
    if f {
        0xf000_0000
    } else {
        0xf000_00ff
    }
}

/// `psr` with the bits under the transfer mask replaced by those of `r`.
pub open spec fn psr_write(psr: u32, r: u32, f: bool) -> u32 {
    (psr & !psr_mask(f)) | (r & psr_mask(f))
}

/// Whether the condition field `cond` holds for the flags of `psr`.
pub open spec fn condition_spec(psr: u32, cond: u32) -> bool {
    let n = flag(psr, PSRBit::N);
    let z = flag(psr, PSRBit::Z);
    let c = flag(psr, PSRBit::C);
    let v = flag(psr, PSRBit::V);
    if cond == 0 {
        z
    } else if cond == 1 {
        !z
    } else if cond == 2 {
        c
    } else if cond == 3 {
        !c
    } else if cond == 4 {
        n
    } else if cond == 5 {
        !n
    } else if cond == 6 {
        v
    } else if cond == 7 {
        !v
    } else if cond == 8 {
        c && !z
    } else if cond == 9 {
        !c || z
    } else if cond == 10 {
        n == v
    } else if cond == 11 {
        n != v
    } else if cond == 12 {
        !z && n == v
    } else if cond == 13 {
        z || n != v
    } else {
        true
    }
}

/// Facts on setting one bit: the bit reads back, the other bits keep
/// their value, and setting a bit to the value it has changes nothing.
pub proof fn lemma_set_bit(x: u32, p: u32, t: bool, q: u32)
    by (bit_vector)
    requires
        p < 32,
        q < 32,
    ensures
        ((set_bit_spec(x, p, t) >> p) & 1 == 1) == t,
        q != p ==> (((set_bit_spec(x, p, t) >> q) & 1 == 1) == ((x >> q) & 1 == 1)),
        (((x >> p) & 1 == 1) == t) ==> set_bit_spec(x, p, t) == x,
        set_bit_spec(x, p, t) & 0x1f == if p < 5 { set_bit_spec(x & 0x1f, p, t) } else { x
            & 0x1f },
{
}

impl CPU {
    /// The Current Program Status Register.
    pub fn get_cpsr(&self) -> (r: u32)
        ensures
            r == self.cpsr,
    {
        self.cpsr
    }

    /// Set the defined bits of the CPSR. If `f` is set, transfer only the
    /// flag bits. Reserved bits of the CPSR are kept intact.
    pub fn set_cpsr(&mut self, r: u32, f: bool)
        ensures
            *final(self) == (CPU { cpsr: psr_write(old(self).cpsr, r, f), ..*old(self) }),
    {
        let mask: u32 = if f {
            0xf000_0000
        } else {
            0xf000_00ff
        };
        self.cpsr = self.cpsr & !mask;
        self.cpsr = self.cpsr | (r & mask);
    }

    /// Copy the SPSR to the CPSR.
    pub fn restore_cpsr(&mut self)
        ensures
            *final(self) == (CPU { cpsr: old(self).spsr, ..*old(self) }),
    {
        self.cpsr = self.spsr;
    }

    /// Read one flag of the CPSR.
    pub fn get_cpsr_bit(&self, bit: PSRBit) -> (r: bool)
        ensures
            r == flag(self.cpsr, bit),
    {
        let p = bit.position();
        proof {
            lemma_bit(self.cpsr, p);
        }
        (self.cpsr >> p) & 1 == 1
    }

    /// Set or clear one flag of the CPSR.
    pub fn set_cpsr_bit(&mut self, bit: PSRBit, t: bool)
        ensures
            *final(self) == (CPU { cpsr: set_bit_spec(old(self).cpsr, bit.pos(), t), ..*old(self) }),
            flag(final(self).cpsr, bit) == t,
            forall|b: PSRBit| b != bit ==> flag(#[trigger] final(self).cpsr, b) == flag(old(self).cpsr, b),
    {
        let p = bit.position();
        if t {
            self.cpsr = self.cpsr | (1u32 << p);
        } else {
            self.cpsr = self.cpsr & !(1u32 << p);
        }
        proof {
            let x = old(self).cpsr;
            lemma_set_bit(x, p, t, p);
            assert forall|b: PSRBit| b != bit implies flag(#[trigger] self.cpsr, b) == flag(x, b) by {
                lemma_set_bit(x, p, t, b.pos());
            }
        }
    }

    /// Operating mode of the CPSR.
    pub fn get_cpsr_mode(&self) -> (r: PSRMode)
        requires
            valid_mode(self.cpsr & 0b11111),
        ensures
            r.mode_bits() == self.cpsr & 0b11111,
    {
        let m = self.cpsr & 0b11111;
        if m == 0b10000 {
            PSRMode::User
        } else if m == 0b10001 {
            PSRMode::FIQ
        } else if m == 0b10010 {
            PSRMode::IRQ
        } else if m == 0b10011 {
            PSRMode::Supervisor
        } else if m == 0b10111 {
            PSRMode::Abort
        } else if m == 0b11011 {
            PSRMode::Undefined
        } else {
            PSRMode::System
        }
    }

    /// Replace the mode bits of the CPSR.
    pub fn set_cpsr_mode(&mut self, m: PSRMode)
        ensures
            *final(self) == (CPU {
                cpsr: (old(self).cpsr & !0b11111u32) | m.mode_bits(),
                ..*old(self)
            }),
    {
        let v = m.value();
        self.cpsr = self.cpsr & !0b11111u32;
        self.cpsr = self.cpsr | v;
    }

    /// The Saved Program Status Register of the current mode.
    pub fn get_spsr(&self) -> (r: u32)
        ensures
            r == self.spsr,
    {
        self.spsr
    }

    /// Set the defined bits of the SPSR. If `f` is set, transfer only the
    /// flag bits. Reserved bits of the SPSR are kept intact.
    pub fn set_spsr(&mut self, r: u32, f: bool)
        ensures
            *final(self) == (CPU { spsr: psr_write(old(self).spsr, r, f), ..*old(self) }),
    {
        let mask: u32 = if f {
            0xf000_0000
        } else {
            0xf000_00ff
        };
        self.spsr = self.spsr & !mask;
        self.spsr = self.spsr | (r & mask);
    }

    /// Whether the condition field of an instruction is satisfied.
    pub fn check_condition(&self, condition: u32) -> (r: bool)
        requires
            condition < 15,
        ensures
            r == condition_spec(self.cpsr, condition),
    {
        let n = self.get_cpsr_bit(PSRBit::N);
        let z = self.get_cpsr_bit(PSRBit::Z);
        let c = self.get_cpsr_bit(PSRBit::C);
        let v = self.get_cpsr_bit(PSRBit::V);
        match condition {
            0b0000 => z,
            0b0001 => !z,
            0b0010 => c,
            0b0011 => !c,
            0b0100 => n,
            0b0101 => !n,
            0b0110 => v,
            0b0111 => !v,
            0b1000 => c && !z,
            0b1001 => !c || z,
            0b1010 => n == v,
            0b1011 => n != v,
            0b1100 => !z && n == v,
            0b1101 => z || n != v,
            _ => true,
        }
    }
}

} // verus!

verus! {

/// Setting the mode keeps every bit of the status word above the mode
/// field, and the mode read back is the one set.
pub proof fn lemma_mode_roundtrip(psr: u32, m: PSRMode)
    ensures
        ((psr & !0b11111u32) | m.mode_bits()) & 0b11111 == m.mode_bits(),
        ((psr & !0b11111u32) | m.mode_bits()) & !0b11111u32 == psr & !0b11111u32,
        valid_mode(((psr & !0b11111u32) | m.mode_bits()) & 0b11111),
{
    let b = m.mode_bits();
    assert(((psr & !0b11111u32) | b) & 0b11111 == b && ((psr & !0b11111u32) | b) & !0b11111u32 == psr
        & !0b11111u32) by (bit_vector)
        requires
            b < 32,
    ;
}

/// A flags-only transfer to a status word leaves its control byte (mode,
/// state and interrupt masks) unchanged; a full transfer sets the flags
/// and the control byte and keeps the reserved bits.
pub proof fn lemma_psr_write(psr: u32, r: u32)
    by (bit_vector)
    ensures
        psr_write(psr, r, true) & 0xff == psr & 0xff,
        psr_write(psr, r, true) & 0xf000_0000 == r & 0xf000_0000,
        psr_write(psr, r, false) & 0xf000_00ff == r & 0xf000_00ff,
        psr_write(psr, r, false) & 0x0fff_ff00 == psr & 0x0fff_ff00,
{
}

} // verus!
