//! The register file: accumulator, index registers, program counter, stack
//! pointer and the bit-packed status register.

use vstd::prelude::*;

verus! {

/// One of the seven status flags.
#[derive(Clone, Copy, Debug, PartialEq, Eq, Structural)]
pub enum Flag {
    /// Negative: bit 7 of the last result.
    N,
    /// Overflow.
    V,
    /// Break.
    B,
    /// Decimal mode.
    D,
    /// Interrupt disable.
    I,
    /// Zero: the last result was zero.
    Z,
    /// Carry.
    C,
}

impl Flag {
    /// The mask that selects the flag's bit in the status register.
    pub open spec fn spec_mask(self) -> u8 {
        match self {
            Flag::N => 0x80,
            Flag::V => 0x40,
            Flag::B => 0x10,
            Flag::D => 0x08,
            Flag::I => 0x04,
            Flag::Z => 0x02,
            Flag::C => 0x01,
        }
    }

    /// The position of the flag's bit in the status register.
    pub open spec fn bit(self) -> u8 {
        match self {
            Flag::N => 7,
            Flag::V => 6,
            Flag::B => 4,
            Flag::D => 3,
            Flag::I => 2,
            Flag::Z => 1,
            Flag::C => 0,
        }
    }

    /// Looks the flag's bit up in the fixed mask table.
    pub fn mask(self) -> (m: u8)
        ensures
            m == self.spec_mask(),
    {
        match self {
            Flag::N => 0b1000_0000,
            Flag::V => 0b0100_0000,
            Flag::B => 0b0001_0000,
            Flag::D => 0b0000_1000,
            Flag::I => 0b0000_0100,
            Flag::Z => 0b0000_0010,
            Flag::C => 0b0000_0001,
        }
    }
}

/// The architectural state that instructions see.
///
/// Bit 5 of the status register (`0x20`) belongs to no flag. It is modelled
/// as plain storage: it is clear at power-on, no flag operation touches it,
/// and it reads back as it was last written.
#[derive(Clone, Copy, Debug, PartialEq, Eq, Structural)]
pub struct Registers {
    /// Accumulator.
    pub a: u8,
    /// Index register X.
    pub x: u8,
    /// Index register Y.
    pub y: u8,
    /// Program counter.
    pub pc: u16,
    /// Stack pointer, an offset into the stack page.
    pub sp: u8,
    /// Status register.
    pub sr: u8,
}

/// Whether bit 7 of `value`, its sign bit, is set: the bytes from `0x80` up.
pub open spec fn bit7(value: u8) -> bool {
    value >= 0x80
}

/// The status byte `sr` with the bits of `mask` set (`on`) or cleared.
pub open spec fn with_bits(sr: u8, mask: u8, on: bool) -> u8 {
    if on {
        sr | mask
    } else {
        sr & !mask
    }
}

impl Registers {
    /// Whether flag `f` is set.
    pub open spec fn flag(self, f: Flag) -> bool {
        self.sr & f.spec_mask() != 0
    }

    /// The registers after a result byte has been recorded in the Zero and
    /// Negative flags.
    pub open spec fn with_result_flags(self, value: u8) -> Registers {
        Registers {
            sr: with_bits(
                with_bits(self.sr, Flag::Z.spec_mask(), value == 0),
                Flag::N.spec_mask(),
                bit7(value),
            ),
            ..self
        }
    }

    /// The register file at power-on: every register zero, every flag clear.
    pub fn new() -> (r: Self)
        ensures
            r == (Registers { a: 0, x: 0, y: 0, pc: 0, sp: 0, sr: 0 }),
            forall|f: Flag| !r.flag(f),
    {
        assert(forall|m: u8| 0u8 & m == 0) by (bit_vector);
        Registers { a: 0, x: 0, y: 0, pc: 0, sp: 0, sr: 0 }
    }

    /// Reads flag `f`.
    pub fn get_flag(&self, f: Flag) -> (b: bool)
        ensures
            b == self.flag(f),
    {
        self.sr & f.mask() != 0
    }

    /// Sets flag `f` to `b` and leaves every other bit of the status
    /// register, and every other register, as it was.
    pub fn set_flag(&mut self, f: Flag, b: bool)
        ensures
            final(self).sr == with_bits(old(self).sr, f.spec_mask(), b),
            final(self).flag(f) == b,
            forall|g: Flag| g != f ==> final(self).flag(g) == old(self).flag(g),
            final(self).sr & !f.spec_mask() == old(self).sr & !f.spec_mask(),
            *final(self) == (Registers { sr: final(self).sr, ..*old(self) }),
    {
        let mask: u8 = f.mask();
        proof {
            lemma_with_bits(self.sr, f, b);
        }
        if b {
            self.sr |= mask;
        } else {
            self.sr &= !mask;
        }
    }

    /// Records a result byte in the flags: Zero is set exactly when the
    /// byte is zero, Negative exactly when its bit 7 is set. Nothing else
    /// changes.
    pub fn set_result_flags(&mut self, value: u8)
        ensures
            *final(self) == old(self).with_result_flags(value),
            final(self).flag(Flag::Z) == (value == 0),
            final(self).flag(Flag::N) == bit7(value),
            forall|g: Flag|
                g != Flag::Z && g != Flag::N ==> final(self).flag(g) == old(self).flag(g),
            final(self).sr & !0x82u8 == old(self).sr & !0x82u8,
    {
        proof {
            lemma_result_flags(*self, value);
            lemma_bit7(value);
        }
        self.set_flag(Flag::Z, value == 0);
        self.set_flag(Flag::N, value & 0x80 != 0);
    }
}

/// Recording a result sets Zero and Negative as the result says and keeps
/// the other six bits of the status byte.
pub proof fn lemma_result_flags(r: Registers, value: u8)
    ensures
        r.with_result_flags(value).flag(Flag::Z) == (value == 0),
        r.with_result_flags(value).flag(Flag::N) == bit7(value),
        forall|g: Flag|
            g != Flag::Z && g != Flag::N ==> r.with_result_flags(value).flag(g) == r.flag(g),
        r.with_result_flags(value).sr & !0x82u8 == r.sr & !0x82u8,
{
    let mid: u8 = with_bits(r.sr, Flag::Z.spec_mask(), value == 0);
    lemma_with_bits(r.sr, Flag::Z, value == 0);
    lemma_with_bits(mid, Flag::N, bit7(value));
    let sr: u8 = r.sr;
    let out: u8 = r.with_result_flags(value).sr;
    assert(out & !0x82u8 == sr & !0x82u8) by (bit_vector)
        requires
            mid & !0x02u8 == sr & !0x02u8,
            out & !0x80u8 == mid & !0x80u8,
    ;
}

/// A byte is `0x80` or more exactly when masking it with `0x80` leaves a bit.
pub proof fn lemma_bit7(value: u8)
    by (bit_vector)
    ensures
        (value & 0x80 != 0) == (value >= 0x80),
{
}

/// Setting or clearing the bit of one flag changes that flag and nothing
/// else in the status byte.
pub proof fn lemma_with_bits(sr: u8, f: Flag, b: bool)
    ensures
        (with_bits(sr, f.spec_mask(), b) & f.spec_mask() != 0) == b,
        forall|g: Flag|
            g != f ==> (with_bits(sr, f.spec_mask(), b) & #[trigger] g.spec_mask() != 0) == (sr
                & g.spec_mask() != 0),
        with_bits(sr, f.spec_mask(), b) & !f.spec_mask() == sr & !f.spec_mask(),
{
    lemma_mask_is_single_bit(f);
    lemma_single_bit(sr, f.bit(), f.bit());
    assert forall|g: Flag| g != f implies (with_bits(sr, f.spec_mask(), b) & #[trigger]
        g.spec_mask() != 0) == (sr & g.spec_mask() != 0) by {
        lemma_mask_is_single_bit(g);
        lemma_single_bit(sr, f.bit(), g.bit());
    }
}

/// Each mask of the table is the single bit at the flag's position, so the
/// masks of two different flags share no bit.
pub proof fn lemma_mask_is_single_bit(f: Flag)
    ensures
        f.bit() < 8,
        f.bit() != 5,
        f.spec_mask() == 1u8 << f.bit(),
{
    assert(0x80u8 == 1u8 << 7u8 && 0x40u8 == 1u8 << 6u8 && 0x10u8 == 1u8 << 4u8 && 0x08u8 == 1u8
        << 3u8 && 0x04u8 == 1u8 << 2u8 && 0x02u8 == 1u8 << 1u8 && 0x01u8 == 1u8 << 0u8)
        by (bit_vector);
}

proof fn lemma_single_bit(sr: u8, i: u8, j: u8)
    by (bit_vector)
    requires
        i < 8,
        j < 8,
    ensures
        (sr | (1u8 << i)) & (1u8 << i) != 0,
        (sr & !(1u8 << i)) & (1u8 << i) == 0,
        (sr | (1u8 << i)) & !(1u8 << i) == sr & !(1u8 << i),
        (sr & !(1u8 << i)) & !(1u8 << i) == sr & !(1u8 << i),
        i != j ==> (sr | (1u8 << i)) & (1u8 << j) == sr & (1u8 << j),
        i != j ==> (sr & !(1u8 << i)) & (1u8 << j) == sr & (1u8 << j),
{
}

} // verus!
