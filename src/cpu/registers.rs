use vstd::prelude::*;

use crate::cpu::instructions::Register;

verus! {

/// The four condition flags of the F register.
///
/// As a byte they sit at bit 7 (zero), bit 6 (subtract), bit 5 (half-carry)
/// and bit 4 (carry); the low nibble of that byte is always zero.
#[derive(Debug, Clone, Copy, PartialEq, Eq, Structural)]
pub struct Flags {
    pub zero: bool,
    pub subtract: bool,
    pub half_carry: bool,
    pub carry: bool,
}

/// Names one of the four condition flags.
#[derive(Debug, Clone, Copy, PartialEq, Eq, Structural)]
pub enum Flag {
    Zero,
    Subtract,
    HalfCarry,
    Carry,
}

/// `mask` when the flag is set, else no bits.
pub open spec fn bit_if(set: bool, mask: u8) -> u8 {
    if set {
        mask
    } else {
        0
    }
}

impl Flags {
    pub open spec fn spec_to_byte(&self) -> u8 {
        bit_if(self.zero, 0x80) | bit_if(self.subtract, 0x40) | bit_if(self.half_carry, 0x20)
            | bit_if(self.carry, 0x10)
    }

    pub open spec fn spec_from_byte(b: u8) -> Flags {
        Flags {
            zero: b & 0x80 != 0,
            subtract: b & 0x40 != 0,
            half_carry: b & 0x20 != 0,
            carry: b & 0x10 != 0,
        }
    }

    pub open spec fn spec_get(&self, flag: Flag) -> bool {
        match flag {
            Flag::Zero => self.zero,
            Flag::Subtract => self.subtract,
            Flag::HalfCarry => self.half_carry,
            Flag::Carry => self.carry,
        }
    }

    pub open spec fn with(self, flag: Flag, value: bool) -> Flags {
        match flag {
            Flag::Zero => Flags { zero: value, ..self },
            Flag::Subtract => Flags { subtract: value, ..self },
            Flag::HalfCarry => Flags { half_carry: value, ..self },
            Flag::Carry => Flags { carry: value, ..self },
        }
    }

    /// All four flags at once.
    pub fn new(zero: bool, subtract: bool, half_carry: bool, carry: bool) -> (r: Flags)
        ensures
            r == (Flags { zero, subtract, half_carry, carry }),
    {
        Flags { zero, subtract, half_carry, carry }
    }

    /// Unpacks an F register byte; the low nibble is ignored.
    #[verifier::when_used_as_spec(spec_from_byte)]
    pub fn from_byte(b: u8) -> (r: Flags)
        ensures
            r == Flags::spec_from_byte(b),
    {
        Flags {
            zero: b & 0x80 != 0,
            subtract: b & 0x40 != 0,
            half_carry: b & 0x20 != 0,
            carry: b & 0x10 != 0,
        }
    }

    /// Packs the flags into an F register byte with a zero low nibble.
    #[verifier::when_used_as_spec(spec_to_byte)]
    pub fn to_byte(&self) -> (r: u8)
        ensures
            r == self.spec_to_byte(),
    {
        (if self.zero {
            0x80u8
        } else {
            0
        }) | (if self.subtract {
            0x40u8
        } else {
            0
        }) | (if self.half_carry {
            0x20u8
        } else {
            0
        }) | (if self.carry {
            0x10u8
        } else {
            0
        })
    }

    #[verifier::when_used_as_spec(spec_get)]
    pub fn get(&self, flag: Flag) -> (r: bool)
        ensures
            r == self.spec_get(flag),
    {
        match flag {
            Flag::Zero => self.zero,
            Flag::Subtract => self.subtract,
            Flag::HalfCarry => self.half_carry,
            Flag::Carry => self.carry,
        }
    }

    pub fn set(&mut self, flag: Flag, value: bool)
        ensures
            *final(self) == old(self).with(flag, value),
    {
        match flag {
            Flag::Zero => self.zero = value,
            Flag::Subtract => self.subtract = value,
            Flag::HalfCarry => self.half_carry = value,
            Flag::Carry => self.carry = value,
        }
    }
}

impl Default for Flags {
    fn default() -> (r: Flags)
        ensures
            r == (Flags { zero: false, subtract: false, half_carry: false, carry: false }),
    {
        Flags { zero: false, subtract: false, half_carry: false, carry: false }
    }
}

/// Splitting a byte into the four flags and packing them again gives the
/// byte back with its unused low nibble cleared.
pub proof fn lemma_flags_byte_round_trip(b: u8)
    ensures
        Flags::spec_from_byte(b).spec_to_byte() == b & 0xF0,
{
    assert(bit_if(b & 0x80 != 0, 0x80) | bit_if(b & 0x40 != 0, 0x40) | bit_if(b & 0x20 != 0, 0x20)
        | bit_if(b & 0x10 != 0, 0x10) == b & 0xF0) by (bit_vector);
}

/// Packing the flags into a byte gives a zero low nibble, and unpacking that
/// byte gives the same flags.
pub proof fn lemma_flags_pack_unpack(f: Flags)
    ensures
        f.spec_to_byte() & 0x0F == 0,
        Flags::spec_from_byte(f.spec_to_byte()) == f,
{
    let (z, n, h, c) = (f.zero, f.subtract, f.half_carry, f.carry);
    let byte = bit_if(z, 0x80) | bit_if(n, 0x40) | bit_if(h, 0x20) | bit_if(c, 0x10);
    assert(byte & 0x0F == 0) by (bit_vector)
        requires
            byte == bit_if(z, 0x80) | bit_if(n, 0x40) | bit_if(h, 0x20) | bit_if(c, 0x10),
    ;
    assert(byte & 0x80 != 0 <==> z) by (bit_vector)
        requires
            byte == bit_if(z, 0x80) | bit_if(n, 0x40) | bit_if(h, 0x20) | bit_if(c, 0x10),
    ;
    assert(byte & 0x40 != 0 <==> n) by (bit_vector)
        requires
            byte == bit_if(z, 0x80) | bit_if(n, 0x40) | bit_if(h, 0x20) | bit_if(c, 0x10),
    ;
    assert(byte & 0x20 != 0 <==> h) by (bit_vector)
        requires
            byte == bit_if(z, 0x80) | bit_if(n, 0x40) | bit_if(h, 0x20) | bit_if(c, 0x10),
    ;
    assert(byte & 0x10 != 0 <==> c) by (bit_vector)
        requires
            byte == bit_if(z, 0x80) | bit_if(n, 0x40) | bit_if(h, 0x20) | bit_if(c, 0x10),
    ;
}

/// The 16-bit value of a register pair, high byte first.
pub open spec fn pair_value(hi: u8, lo: u8) -> u16 {
    (hi * 256 + lo) as u16
}

/// The high byte of a 16-bit value.
pub open spec fn high_byte(w: u16) -> u8 {
    (w / 256) as u8
}

/// The low byte of a 16-bit value.
pub open spec fn low_byte(w: u16) -> u8 {
    (w % 256) as u8
}

/// The register file: seven 8-bit registers and the flags register.
///
/// The pairs AF, BC, DE and HL are views of two registers each, not storage
/// of their own.
#[derive(Debug, Clone, Copy, PartialEq, Eq, Structural)]
pub struct Registers {
    pub a: u8,
    pub b: u8,
    pub c: u8,
    pub d: u8,
    pub e: u8,
    pub f: Flags,
    pub h: u8,
    pub l: u8,
}

impl Registers {
    pub open spec fn get(self, r: Register) -> u8 {
        match r {
            Register::A => self.a,
            Register::B => self.b,
            Register::C => self.c,
            Register::D => self.d,
            Register::E => self.e,
            Register::H => self.h,
            Register::L => self.l,
        }
    }

    pub open spec fn with(self, r: Register, v: u8) -> Registers {
        match r {
            Register::A => Registers { a: v, ..self },
            Register::B => Registers { b: v, ..self },
            Register::C => Registers { c: v, ..self },
            Register::D => Registers { d: v, ..self },
            Register::E => Registers { e: v, ..self },
            Register::H => Registers { h: v, ..self },
            Register::L => Registers { l: v, ..self },
        }
    }

    pub open spec fn spec_af(&self) -> u16 {
        pair_value(self.a, self.f.spec_to_byte())
    }

    pub open spec fn spec_bc(&self) -> u16 {
        pair_value(self.b, self.c)
    }

    pub open spec fn spec_de(&self) -> u16 {
        pair_value(self.d, self.e)
    }

    pub open spec fn spec_hl(&self) -> u16 {
        pair_value(self.h, self.l)
    }

    pub open spec fn with_af(self, w: u16) -> Registers {
        Registers { a: high_byte(w), f: Flags::spec_from_byte(low_byte(w)), ..self }
    }

    pub open spec fn with_bc(self, w: u16) -> Registers {
        Registers { b: high_byte(w), c: low_byte(w), ..self }
    }

    pub open spec fn with_de(self, w: u16) -> Registers {
        Registers { d: high_byte(w), e: low_byte(w), ..self }
    }

    pub open spec fn with_hl(self, w: u16) -> Registers {
        Registers { h: high_byte(w), l: low_byte(w), ..self }
    }

    pub fn read(&self, r: Register) -> (v: u8)
        ensures
            v == self.get(r),
    {
        match r {
            Register::A => self.a,
            Register::B => self.b,
            Register::C => self.c,
            Register::D => self.d,
            Register::E => self.e,
            Register::H => self.h,
            Register::L => self.l,
        }
    }

    pub fn write(&mut self, r: Register, v: u8)
        ensures
            *final(self) == old(self).with(r, v),
    {
        match r {
            Register::A => self.a = v,
            Register::B => self.b = v,
            Register::C => self.c = v,
            Register::D => self.d = v,
            Register::E => self.e = v,
            Register::H => self.h = v,
            Register::L => self.l = v,
        }
    }

    #[verifier::when_used_as_spec(spec_af)]
    pub fn af(&self) -> (w: u16)
        ensures
            w == self.spec_af(),
    {
        (self.a as u16) * 256 + (self.f.to_byte() as u16)
    }

    #[verifier::when_used_as_spec(spec_bc)]
    pub fn bc(&self) -> (w: u16)
        ensures
            w == self.spec_bc(),
    {
        (self.b as u16) * 256 + (self.c as u16)
    }

    #[verifier::when_used_as_spec(spec_de)]
    pub fn de(&self) -> (w: u16)
        ensures
            w == self.spec_de(),
    {
        (self.d as u16) * 256 + (self.e as u16)
    }

    #[verifier::when_used_as_spec(spec_hl)]
    pub fn hl(&self) -> (w: u16)
        ensures
            w == self.spec_hl(),
    {
        (self.h as u16) * 256 + (self.l as u16)
    }

    /// Writes AF; the low nibble of the flags byte is dropped.
    pub fn set_af(&mut self, w: u16)
        ensures
            *final(self) == old(self).with_af(w),
    {
        self.a = (w / 256) as u8;
        self.f = Flags::from_byte((w % 256) as u8);
    }

    pub fn set_bc(&mut self, w: u16)
        ensures
            *final(self) == old(self).with_bc(w),
    {
        self.b = (w / 256) as u8;
        self.c = (w % 256) as u8;
    }

    pub fn set_de(&mut self, w: u16)
        ensures
            *final(self) == old(self).with_de(w),
    {
        self.d = (w / 256) as u8;
        self.e = (w % 256) as u8;
    }

    pub fn set_hl(&mut self, w: u16)
        ensures
            *final(self) == old(self).with_hl(w),
    {
        self.h = (w / 256) as u8;
        self.l = (w % 256) as u8;
    }
}

impl Default for Registers {
    /// All registers and flags zero.
    fn default() -> (r: Registers)
        ensures
            r == (Registers {
                a: 0,
                b: 0,
                c: 0,
                d: 0,
                e: 0,
                f: Flags { zero: false, subtract: false, half_carry: false, carry: false },
                h: 0,
                l: 0,
            }),
    {
        Registers { a: 0, b: 0, c: 0, d: 0, e: 0, f: Flags::default(), h: 0, l: 0 }
    }
}

/// Writing a 16-bit value to BC, DE or HL and reading the pair back gives the
/// value; through AF it comes back with its low nibble cleared.
pub proof fn lemma_pair_round_trip(regs: Registers, w: u16)
    ensures
        regs.with_bc(w).spec_bc() == w,
        regs.with_de(w).spec_de() == w,
        regs.with_hl(w).spec_hl() == w,
        regs.with_af(w).spec_af() == w & 0xFFF0,
        regs.with_af(w).f.spec_to_byte() & 0x0F == 0,
{
    let lo = low_byte(w);
    lemma_flags_byte_round_trip(lo);
    assert(lo & 0xF0 == lo - lo % 16) by (bit_vector);
    assert(w & 0xFFF0 == w - w % 16) by (bit_vector);
    assert(w / 256 * 256 + w % 256 - w % 256 % 16 == w - w % 16) by (nonlinear_arith);
    assert((lo & 0xF0) & 0x0F == 0) by (bit_vector);
}

} // verus!
