//! Register file: eight 8-bit registers, four 16-bit pair views (AF, BC, DE,
//! HL, big-endian composition), and the packed flags byte.

use vstd::prelude::*;

verus! {

/// The four CPU flags. Packed into bits 7 (zero), 6 (subtract),
/// 5 (half-carry) and 4 (carry) of the F register; bits 3..0 are always zero.
#[derive(Clone, Copy, Debug, PartialEq, Eq, Structural)]
pub struct FlagsRegister {
    pub zero: bool,
    pub subtract: bool,
    pub half_carry: bool,
    pub carry: bool,
}

/// The flags byte: bit 7 = zero, bit 6 = subtract, bit 5 = half-carry,
/// bit 4 = carry, bits 3..0 = 0.
pub open spec fn spec_flags_to_byte(f: FlagsRegister) -> u8 {
    ((if f.zero { 128int } else { 0int }) + (if f.subtract { 64int } else { 0int })
        + (if f.half_carry { 32int } else { 0int }) + (if f.carry { 16int } else { 0int })) as u8
}

/// Reading the flags back out of a byte; bits 3..0 are ignored.
pub open spec fn spec_byte_to_flags(b: u8) -> FlagsRegister {
    FlagsRegister {
        zero: (b as int / 128) % 2 == 1,
        subtract: (b as int / 64) % 2 == 1,
        half_carry: (b as int / 32) % 2 == 1,
        carry: (b as int / 16) % 2 == 1,
    }
}

impl FlagsRegister {
    /// Pack the four flags into the F byte.
    pub fn to_byte(&self) -> (r: u8)
        ensures
            r == spec_flags_to_byte(*self),
    {
        let z: u8 = if self.zero { 128 } else { 0 };
        let n: u8 = if self.subtract { 64 } else { 0 };
        let h: u8 = if self.half_carry { 32 } else { 0 };
        let c: u8 = if self.carry { 16 } else { 0 };
        z + n + h + c
    }

    /// Unpack an F byte into the four flags; the low nibble is ignored.
    pub fn from_byte(b: u8) -> (r: FlagsRegister)
        ensures
            r == spec_byte_to_flags(b),
    {
        FlagsRegister {
            zero: (b / 128) % 2 == 1,
            subtract: (b / 64) % 2 == 1,
            half_carry: (b / 32) % 2 == 1,
            carry: (b / 16) % 2 == 1,
        }
    }

    /// Reset every flag to false.
    pub fn clear_all(&mut self)
        ensures
            *final(self) == (FlagsRegister { zero: false, subtract: false, half_carry: false, carry: false }),
    {
        self.zero = false;
        self.subtract = false;
        self.half_carry = false;
        self.carry = false;
    }
}

/// Converting the flags to a byte and back recovers the flags exactly, for
/// every combination of the four booleans, and the byte's low nibble is zero.
pub proof fn lemma_flags_roundtrip(f: FlagsRegister)
    ensures
        spec_byte_to_flags(spec_flags_to_byte(f)) == f,
        spec_flags_to_byte(f) % 16 == 0,
        spec_flags_to_byte(f) & 0x0F == 0,
{
    let b = spec_flags_to_byte(f);
    assert(b % 16 == 0);
    assert(b & 0x0F == 0) by (bit_vector)
        requires
            b % 16 == 0,
    ;
}

/// The register file. Pairs are views over the eight cells: AF, BC, DE and HL
/// each compose two 8-bit halves with the first register as the high byte.
#[derive(Clone, Copy, Debug, PartialEq, Eq, Structural)]
pub struct Registers {
    pub a: u8,
    pub b: u8,
    pub c: u8,
    pub d: u8,
    pub e: u8,
    pub f: FlagsRegister,
    pub h: u8,
    pub l: u8,
}

/// Big-endian composition of two bytes into a 16-bit value.
pub open spec fn spec_pair(hi: u8, lo: u8) -> u16 {
    (hi as int * 256 + lo as int) as u16
}

impl Registers {
    pub open spec fn spec_af(&self) -> u16 {
        spec_pair(self.a, spec_flags_to_byte(self.f))
    }

    pub open spec fn spec_bc(&self) -> u16 {
        spec_pair(self.b, self.c)
    }

    pub open spec fn spec_de(&self) -> u16 {
        spec_pair(self.d, self.e)
    }

    pub open spec fn spec_hl(&self) -> u16 {
        spec_pair(self.h, self.l)
    }

    pub fn get_af(&self) -> (r: u16)
        ensures
            r == self.spec_af(),
    {
        let f: u8 = self.f.to_byte();
        (self.a as u16) * 256 + (f as u16)
    }

    pub fn get_bc(&self) -> (r: u16)
        ensures
            r == self.spec_bc(),
    {
        (self.b as u16) * 256 + (self.c as u16)
    }

    pub fn get_de(&self) -> (r: u16)
        ensures
            r == self.spec_de(),
    {
        (self.d as u16) * 256 + (self.e as u16)
    }

    pub fn get_hl(&self) -> (r: u16)
        ensures
            r == self.spec_hl(),
    {
        (self.h as u16) * 256 + (self.l as u16)
    }

    /// Write the AF pair: A takes the high byte, the flags take the low byte
    /// (whose low nibble is discarded by the packing).
    pub fn set_af(&mut self, value: u16)
        ensures
            *final(self) == (Registers {
                a: (value as int / 256) as u8,
                f: spec_byte_to_flags((value as int % 256) as u8),
                ..*old(self)
            }),
    {
        self.a = (value / 256) as u8;
        self.f = FlagsRegister::from_byte((value % 256) as u8);
    }

    pub fn set_bc(&mut self, value: u16)
        ensures
            *final(self) == (Registers {
                b: (value as int / 256) as u8,
                c: (value as int % 256) as u8,
                ..*old(self)
            }),
    {
        self.b = (value / 256) as u8;
        self.c = (value % 256) as u8;
    }

    pub fn set_de(&mut self, value: u16)
        ensures
            *final(self) == (Registers {
                d: (value as int / 256) as u8,
                e: (value as int % 256) as u8,
                ..*old(self)
            }),
    {
        self.d = (value / 256) as u8;
        self.e = (value % 256) as u8;
    }

    pub fn set_hl(&mut self, value: u16)
        ensures
            *final(self) == (Registers {
                h: (value as int / 256) as u8,
                l: (value as int % 256) as u8,
                ..*old(self)
            }),
    {
        self.h = (value / 256) as u8;
        self.l = (value % 256) as u8;
    }
}

} // verus!
