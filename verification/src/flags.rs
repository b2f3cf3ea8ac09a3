use vstd::prelude::*;

verus! {

/// The CPU flag register F: zero, subtract, half-carry and carry.
/// In the byte form these are bits 7, 6, 5 and 4; the low nibble always reads as 0.
#[derive(Clone, Copy, Debug, PartialEq, Eq, Structural)]
pub struct Flags {
    pub z: bool,
    pub n: bool,
    pub h: bool,
    pub c: bool,
}

/// Jump conditions of the conditional branch instructions.
#[derive(Clone, Copy, Debug, PartialEq, Eq, Structural)]
pub enum Condition {
    NZ,
    Z,
    NC,
    C,
}

pub open spec fn bit_if(b: bool, mask: u8) -> u8 {
    if b { mask } else { 0 }
}

impl Flags {
    /// The byte value of the flag register.
    pub open spec fn spec_bits(self) -> u8 {
        (bit_if(self.z, 0x80) | bit_if(self.n, 0x40) | bit_if(self.h, 0x20) | bit_if(self.c, 0x10))
    }

    /// The flags encoded by a byte; the low nibble is ignored.
    pub open spec fn spec_from_bits(value: u8) -> Flags {
        Flags {
            z: value & 0x80 != 0,
            n: value & 0x40 != 0,
            h: value & 0x20 != 0,
            c: value & 0x10 != 0,
        }
    }

    pub fn empty() -> (r: Flags)
        ensures
            r == (Flags { z: false, n: false, h: false, c: false }),
    {
        Flags { z: false, n: false, h: false, c: false }
    }

    pub fn bits(&self) -> (r: u8)
        ensures
            r == self.spec_bits(),
    {
        let z: u8 = if self.z { 0x80 } else { 0 };
        let n: u8 = if self.n { 0x40 } else { 0 };
        let h: u8 = if self.h { 0x20 } else { 0 };
        let c: u8 = if self.c { 0x10 } else { 0 };
        z | n | h | c
    }

    pub fn from_bits_truncate(value: u8) -> (r: Flags)
        ensures
            r == Flags::spec_from_bits(value),
    {
        Flags {
            z: value & 0x80 != 0,
            n: value & 0x40 != 0,
            h: value & 0x20 != 0,
            c: value & 0x10 != 0,
        }
    }
}

/// Decoding the byte form of any flag register gives the flags back.
pub proof fn lemma_flags_bits_roundtrip(f: Flags)
    ensures
        Flags::spec_from_bits(f.spec_bits()) == f,
{
    let (z, n, h, c) = (f.z, f.n, f.h, f.c);
    let b = f.spec_bits();
    assert((b & 0x80 != 0 <==> z) && (b & 0x40 != 0 <==> n) && (b & 0x20 != 0 <==> h) && (b & 0x10 != 0 <==> c))
        by (bit_vector)
        requires b == (bit_if(z, 0x80) | bit_if(n, 0x40) | bit_if(h, 0x20) | bit_if(c, 0x10));
}

/// Encoding decoded flags keeps exactly the upper nibble of the byte.
pub proof fn lemma_flags_from_bits_truncates(value: u8)
    ensures
        Flags::spec_from_bits(value).spec_bits() == value & 0xF0,
{
    let f = Flags::spec_from_bits(value);
    assert((bit_if(value & 0x80 != 0, 0x80) | bit_if(value & 0x40 != 0, 0x40) | bit_if(value & 0x20 != 0, 0x20) | bit_if(value & 0x10 != 0, 0x10)) == value & 0xF0) by (bit_vector);
}

} // verus!
