use vstd::prelude::*;
use crate::cpu::CPU;
use crate::flags::{Condition, Flags};

verus! {

/// Half-carry of an 8-bit addition: a carry out of bit 3.
pub open spec fn add_half_carry(a: u8, v: u8, carry: int) -> bool {
    (a % 16) + (v % 16) + carry > 15
}

/// Carry of an 8-bit addition: a carry out of bit 7.
pub open spec fn add_carry(a: u8, v: u8, carry: int) -> bool {
    a + v + carry > 255
}

/// Half-borrow of an 8-bit subtraction: a borrow from bit 4.
pub open spec fn sub_half_borrow(a: u8, v: u8, carry: int) -> bool {
    (a % 16) < (v % 16) + carry
}

/// Borrow of an 8-bit subtraction.
pub open spec fn sub_borrow(a: u8, v: u8, carry: int) -> bool {
    a < v + carry
}

/// The 8-bit result of a + v + carry.
pub open spec fn add8(a: u8, v: u8, carry: int) -> u8 {
    ((a + v + carry) % 256) as u8
}

/// The 8-bit result of a - v - carry.
pub open spec fn sub8(a: u8, v: u8, carry: int) -> u8 {
    ((a - v - carry + 512) % 256) as u8
}

impl CPU {
    pub open spec fn with_flags(self, f: Flags) -> CPU {
        CPU { f: f, ..self }
    }

    pub open spec fn spec_condition(self, condition: Condition) -> bool {
        match condition {
            Condition::NZ => !self.f.z,
            Condition::Z => self.f.z,
            Condition::NC => !self.f.c,
            Condition::C => self.f.c,
        }
    }

    /// Z from the result, N as given; H and C unchanged.
    pub fn set_zn_flags(&mut self, result: u8, set_n: bool)
        ensures
            *final(self) == old(self).with_flags(Flags { z: result == 0, n: set_n, ..old(self).f }),
    {
        self.f.z = result == 0;
        self.f.n = set_n;
    }

    /// H and C of an addition a + value + carry; Z and N unchanged.
    pub fn set_add_flags(&mut self, operand: u8, value: u8, carry: u8)
        requires
            (operand % 16) + (value % 16) + carry <= 255,
        ensures
            *final(self) == old(self).with_flags(Flags {
                h: add_half_carry(operand, value, carry as int),
                c: add_carry(operand, value, carry as int),
                ..old(self).f
            }),
    {
        let o = operand & 0xF;
        let v = value & 0xF;
        proof {
            assert(operand & 0xF == operand % 16) by { crate::bits::lemma_byte_bits(); crate::bits::lemma_word_bits(); }
            assert(value & 0xF == value % 16) by { crate::bits::lemma_byte_bits(); crate::bits::lemma_word_bits(); }
        }
        let bit3 = o + v + carry > 0xF;
        let bit7 = (operand as u16) + (value as u16) + (carry as u16) > 0xFF;
        self.f.h = bit3;
        self.f.c = bit7;
    }

    /// H and C of a subtraction a - value - carry; Z and N unchanged.
    pub fn set_sub_flags(&mut self, operand: u8, value: u8, carry: u8)
        requires
            (value % 16) + carry <= 255,
        ensures
            *final(self) == old(self).with_flags(Flags {
                h: sub_half_borrow(operand, value, carry as int),
                c: sub_borrow(operand, value, carry as int),
                ..old(self).f
            }),
    {
        proof {
            assert(operand & 0xF == operand % 16) by { crate::bits::lemma_byte_bits(); crate::bits::lemma_word_bits(); }
            assert(value & 0xF == value % 16) by { crate::bits::lemma_byte_bits(); crate::bits::lemma_word_bits(); }
        }
        let half_borrow = (operand & 0xF) < (value & 0xF) + carry;
        let full_borrow = (operand as u16) < (value as u16) + (carry as u16);
        self.f.h = half_borrow;
        self.f.c = full_borrow;
    }

    /// Whether a branch condition holds on the current flags.
    pub fn should_jump(&self, condition: Condition) -> (r: bool)
        ensures
            r == self.spec_condition(condition),
    {
        match condition {
            Condition::NZ => !self.f.z,
            Condition::Z => self.f.z,
            Condition::NC => !self.f.c,
            Condition::C => self.f.c,
        }
    }
}

} // verus!

verus! {

impl CPU {
    /// The carry input of an ADC/SBC: the C flag when the carry is used.
    pub open spec fn carry_in(self, use_carry: bool) -> int {
        if use_carry && self.f.c { 1 } else { 0 }
    }

    /// ADD/ADC A, v: A = A + v (+ C); Z from the result, N=0, H and C from the carries.
    pub open spec fn spec_add_a(self, v: u8, use_carry: bool) -> CPU {
        let cin = self.carry_in(use_carry);
        let r = add8(self.a, v, cin);
        CPU {
            a: r,
            f: Flags { z: r == 0, n: false, h: add_half_carry(self.a, v, cin), c: add_carry(self.a, v, cin) },
            ..self
        }
    }

    /// The flags of SUB/SBC/CP A, v.
    pub open spec fn spec_sub_flags(self, v: u8, use_carry: bool) -> Flags {
        let cin = self.carry_in(use_carry);
        Flags {
            z: sub8(self.a, v, cin) == 0,
            n: true,
            h: sub_half_borrow(self.a, v, cin),
            c: sub_borrow(self.a, v, cin),
        }
    }

    /// SUB/SBC A, v: A = A - v (- C).
    pub open spec fn spec_sub_a(self, v: u8, use_carry: bool) -> CPU {
        CPU { a: sub8(self.a, v, self.carry_in(use_carry)), f: self.spec_sub_flags(v, use_carry), ..self }
    }

    /// CP A, v: the flags of A - v; A unchanged.
    pub open spec fn spec_cp_a(self, v: u8) -> CPU {
        CPU { f: self.spec_sub_flags(v, false), ..self }
    }

    /// AND/XOR/OR A, v: A = result; Z from it, N=0, C=0, H=1 for AND only.
    pub open spec fn spec_logic_a(self, r: u8, set_h: bool) -> CPU {
        CPU { a: r, f: Flags { z: r == 0, n: false, h: set_h, c: false }, ..self }
    }

    pub open spec fn spec_and_a(self, v: u8) -> CPU {
        self.spec_logic_a(self.a & v, true)
    }

    pub open spec fn spec_xor_a(self, v: u8) -> CPU {
        self.spec_logic_a(self.a ^ v, false)
    }

    pub open spec fn spec_or_a(self, v: u8) -> CPU {
        self.spec_logic_a(self.a | v, false)
    }

    /// The 8-bit arithmetic core shared by ADD, ADC, SUB, SBC and CP.
    pub fn alu_arith(&mut self, value: u8, is_subtract: bool, use_carry: bool, update_a: bool)
        ensures
            !is_subtract ==> *final(self) == old(self).spec_add_a(value, use_carry),
            is_subtract && update_a ==> *final(self) == old(self).spec_sub_a(value, use_carry),
            is_subtract && !update_a && !use_carry ==> *final(self) == old(self).spec_cp_a(value),
    {
        let a_in = self.a;
        let carry: u8 = if use_carry && self.f.c { 1 } else { 0 };
        let result = if is_subtract {
            a_in.wrapping_sub(value).wrapping_sub(carry)
        } else {
            a_in.wrapping_add(value).wrapping_add(carry)
        };
        if is_subtract {
            self.set_sub_flags(a_in, value, carry);
        } else {
            self.set_add_flags(a_in, value, carry);
        }
        self.set_zn_flags(result, is_subtract);
        if update_a || !is_subtract {
            self.a = result;
        }
    }

    /// The bitwise core shared by AND, XOR and OR.
    pub fn alu_logic(&mut self, result: u8, set_h: bool)
        ensures
            *final(self) == old(self).spec_logic_a(result, set_h),
    {
        self.set_zn_flags(result, false);
        self.f.h = set_h;
        self.f.c = false;
        self.a = result;
    }
}

} // verus!
