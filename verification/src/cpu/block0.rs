use vstd::prelude::*;
use crate::bus::{MemoryInterface, word, next_address, low_byte, high_byte};
use crate::cpu::CPU;
use crate::cpu::alu::{add8, sub8};
use crate::cpu::registers::{Register16, Register16Mem, Register8};
use crate::flags::{Condition, Flags};

verus! {

/// A byte read as a two's-complement signed offset.
pub open spec fn signed8(b: u8) -> int {
    if b < 128 { b as int } else { b - 256 }
}

/// A 16-bit address moved by a signed offset, wrapping around.
pub open spec fn offset16(x: u16, off: int) -> u16 {
    ((x + off + 65536) % 65536) as u16
}

/// The sign-extended offset of a relative jump, added with wrap-around.
pub fn add_signed_offset(x: u16, imm8: u8) -> (r: u16)
    ensures
        r == offset16(x, signed8(imm8)),
{
    let offset: u16 = if imm8 < 128 { imm8 as u16 } else { (imm8 as u16) + 0xFF00 };
    x.wrapping_add(offset)
}

pub open spec fn rotate_left8(v: u8) -> u8 {
    ((v * 2) % 256 + v / 128) as u8
}

pub open spec fn rotate_right8(v: u8) -> u8 {
    (v / 2 + (v % 2) * 128) as u8
}

/// The value DAA leaves in A, and the carry it sets.
pub open spec fn daa_result(a: u8, f: Flags) -> (u8, bool) {
    if f.n {
        let r1 = if f.c { sub8(a, 0x60, 0) } else { a };
        let r2 = if f.h { sub8(r1, 0x06, 0) } else { r1 };
        (r2, f.c)
    } else {
        let carry = f.c || a > 0x99;
        let r1 = if carry { add8(a, 0x60, 0) } else { a };
        let r2 = if f.h || r1 % 16 > 9 { add8(r1, 0x06, 0) } else { r1 };
        (r2, carry)
    }
}

/// The BCD adjustment of DAA on a value and the current flags.
pub fn daa_compute(a_in: u8, f: Flags) -> (r: (u8, bool))
    ensures
        r == daa_result(a_in, f),
{
    let mut result = a_in;
    let mut carry = f.c;
    if f.n {
        if f.c {
            result = result.wrapping_sub(0x60);
        }
        if f.h {
            result = result.wrapping_sub(0x06);
        }
    } else {
        if f.c || result > 0x99 {
            result = result.wrapping_add(0x60);
            carry = true;
        }
        proof {
            assert(result & 0x0F == result % 16) by { crate::bits::lemma_byte_bits(); crate::bits::lemma_word_bits(); }
        }
        if f.h || (result & 0x0F) > 0x09 {
            result = result.wrapping_add(0x06);
        }
    }
    (result, carry)
}

impl CPU {
    pub fn nop(&mut self)
        ensures
            *final(self) == *old(self),
    {
    }

    /// LD r16, imm16
    pub fn ld_r16_imm16<M: MemoryInterface>(&mut self, register: Register16, memory: &mut M)
        requires
            old(memory).mem_wf(),
        ensures
            *final(self) == (CPU { pc: old(self).pc.wrapping_add(2), ..*old(self) }).with_r16(
                register,
                word(old(memory).spec_read_byte(old(self).pc), old(memory).spec_read_byte(next_address(old(self).pc))),
            ),
            *final(memory) == *old(memory),
    {
        let imm16 = self.fetch_word(memory);
        self.set_r16(&register, imm16);
    }

    /// LD [r16], A
    pub fn ld_r16mem_a<M: MemoryInterface>(&mut self, register: Register16Mem, memory: &mut M)
        requires
            old(memory).mem_wf(),
        ensures
            *final(self) == old(self).after_r16mem(register),
            *final(memory) == old(memory).spec_write_byte(old(self).spec_r16mem(register), old(self).a),
            final(memory).mem_wf(),
    {
        let address = self.get_r16mem(&register);
        let value = self.get_r8(&Register8::A, memory);
        memory.write_byte(address, value);
    }

    /// LD A, [r16]
    pub fn ld_a_r16mem<M: MemoryInterface>(&mut self, register: Register16Mem, memory: &mut M)
        requires
            old(memory).mem_wf(),
        ensures
            *final(self) == (CPU {
                a: old(memory).spec_read_byte(old(self).spec_r16mem(register)),
                ..old(self).after_r16mem(register)
            }),
            *final(memory) == *old(memory),
    {
        let address = self.get_r16mem(&register);
        let value = memory.read_byte(address);
        self.set_r8(&Register8::A, value, memory);
    }

    /// LD [imm16], SP
    pub fn ld_imm16_sp<M: MemoryInterface>(&mut self, memory: &mut M)
        requires
            old(memory).mem_wf(),
        ensures
            ({
                let addr = word(old(memory).spec_read_byte(old(self).pc), old(memory).spec_read_byte(next_address(old(self).pc)));
                &&& *final(self) == (CPU { pc: old(self).pc.wrapping_add(2), ..*old(self) })
                &&& *final(memory) == old(memory).spec_write_byte(addr, low_byte(old(self).sp))
                        .spec_write_byte(next_address(addr), high_byte(old(self).sp))
            }),
            final(memory).mem_wf(),
    {
        let imm16 = self.fetch_word(memory);
        memory.write_word(imm16, self.sp);
    }

    /// INC r16 (no flags)
    pub fn inc_r16(&mut self, register: Register16)
        ensures
            *final(self) == old(self).with_r16(register, old(self).spec_r16(register).wrapping_add(1)),
    {
        let value = self.get_r16(&register).wrapping_add(1);
        self.set_r16(&register, value);
    }

    /// DEC r16 (no flags)
    pub fn dec_r16(&mut self, register: Register16)
        ensures
            *final(self) == old(self).with_r16(register, old(self).spec_r16(register).wrapping_sub(1)),
    {
        let value = self.get_r16(&register).wrapping_sub(1);
        self.set_r16(&register, value);
    }

    /// ADD HL, r16: N=0, H from bit 11, C from bit 15, Z unchanged.
    pub fn add_hl_r16(&mut self, register: Register16)
        ensures
            ({
                let hl = old(self).spec_hl();
                let v = old(self).spec_r16(register);
                *final(self) == old(self).with_r16(Register16::HL, hl.wrapping_add(v)).with_flags(Flags {
                    n: false,
                    h: (hl % 4096) + (v % 4096) > 4095,
                    c: hl + v > 65535,
                    ..old(self).f
                })
            }),
    {
        let hl = self.get_r16(&Register16::HL);
        let value = self.get_r16(&register);
        self.set_r16(&Register16::HL, hl.wrapping_add(value));
        self.f.n = false;
        proof {
            assert(hl & 0xFFF == hl % 4096) by { crate::bits::lemma_byte_bits(); crate::bits::lemma_word_bits(); }
            assert(value & 0xFFF == value % 4096) by { crate::bits::lemma_byte_bits(); crate::bits::lemma_word_bits(); }
        }
        let overflow_bit11 = (hl & 0xFFF) + (value & 0xFFF) > 0xFFF;
        let overflow_bit15 = hl as u32 + value as u32 > 0xFFFF;
        self.f.c = overflow_bit15;
        self.f.h = overflow_bit11;
    }

    /// INC r8: Z, N=0, H from bit 3, C unchanged.
    pub fn inc_r8<M: MemoryInterface>(&mut self, register: Register8, memory: &mut M)
        requires
            old(memory).mem_wf(),
        ensures
            ({
                let r = add8(old(self).spec_r8(register, *old(memory)), 1, 0);
                &&& *final(self) == old(self).with_r8(register, r).with_flags(Flags {
                        z: r == 0,
                        n: false,
                        h: r % 16 == 0,
                        ..old(self).f
                    })
                &&& *final(memory) == old(self).mem_with_r8(register, r, *old(memory))
            }),
            final(memory).mem_wf(),
    {
        let value = self.get_r8(&register, memory).wrapping_add(1);
        self.set_r8(&register, value, memory);
        self.f.z = value == 0;
        self.f.n = false;
        proof { assert(value & 0xF == value % 16) by { crate::bits::lemma_byte_bits(); crate::bits::lemma_word_bits(); } }
        self.f.h = value & 0xF == 0;
    }

    /// DEC r8: Z, N=1, H from a borrow out of bit 4, C unchanged.
    pub fn dec_r8<M: MemoryInterface>(&mut self, register: Register8, memory: &mut M)
        requires
            old(memory).mem_wf(),
        ensures
            ({
                let r = sub8(old(self).spec_r8(register, *old(memory)), 1, 0);
                &&& *final(self) == old(self).with_r8(register, r).with_flags(Flags {
                        z: r == 0,
                        n: true,
                        h: r % 16 == 15,
                        ..old(self).f
                    })
                &&& *final(memory) == old(self).mem_with_r8(register, r, *old(memory))
            }),
            final(memory).mem_wf(),
    {
        let value = self.get_r8(&register, memory).wrapping_sub(1);
        self.set_r8(&register, value, memory);
        self.f.z = value == 0;
        self.f.n = true;
        proof { assert(value & 0xF == value % 16) by { crate::bits::lemma_byte_bits(); crate::bits::lemma_word_bits(); } }
        self.f.h = value & 0xF == 0xF;
    }

    /// LD r8, imm8
    pub fn ld_r8_imm8<M: MemoryInterface>(&mut self, register: Register8, memory: &mut M)
        requires
            old(memory).mem_wf(),
        ensures
            ({
                let imm = old(memory).spec_read_byte(old(self).pc);
                let moved = CPU { pc: old(self).pc.wrapping_add(1), ..*old(self) };
                &&& *final(self) == moved.with_r8(register, imm)
                &&& *final(memory) == moved.mem_with_r8(register, imm, *old(memory))
            }),
            final(memory).mem_wf(),
    {
        let imm8 = self.fetch_byte(memory);
        self.set_r8(&register, imm8, memory);
    }

    /// RLCA: rotate A left; C = old bit 7; Z, N, H cleared.
    pub fn rlca(&mut self)
        ensures
            *final(self) == (CPU {
                a: rotate_left8(old(self).a),
                f: Flags { z: false, n: false, h: false, c: old(self).a >= 128 },
                ..*old(self)
            }),
    {
        let a_in = self.a;
        let r = (a_in << 1) | (a_in >> 7);
        proof {
            assert((a_in << 1) | (a_in >> 7) == ((a_in * 2) % 256 + a_in / 128) as u8) by { crate::bits::lemma_shift_bits(); crate::bits::lemma_shift_left_bits(); crate::bits::lemma_rotate_left_bits(); crate::bits::lemma_byte_bits(); }
            assert(a_in & 0x80 != 0 <==> a_in >= 128) by { crate::bits::lemma_shift_bits(); crate::bits::lemma_shift_left_bits(); crate::bits::lemma_rotate_left_bits(); crate::bits::lemma_byte_bits(); }
        }
        self.a = r;
        self.f.c = a_in & 0x80 != 0;
        self.f.z = false;
        self.f.n = false;
        self.f.h = false;
    }

    /// RRCA: rotate A right; C = old bit 0; Z, N, H cleared.
    pub fn rrca(&mut self)
        ensures
            *final(self) == (CPU {
                a: rotate_right8(old(self).a),
                f: Flags { z: false, n: false, h: false, c: old(self).a % 2 == 1 },
                ..*old(self)
            }),
    {
        let a_in = self.a;
        let r = (a_in >> 1) | (a_in << 7);
        proof {
            assert((a_in >> 1) | (a_in << 7) == (a_in / 2 + (a_in % 2) * 128) as u8) by { crate::bits::lemma_shift_bits(); crate::bits::lemma_shift_left_bits(); crate::bits::lemma_rotate_left_bits(); crate::bits::lemma_byte_bits(); }
            assert(a_in & 0x01 != 0 <==> a_in % 2 == 1) by { crate::bits::lemma_shift_bits(); crate::bits::lemma_shift_left_bits(); crate::bits::lemma_rotate_left_bits(); crate::bits::lemma_byte_bits(); }
        }
        self.a = r;
        self.f.c = a_in & 0x01 != 0;
        self.f.z = false;
        self.f.n = false;
        self.f.h = false;
    }

    /// RLA: rotate A left through the carry.
    pub fn rla(&mut self)
        ensures
            *final(self) == (CPU {
                a: ((old(self).a * 2) % 256 + (if old(self).f.c { 1int } else { 0 })) as u8,
                f: Flags { z: false, n: false, h: false, c: old(self).a >= 128 },
                ..*old(self)
            }),
    {
        let a = self.a;
        let bit7 = a & 0x80 != 0;
        let shifted = a << 1;
        proof {
            assert(a << 1 == ((a * 2) % 256) as u8) by { crate::bits::lemma_shift_bits(); crate::bits::lemma_shift_left_bits(); crate::bits::lemma_rotate_left_bits(); crate::bits::lemma_byte_bits(); }
            assert((a << 1) | 0x01 == ((a * 2) % 256 + 1) as u8) by { crate::bits::lemma_shift_bits(); crate::bits::lemma_shift_left_bits(); crate::bits::lemma_rotate_left_bits(); crate::bits::lemma_byte_bits(); }
            assert(a & 0x80 != 0 <==> a >= 128) by { crate::bits::lemma_shift_bits(); crate::bits::lemma_shift_left_bits(); crate::bits::lemma_rotate_left_bits(); crate::bits::lemma_byte_bits(); }
        }
        self.a = if self.f.c { shifted | 0x01 } else { shifted };
        self.f.c = bit7;
        self.f.z = false;
        self.f.n = false;
        self.f.h = false;
    }

    /// RRA: rotate A right through the carry.
    pub fn rra(&mut self)
        ensures
            *final(self) == (CPU {
                a: (old(self).a / 2 + (if old(self).f.c { 128int } else { 0 })) as u8,
                f: Flags { z: false, n: false, h: false, c: old(self).a % 2 == 1 },
                ..*old(self)
            }),
    {
        let a = self.a;
        let bit0 = a & 0x01 != 0;
        let shifted = a >> 1;
        proof {
            assert(a >> 1 == a / 2) by { crate::bits::lemma_byte_bits(); crate::bits::lemma_word_bits(); }
            assert((a >> 1) | 0x80 == (a / 2 + 128) as u8) by { crate::bits::lemma_shift_bits(); crate::bits::lemma_shift_left_bits(); crate::bits::lemma_rotate_left_bits(); crate::bits::lemma_byte_bits(); }
            assert(a & 0x01 != 0 <==> a % 2 == 1) by { crate::bits::lemma_shift_bits(); crate::bits::lemma_shift_left_bits(); crate::bits::lemma_rotate_left_bits(); crate::bits::lemma_byte_bits(); }
        }
        self.a = if self.f.c { shifted | 0x80 } else { shifted };
        self.f.c = bit0;
        self.f.z = false;
        self.f.n = false;
        self.f.h = false;
    }

    /// DAA: decimal-adjust A after a BCD addition or subtraction.
    pub fn daa<M: MemoryInterface>(&mut self, memory: &mut M)
        requires
            old(memory).mem_wf(),
        ensures
            ({
                let (r, carry) = daa_result(old(self).a, old(self).f);
                *final(self) == (CPU {
                    a: r,
                    f: Flags { z: r == 0, h: false, c: carry, ..old(self).f },
                    ..*old(self)
                })
            }),
            *final(memory) == *old(memory),
    {
        let a_in = self.get_r8(&Register8::A, memory);
        let (result, carry) = daa_compute(a_in, self.f);
        self.set_r8(&Register8::A, result, memory);
        self.f.z = result == 0;
        self.f.h = false;
        self.f.c = carry;
    }

    /// CPL: A = !A; N and H set.
    pub fn cpl(&mut self)
        ensures
            *final(self) == (CPU {
                a: (255 - old(self).a) as u8,
                f: Flags { n: true, h: true, ..old(self).f },
                ..*old(self)
            }),
    {
        let a = self.a;
        proof { assert(!a == (255 - a) as u8) by { crate::bits::lemma_shift_bits(); crate::bits::lemma_shift_left_bits(); crate::bits::lemma_rotate_left_bits(); crate::bits::lemma_byte_bits(); } }
        self.a = !a;
        self.f.n = true;
        self.f.h = true;
    }

    /// SCF: set carry; N and H cleared.
    pub fn scf(&mut self)
        ensures
            *final(self) == old(self).with_flags(Flags { c: true, h: false, n: false, ..old(self).f }),
    {
        self.f.c = true;
        self.f.h = false;
        self.f.n = false;
    }

    /// CCF: complement carry; N and H cleared.
    pub fn ccf(&mut self)
        ensures
            *final(self) == old(self).with_flags(Flags { c: !old(self).f.c, h: false, n: false, ..old(self).f }),
    {
        self.f.h = false;
        self.f.n = false;
        self.f.c = !self.f.c;
    }

    /// JR imm8: jump by a signed offset from the next instruction.
    pub fn jr_imm8<M: MemoryInterface>(&mut self, memory: &mut M)
        requires
            old(memory).mem_wf(),
        ensures
            *final(self) == (CPU {
                pc: offset16(old(self).pc.wrapping_add(1), signed8(old(memory).spec_read_byte(old(self).pc))),
                ..*old(self)
            }),
            *final(memory) == *old(memory),
    {
        let imm8 = self.fetch_byte(memory);
        self.pc = add_signed_offset(self.pc, imm8);
    }

    /// JR cc, imm8
    pub fn jr_cond_imm8<M: MemoryInterface>(&mut self, condition: Condition, memory: &mut M)
        requires
            old(memory).mem_wf(),
        ensures
            *final(self) == (CPU {
                pc: if old(self).spec_condition(condition) {
                    offset16(old(self).pc.wrapping_add(1), signed8(old(memory).spec_read_byte(old(self).pc)))
                } else {
                    old(self).pc.wrapping_add(1)
                },
                ..*old(self)
            }),
            *final(memory) == *old(memory),
    {
        let imm8 = self.fetch_byte(memory);
        let should_jump = self.should_jump(condition);
        if should_jump {
            self.pc = add_signed_offset(self.pc, imm8);
        }
    }

    /// STOP: only meaningful on the colour model; treated as a no-op.
    pub fn stop(&mut self)
        ensures
            *final(self) == *old(self),
    {
    }
}

} // verus!
