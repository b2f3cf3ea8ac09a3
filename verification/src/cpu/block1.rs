use vstd::prelude::*;
use crate::bus::MemoryInterface;
use crate::bus::io_address::IoRegister;
use crate::cpu::CPU;
use crate::cpu::block0::{rotate_left8, rotate_right8};
use crate::cpu::registers::Register8;
use crate::flags::Flags;

verus! {

/// The eight shift and rotate operations of the CB-prefixed table.
#[derive(Debug, Clone, Copy, PartialEq, Eq, Structural)]
pub enum ShiftOp {
    Rlc,
    Rrc,
    Rl,
    Rr,
    Sla,
    Sra,
    Swap,
    Srl,
}

/// The result of a shift or rotate on a value, and the carry it sets.
pub open spec fn shift_result(op: ShiftOp, v: u8, carry: bool) -> (u8, bool) {
    let cin: int = if carry { 1 } else { 0 };
    match op {
        ShiftOp::Rlc => (rotate_left8(v), v >= 128),
        ShiftOp::Rrc => (rotate_right8(v), v % 2 == 1),
        ShiftOp::Rl => (((v * 2) % 256 + cin) as u8, v >= 128),
        ShiftOp::Rr => ((v / 2 + cin * 128) as u8, v % 2 == 1),
        ShiftOp::Sla => (((v * 2) % 256) as u8, v >= 128),
        ShiftOp::Sra => ((v / 2 + (if v >= 128 { 128int } else { 0 })) as u8, v % 2 == 1),
        ShiftOp::Swap => (((v % 16) * 16 + v / 16) as u8, false),
        ShiftOp::Srl => ((v / 2) as u8, v % 2 == 1),
    }
}

pub fn compute_shift(op: ShiftOp, v: u8, carry: bool) -> (r: (u8, bool))
    ensures
        r == shift_result(op, v, carry),
{
    proof {
        assert(v << 1 == ((v * 2) % 256) as u8) by { crate::bits::lemma_shift_bits(); crate::bits::lemma_shift_left_bits(); crate::bits::lemma_rotate_left_bits(); crate::bits::lemma_byte_bits(); }
        assert((v << 1) | 0x01 == ((v * 2) % 256 + 1) as u8) by { crate::bits::lemma_shift_bits(); crate::bits::lemma_shift_left_bits(); crate::bits::lemma_rotate_left_bits(); crate::bits::lemma_byte_bits(); }
        assert((v << 1) | (v >> 7) == ((v * 2) % 256 + v / 128) as u8) by { crate::bits::lemma_shift_bits(); crate::bits::lemma_shift_left_bits(); crate::bits::lemma_rotate_left_bits(); crate::bits::lemma_byte_bits(); }
        assert((v >> 1) | (v << 7) == (v / 2 + (v % 2) * 128) as u8) by { crate::bits::lemma_shift_bits(); crate::bits::lemma_shift_left_bits(); crate::bits::lemma_rotate_left_bits(); crate::bits::lemma_byte_bits(); }
        assert(v >> 1 == v / 2) by { crate::bits::lemma_byte_bits(); crate::bits::lemma_word_bits(); }
        assert((v >> 1) | 0x80 == (v / 2 + 128) as u8) by { crate::bits::lemma_shift_bits(); crate::bits::lemma_shift_left_bits(); crate::bits::lemma_rotate_left_bits(); crate::bits::lemma_byte_bits(); }
        assert(((v & 0xF0) >> 4) | ((v & 0x0F) << 4) == ((v % 16) * 16 + v / 16) as u8) by { crate::bits::lemma_shift_bits(); crate::bits::lemma_shift_left_bits(); crate::bits::lemma_rotate_left_bits(); crate::bits::lemma_byte_bits(); }
        assert(v & 0x80 != 0 <==> v >= 128) by { crate::bits::lemma_shift_bits(); crate::bits::lemma_shift_left_bits(); crate::bits::lemma_rotate_left_bits(); crate::bits::lemma_byte_bits(); }
        assert(v & 0x01 != 0 <==> v % 2 == 1) by { crate::bits::lemma_shift_bits(); crate::bits::lemma_shift_left_bits(); crate::bits::lemma_rotate_left_bits(); crate::bits::lemma_byte_bits(); }
    }
    let bit7 = v & 0x80 != 0;
    let bit0 = v & 0x01 != 0;
    match op {
        ShiftOp::Rlc => ((v << 1) | (v >> 7), bit7),
        ShiftOp::Rrc => ((v >> 1) | (v << 7), bit0),
        ShiftOp::Rl => (if carry { (v << 1) | 0x01 } else { v << 1 }, bit7),
        ShiftOp::Rr => (if carry { (v >> 1) | 0x80 } else { v >> 1 }, bit0),
        ShiftOp::Sla => (v << 1, bit7),
        ShiftOp::Sra => (if bit7 { (v >> 1) | 0x80 } else { v >> 1 }, bit0),
        ShiftOp::Swap => (((v & 0xF0) >> 4) | ((v & 0x0F) << 4), false),
        ShiftOp::Srl => (v >> 1, bit0),
    }
}

impl CPU {
    /// The processor after a shift or rotate of an operand.
    pub open spec fn spec_shift_cpu<M: MemoryInterface>(self, op: ShiftOp, register: Register8, mem: M) -> CPU {
        let (r, c) = shift_result(op, self.spec_r8(register, mem), self.f.c);
        self.with_r8(register, r).with_flags(Flags { z: r == 0, n: false, h: false, c: c })
    }

    /// The memory after a shift or rotate of an operand.
    pub open spec fn spec_shift_mem<M: MemoryInterface>(self, op: ShiftOp, register: Register8, mem: M) -> M {
        let (r, c) = shift_result(op, self.spec_r8(register, mem), self.f.c);
        self.mem_with_r8(register, r, mem)
    }

    /// LD r8, r8
    pub fn ld_r8_r8<M: MemoryInterface>(&mut self, register1: Register8, register2: Register8, memory: &mut M)
        requires
            old(memory).mem_wf(),
        ensures
            *final(self) == old(self).with_r8(register1, old(self).spec_r8(register2, *old(memory))),
            *final(memory) == old(self).mem_with_r8(register1, old(self).spec_r8(register2, *old(memory)), *old(memory)),
            final(memory).mem_wf(),
    {
        let value = self.get_r8(&register2, memory);
        self.set_r8(&register1, value, memory);
    }

    /// HALT: with IME on, or with no interrupt pending, the processor halts;
    /// with IME off and an interrupt pending, the HALT bug is triggered instead.
    pub fn halt<M: MemoryInterface>(&mut self, memory: &M)
        requires
            memory.mem_wf(),
        ensures
            ({
                let pending = memory.spec_read_byte(0xFFFF) & memory.spec_read_byte(0xFF0F);
                if old(self).ime || pending == 0 {
                    *final(self) == (CPU { halt: true, ..*old(self) })
                } else {
                    *final(self) == (CPU { halt_bug: true, ..*old(self) })
                }
            }),
    {
        let ie_register = memory.read_byte(IoRegister::Ie.address());
        let if_register = memory.read_byte(IoRegister::If.address());
        let interrupts = ie_register & if_register;
        if self.ime {
            self.halt = true;
        } else if interrupts != 0 {
            self.halt_bug = true;
        } else {
            self.halt = true;
        }
    }

    fn shift_op_r8<M: MemoryInterface>(&mut self, op: ShiftOp, register: Register8, memory: &mut M)
        requires
            old(memory).mem_wf(),
        ensures
            *final(self) == old(self).spec_shift_cpu(op, register, *old(memory)),
            *final(memory) == old(self).spec_shift_mem(op, register, *old(memory)),
            final(memory).mem_wf(),
    {
        let value = self.get_r8(&register, memory);
        let (result, carry) = compute_shift(op, value, self.f.c);
        self.set_r8(&register, result, memory);
        self.set_zn_flags(result, false);
        self.f.c = carry;
        self.f.h = false;
    }

    /// RLC r8: rotate left; C = old bit 7.
    pub fn rlc_r8<M: MemoryInterface>(&mut self, register: Register8, memory: &mut M)
        requires old(memory).mem_wf(),
        ensures
            *final(self) == old(self).spec_shift_cpu(ShiftOp::Rlc, register, *old(memory)),
            *final(memory) == old(self).spec_shift_mem(ShiftOp::Rlc, register, *old(memory)),
            final(memory).mem_wf(),
    {
        self.shift_op_r8(ShiftOp::Rlc, register, memory);
    }

    /// RRC r8: rotate right; C = old bit 0.
    pub fn rrc_r8<M: MemoryInterface>(&mut self, register: Register8, memory: &mut M)
        requires old(memory).mem_wf(),
        ensures
            *final(self) == old(self).spec_shift_cpu(ShiftOp::Rrc, register, *old(memory)),
            *final(memory) == old(self).spec_shift_mem(ShiftOp::Rrc, register, *old(memory)),
            final(memory).mem_wf(),
    {
        self.shift_op_r8(ShiftOp::Rrc, register, memory);
    }

    /// RL r8: rotate left through the carry.
    pub fn rl_r8<M: MemoryInterface>(&mut self, register: Register8, memory: &mut M)
        requires old(memory).mem_wf(),
        ensures
            *final(self) == old(self).spec_shift_cpu(ShiftOp::Rl, register, *old(memory)),
            *final(memory) == old(self).spec_shift_mem(ShiftOp::Rl, register, *old(memory)),
            final(memory).mem_wf(),
    {
        self.shift_op_r8(ShiftOp::Rl, register, memory);
    }

    /// RR r8: rotate right through the carry.
    pub fn rr_r8<M: MemoryInterface>(&mut self, register: Register8, memory: &mut M)
        requires old(memory).mem_wf(),
        ensures
            *final(self) == old(self).spec_shift_cpu(ShiftOp::Rr, register, *old(memory)),
            *final(memory) == old(self).spec_shift_mem(ShiftOp::Rr, register, *old(memory)),
            final(memory).mem_wf(),
    {
        self.shift_op_r8(ShiftOp::Rr, register, memory);
    }

    /// SLA r8: shift left; bit 0 becomes 0; C = old bit 7.
    pub fn sla_r8<M: MemoryInterface>(&mut self, register: Register8, memory: &mut M)
        requires old(memory).mem_wf(),
        ensures
            *final(self) == old(self).spec_shift_cpu(ShiftOp::Sla, register, *old(memory)),
            *final(memory) == old(self).spec_shift_mem(ShiftOp::Sla, register, *old(memory)),
            final(memory).mem_wf(),
    {
        self.shift_op_r8(ShiftOp::Sla, register, memory);
    }

    /// SRA r8: shift right keeping bit 7; C = old bit 0.
    pub fn sra_r8<M: MemoryInterface>(&mut self, register: Register8, memory: &mut M)
        requires old(memory).mem_wf(),
        ensures
            *final(self) == old(self).spec_shift_cpu(ShiftOp::Sra, register, *old(memory)),
            *final(memory) == old(self).spec_shift_mem(ShiftOp::Sra, register, *old(memory)),
            final(memory).mem_wf(),
    {
        self.shift_op_r8(ShiftOp::Sra, register, memory);
    }

    /// SWAP r8: exchange the two nibbles; C cleared.
    pub fn swap_r8<M: MemoryInterface>(&mut self, register: Register8, memory: &mut M)
        requires old(memory).mem_wf(),
        ensures
            *final(self) == old(self).spec_shift_cpu(ShiftOp::Swap, register, *old(memory)),
            *final(memory) == old(self).spec_shift_mem(ShiftOp::Swap, register, *old(memory)),
            final(memory).mem_wf(),
    {
        self.shift_op_r8(ShiftOp::Swap, register, memory);
    }

    /// SRL r8: shift right; bit 7 becomes 0; C = old bit 0.
    pub fn srl_r8<M: MemoryInterface>(&mut self, register: Register8, memory: &mut M)
        requires old(memory).mem_wf(),
        ensures
            *final(self) == old(self).spec_shift_cpu(ShiftOp::Srl, register, *old(memory)),
            *final(memory) == old(self).spec_shift_mem(ShiftOp::Srl, register, *old(memory)),
            final(memory).mem_wf(),
    {
        self.shift_op_r8(ShiftOp::Srl, register, memory);
    }

    /// BIT b, r8: Z set when the bit is 0; N=0, H=1, C unchanged.
    pub fn bit_b3_r8<M: MemoryInterface>(&mut self, register: Register8, selected_bit: u8, memory: &mut M)
        requires
            old(memory).mem_wf(),
            selected_bit < 8,
        ensures
            *final(self) == old(self).with_flags(Flags {
                z: (old(self).spec_r8(register, *old(memory)) >> selected_bit) & 1 == 0,
                n: false,
                h: true,
                ..old(self).f
            }),
            *final(memory) == *old(memory),
    {
        let value = self.get_r8(&register, memory);
        proof {
            assert(selected_bit < 8 ==> (value & (1u8 << selected_bit) == 0 <==> (value >> selected_bit) & 1 == 0)) by (bit_vector);
        }
        let bit_zero = value & (1u8 << selected_bit) == 0;
        self.f.z = bit_zero;
        self.f.n = false;
        self.f.h = true;
    }

    /// RES b, r8: clear the bit.
    pub fn res_b3_r8<M: MemoryInterface>(&mut self, register: Register8, selected_bit: u8, memory: &mut M)
        requires
            old(memory).mem_wf(),
            selected_bit < 8,
        ensures
            ({
                let r = old(self).spec_r8(register, *old(memory)) & !(1u8 << selected_bit);
                &&& *final(self) == old(self).with_r8(register, r)
                &&& *final(memory) == old(self).mem_with_r8(register, r, *old(memory))
            }),
            final(memory).mem_wf(),
    {
        let value = self.get_r8(&register, memory);
        let result = value & !(1u8 << selected_bit);
        self.set_r8(&register, result, memory);
    }

    /// SET b, r8: set the bit.
    pub fn set_b3_r8<M: MemoryInterface>(&mut self, register: Register8, selected_bit: u8, memory: &mut M)
        requires
            old(memory).mem_wf(),
            selected_bit < 8,
        ensures
            ({
                let r = old(self).spec_r8(register, *old(memory)) | (1u8 << selected_bit);
                &&& *final(self) == old(self).with_r8(register, r)
                &&& *final(memory) == old(self).mem_with_r8(register, r, *old(memory))
            }),
            final(memory).mem_wf(),
    {
        let value = self.get_r8(&register, memory);
        let result = value | (1u8 << selected_bit);
        self.set_r8(&register, result, memory);
    }
}

} // verus!
