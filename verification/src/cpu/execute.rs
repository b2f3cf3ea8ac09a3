use vstd::prelude::*;
use crate::bus::MemoryInterface;
use crate::cpu::CPU;
use crate::cpu::block1::ShiftOp;
use crate::cpu::block3::imm16_at;
use crate::cpu::instruction::{AluOp, Instruction, decode, decode_cb, spec_decode, spec_decode_cb};

verus! {

/// Whether an instruction's operands are in range (bit numbers below 8).
pub open spec fn instruction_wf(instr: Instruction) -> bool {
    match instr {
        Instruction::TestBit(b, _) => b < 8,
        Instruction::ResBit(b, _) => b < 8,
        Instruction::SetBit(b, _) => b < 8,
        _ => true,
    }
}

/// Which of the four dispatch groups an instruction belongs to.
pub open spec fn instruction_group(instr: Instruction) -> int {
    match instr {
        Instruction::Nop => 0,
        Instruction::LdR16Imm16(..) => 0,
        Instruction::LdR16MemA(..) => 0,
        Instruction::LdAR16Mem(..) => 0,
        Instruction::LdImm16Sp => 0,
        Instruction::IncR16(..) => 0,
        Instruction::DecR16(..) => 0,
        Instruction::AddHlR16(..) => 0,
        Instruction::IncR8(..) => 0,
        Instruction::DecR8(..) => 0,
        Instruction::LdR8Imm8(..) => 0,
        Instruction::Rlca => 0,
        Instruction::Rrca => 0,
        Instruction::Rla => 0,
        Instruction::Rra => 0,
        Instruction::Daa => 0,
        Instruction::Cpl => 0,
        Instruction::Scf => 0,
        Instruction::Ccf => 0,
        Instruction::JrImm8 => 0,
        Instruction::JrCondImm8(..) => 0,
        Instruction::Stop => 0,
        Instruction::LdR8R8(..) => 1,
        Instruction::Halt => 1,
        Instruction::AluR8(..) => 1,
        Instruction::AluImm8(..) => 1,
        Instruction::RetCond(..) => 2,
        Instruction::Ret => 2,
        Instruction::Reti => 2,
        Instruction::JpCondImm16(..) => 2,
        Instruction::JpImm16 => 2,
        Instruction::JpHl => 2,
        Instruction::CallCondImm16(..) => 2,
        Instruction::CallImm16 => 2,
        Instruction::Rst(..) => 2,
        Instruction::Pop(..) => 2,
        Instruction::Push(..) => 2,
        Instruction::LdhCA => 2,
        Instruction::LdhImm8A => 2,
        Instruction::LdImm16A => 2,
        Instruction::LdhAC => 2,
        Instruction::LdhAImm8 => 2,
        Instruction::LdAImm16 => 2,
        Instruction::AddSpImm8 => 2,
        Instruction::LdHlSpImm8 => 2,
        Instruction::LdSpHl => 2,
        Instruction::Di => 2,
        Instruction::Ei => 2,
        Instruction::Prefix => 3,
        Instruction::Invalid => 3,
        Instruction::Shift(..) => 3,
        Instruction::TestBit(..) => 3,
        Instruction::ResBit(..) => 3,
        Instruction::SetBit(..) => 3,
    }
}

fn dispatch_group(instr: &Instruction) -> (r: u8)
    ensures r as int == instruction_group(*instr),
{
    match instr {
        Instruction::Nop => 0,
        Instruction::LdR16Imm16(..) => 0,
        Instruction::LdR16MemA(..) => 0,
        Instruction::LdAR16Mem(..) => 0,
        Instruction::LdImm16Sp => 0,
        Instruction::IncR16(..) => 0,
        Instruction::DecR16(..) => 0,
        Instruction::AddHlR16(..) => 0,
        Instruction::IncR8(..) => 0,
        Instruction::DecR8(..) => 0,
        Instruction::LdR8Imm8(..) => 0,
        Instruction::Rlca => 0,
        Instruction::Rrca => 0,
        Instruction::Rla => 0,
        Instruction::Rra => 0,
        Instruction::Daa => 0,
        Instruction::Cpl => 0,
        Instruction::Scf => 0,
        Instruction::Ccf => 0,
        Instruction::JrImm8 => 0,
        Instruction::JrCondImm8(..) => 0,
        Instruction::Stop => 0,
        Instruction::LdR8R8(..) => 1,
        Instruction::Halt => 1,
        Instruction::AluR8(..) => 1,
        Instruction::AluImm8(..) => 1,
        Instruction::RetCond(..) => 2,
        Instruction::Ret => 2,
        Instruction::Reti => 2,
        Instruction::JpCondImm16(..) => 2,
        Instruction::JpImm16 => 2,
        Instruction::JpHl => 2,
        Instruction::CallCondImm16(..) => 2,
        Instruction::CallImm16 => 2,
        Instruction::Rst(..) => 2,
        Instruction::Pop(..) => 2,
        Instruction::Push(..) => 2,
        Instruction::LdhCA => 2,
        Instruction::LdhImm8A => 2,
        Instruction::LdImm16A => 2,
        Instruction::LdhAC => 2,
        Instruction::LdhAImm8 => 2,
        Instruction::LdAImm16 => 2,
        Instruction::AddSpImm8 => 2,
        Instruction::LdHlSpImm8 => 2,
        Instruction::LdSpHl => 2,
        Instruction::Di => 2,
        Instruction::Ei => 2,
        Instruction::Prefix => 3,
        Instruction::Invalid => 3,
        Instruction::Shift(..) => 3,
        Instruction::TestBit(..) => 3,
        Instruction::ResBit(..) => 3,
        Instruction::SetBit(..) => 3,
    }
}

impl CPU {
    /// The accumulator ALU applied to an operand value.
    pub open spec fn spec_alu(self, op: AluOp, v: u8) -> CPU {
        match op {
            AluOp::Add => self.spec_add_a(v, false),
            AluOp::Adc => self.spec_add_a(v, true),
            AluOp::Sub => self.spec_sub_a(v, false),
            AluOp::Sbc => self.spec_sub_a(v, true),
            AluOp::And => self.spec_and_a(v),
            AluOp::Xor => self.spec_xor_a(v),
            AluOp::Or => self.spec_or_a(v),
            AluOp::Cp => self.spec_cp_a(v),
        }
    }

    /// The processor and memory after one decoded instruction.
    pub open spec fn spec_run<M: MemoryInterface>(self, mem: M, instr: Instruction) -> (CPU, M) {
        match instr {
            Instruction::Nop => (self, mem),
            Instruction::LdR16Imm16(r) => self.sem_ld_r16_imm16(mem, r),
            Instruction::LdR16MemA(r) => self.sem_ld_r16mem_a(mem, r),
            Instruction::LdAR16Mem(r) => self.sem_ld_a_r16mem(mem, r),
            Instruction::LdImm16Sp => self.sem_ld_imm16_sp(mem),
            Instruction::IncR16(r) => (self.sem_inc_r16(r), mem),
            Instruction::DecR16(r) => (self.sem_dec_r16(r), mem),
            Instruction::AddHlR16(r) => (self.sem_add_hl_r16(r), mem),
            Instruction::IncR8(r) => self.sem_inc_r8(mem, r),
            Instruction::DecR8(r) => self.sem_dec_r8(mem, r),
            Instruction::LdR8Imm8(r) => self.sem_ld_r8_imm8(mem, r),
            Instruction::Rlca => (self.sem_rlca(), mem),
            Instruction::Rrca => (self.sem_rrca(), mem),
            Instruction::Rla => (self.sem_rla(), mem),
            Instruction::Rra => (self.sem_rra(), mem),
            Instruction::Daa => (self.sem_daa(), mem),
            Instruction::Cpl => (self.sem_cpl(), mem),
            Instruction::Scf => (self.sem_scf(), mem),
            Instruction::Ccf => (self.sem_ccf(), mem),
            Instruction::JrImm8 => (self.sem_jr_cond_imm8(mem, true), mem),
            Instruction::JrCondImm8(c) => (self.sem_jr_cond_imm8(mem, self.spec_condition(c)), mem),
            Instruction::Stop => (self, mem),
            Instruction::LdR8R8(d, s) => self.sem_ld_r8_r8(mem, d, s),
            Instruction::Halt => (self.sem_halt(mem), mem),
            Instruction::AluR8(op, r) => (self.spec_alu(op, self.spec_r8(r, mem)), mem),
            Instruction::AluImm8(op) => (self.skip(1).spec_alu(op, mem.spec_read_byte(self.pc)), mem),
            Instruction::RetCond(c) => (if self.spec_condition(c) { self.sem_ret(mem) } else { self }, mem),
            Instruction::Ret => (self.sem_ret(mem), mem),
            Instruction::Reti => (CPU { ime_scheduled: true, ..self.sem_ret(mem) }, mem),
            Instruction::JpCondImm16(c) => (self.sem_jp_cond_imm16(mem, self.spec_condition(c)), mem),
            Instruction::JpImm16 => (self.sem_jp_cond_imm16(mem, true), mem),
            Instruction::JpHl => (CPU { pc: self.spec_hl(), ..self }, mem),
            Instruction::CallCondImm16(c) => if self.spec_condition(c) {
                self.sem_call_imm16(mem)
            } else {
                (self.skip(2), mem)
            },
            Instruction::CallImm16 => self.sem_call_imm16(mem),
            Instruction::Rst(v) => self.sem_rst(mem, v),
            Instruction::Pop(r) => (self.sem_pop(mem, r), mem),
            Instruction::Push(r) => self.sem_push(mem, r),
            Instruction::LdhCA => (self, mem.spec_write_byte((0xFF00 + self.c) as u16, self.a)),
            Instruction::LdhImm8A => (
                self.skip(1),
                mem.spec_write_byte((0xFF00 + mem.spec_read_byte(self.pc)) as u16, self.a),
            ),
            Instruction::LdImm16A => (self.skip(2), mem.spec_write_byte(imm16_at(mem, self.pc), self.a)),
            Instruction::LdhAC => (CPU { a: mem.spec_read_byte((0xFF00 + self.c) as u16), ..self }, mem),
            Instruction::LdhAImm8 => (
                CPU { a: mem.spec_read_byte((0xFF00 + mem.spec_read_byte(self.pc)) as u16), ..self.skip(1) },
                mem,
            ),
            Instruction::LdAImm16 => (CPU { a: mem.spec_read_byte(imm16_at(mem, self.pc)), ..self.skip(2) }, mem),
            Instruction::AddSpImm8 => (self.sem_add_sp_imm8(mem), mem),
            Instruction::LdHlSpImm8 => (self.sem_ld_hl_sp_plus_imm8(mem), mem),
            Instruction::LdSpHl => (CPU { sp: self.spec_hl(), ..self }, mem),
            Instruction::Di => (CPU { ime: false, ..self }, mem),
            Instruction::Ei => (CPU { ime_scheduled: true, ..self }, mem),
            Instruction::Prefix => (self, mem),
            Instruction::Invalid => (self, mem),
            Instruction::Shift(op, r) => (self.spec_shift_cpu(op, r, mem), self.spec_shift_mem(op, r, mem)),
            Instruction::TestBit(b, r) => (self.sem_bit(mem, b, r), mem),
            Instruction::ResBit(b, r) => self.sem_res(mem, b, r),
            Instruction::SetBit(b, r) => self.sem_set(mem, b, r),
        }
    }

    fn run_group0<M: MemoryInterface>(&mut self, instr: Instruction, memory: &mut M)
        requires
            old(memory).mem_wf(),
            instruction_wf(instr),
            instruction_group(instr) == 0,
        ensures
            (*final(self), *final(memory)) == old(self).spec_run(*old(memory), instr),
            final(memory).mem_wf(),
    {
        match instr {
            Instruction::Nop => self.nop(),
            Instruction::LdR16Imm16(r) => self.ld_r16_imm16(r, memory),
            Instruction::LdR16MemA(r) => self.ld_r16mem_a(r, memory),
            Instruction::LdAR16Mem(r) => self.ld_a_r16mem(r, memory),
            Instruction::LdImm16Sp => self.ld_imm16_sp(memory),
            Instruction::IncR16(r) => self.inc_r16(r),
            Instruction::DecR16(r) => self.dec_r16(r),
            Instruction::AddHlR16(r) => self.add_hl_r16(r),
            Instruction::IncR8(r) => self.inc_r8(r, memory),
            Instruction::DecR8(r) => self.dec_r8(r, memory),
            Instruction::LdR8Imm8(r) => self.ld_r8_imm8(r, memory),
            Instruction::Rlca => self.rlca(),
            Instruction::Rrca => self.rrca(),
            Instruction::Rla => self.rla(),
            Instruction::Rra => self.rra(),
            Instruction::Daa => self.daa(memory),
            Instruction::Cpl => self.cpl(),
            Instruction::Scf => self.scf(),
            Instruction::Ccf => self.ccf(),
            Instruction::JrImm8 => self.jr_imm8(memory),
            Instruction::JrCondImm8(c) => self.jr_cond_imm8(c, memory),
            Instruction::Stop => self.stop(),
            _ => {},
        }
    }

    fn run_group1<M: MemoryInterface>(&mut self, instr: Instruction, memory: &mut M)
        requires
            old(memory).mem_wf(),
            instruction_wf(instr),
            instruction_group(instr) == 1,
        ensures
            (*final(self), *final(memory)) == old(self).spec_run(*old(memory), instr),
            final(memory).mem_wf(),
    {
        match instr {
            Instruction::LdR8R8(d, s) => self.ld_r8_r8(d, s, memory),
            Instruction::Halt => self.halt(memory),
            Instruction::AluR8(op, r) => match op {
                AluOp::Add => self.add_a_r8(r, memory),
                AluOp::Adc => self.adc_a_r8(r, memory),
                AluOp::Sub => self.sub_a_r8(r, memory),
                AluOp::Sbc => self.sbc_a_r8(r, memory),
                AluOp::And => self.and_a_r8(r, memory),
                AluOp::Xor => self.xor_a_r8(r, memory),
                AluOp::Or => self.or_a_r8(r, memory),
                AluOp::Cp => self.cp_a_r8(r, memory),
            },
            Instruction::AluImm8(op) => match op {
                AluOp::Add => self.add_a_imm8(memory),
                AluOp::Adc => self.adc_a_imm8(memory),
                AluOp::Sub => self.sub_a_imm8(memory),
                AluOp::Sbc => self.sbc_a_imm8(memory),
                AluOp::And => self.and_a_imm8(memory),
                AluOp::Xor => self.xor_a_imm8(memory),
                AluOp::Or => self.or_a_imm8(memory),
                AluOp::Cp => self.cp_a_imm8(memory),
            },
            _ => {},
        }
    }

    fn run_group2<M: MemoryInterface>(&mut self, instr: Instruction, memory: &mut M)
        requires
            old(memory).mem_wf(),
            instruction_wf(instr),
            instruction_group(instr) == 2,
        ensures
            (*final(self), *final(memory)) == old(self).spec_run(*old(memory), instr),
            final(memory).mem_wf(),
    {
        match instr {
            Instruction::RetCond(c) => self.ret_cc(c, memory),
            Instruction::Ret => self.ret(memory),
            Instruction::Reti => self.reti(memory),
            Instruction::JpCondImm16(c) => self.jp_cond_imm16(c, memory),
            Instruction::JpImm16 => self.jp_imm16(memory),
            Instruction::JpHl => self.jp_hl(),
            Instruction::CallCondImm16(c) => self.call_cond_imm16(c, memory),
            Instruction::CallImm16 => self.call_imm16(memory),
            Instruction::Rst(v) => self.rst_tgt3(v, memory),
            Instruction::Pop(r) => self.pop_r16stk(r, memory),
            Instruction::Push(r) => self.push_r16stk(r, memory),
            Instruction::LdhCA => self.ldh_c_a(memory),
            Instruction::LdhImm8A => self.ldh_imm8_a(memory),
            Instruction::LdImm16A => self.ld_imm16_a(memory),
            Instruction::LdhAC => self.ldh_a_c(memory),
            Instruction::LdhAImm8 => self.ldh_a_imm8(memory),
            Instruction::LdAImm16 => self.ld_a_imm16(memory),
            Instruction::AddSpImm8 => self.add_sp_imm8(memory),
            Instruction::LdHlSpImm8 => self.ld_hl_sp_plus_imm8(memory),
            Instruction::LdSpHl => self.ld_sp_hl(),
            Instruction::Di => self.di(),
            Instruction::Ei => self.ei(),
            _ => {},
        }
    }

    fn run_group3<M: MemoryInterface>(&mut self, instr: Instruction, memory: &mut M)
        requires
            old(memory).mem_wf(),
            instruction_wf(instr),
            instruction_group(instr) == 3,
        ensures
            (*final(self), *final(memory)) == old(self).spec_run(*old(memory), instr),
            final(memory).mem_wf(),
    {
        match instr {
            Instruction::Prefix => {},
            Instruction::Invalid => {},
            Instruction::Shift(op, r) => match op {
                ShiftOp::Rlc => self.rlc_r8(r, memory),
                ShiftOp::Rrc => self.rrc_r8(r, memory),
                ShiftOp::Rl => self.rl_r8(r, memory),
                ShiftOp::Rr => self.rr_r8(r, memory),
                ShiftOp::Sla => self.sla_r8(r, memory),
                ShiftOp::Sra => self.sra_r8(r, memory),
                ShiftOp::Swap => self.swap_r8(r, memory),
                ShiftOp::Srl => self.srl_r8(r, memory),
            },
            Instruction::TestBit(b, r) => self.bit_b3_r8(r, b, memory),
            Instruction::ResBit(b, r) => self.res_b3_r8(r, b, memory),
            Instruction::SetBit(b, r) => self.set_b3_r8(r, b, memory),

            _ => {},
        }
    }

    /// Runs one decoded instruction whose opcode bytes have been consumed.
    pub fn run_instruction<M: MemoryInterface>(&mut self, instr: Instruction, memory: &mut M)
        requires
            old(memory).mem_wf(),
            instruction_wf(instr),
        ensures
            (*final(self), *final(memory)) == old(self).spec_run(*old(memory), instr),
            final(memory).mem_wf(),
    {
        let g = dispatch_group(&instr);
        if g == 0 {
            self.run_group0(instr, memory);
        } else if g == 1 {
            self.run_group1(instr, memory);
        } else if g == 2 {
            self.run_group2(instr, memory);
        } else {
            self.run_group3(instr, memory);
        }
    }

    /// Executes an opcode of the main table (its byte already fetched).
    pub fn execute<M: MemoryInterface>(&mut self, opcode: u8, memory: &mut M)
        requires
            old(memory).mem_wf(),
        ensures
            (*final(self), *final(memory)) == old(self).spec_run(*old(memory), spec_decode(opcode)),
            final(memory).mem_wf(),
    {
        let instr = decode(opcode);
        self.run_instruction(instr, memory);
    }

    /// Executes an opcode of the 0xCB-prefixed table (both bytes already fetched).
    pub fn execute_cb<M: MemoryInterface>(&mut self, opcode: u8, memory: &mut M)
        requires
            old(memory).mem_wf(),
        ensures
            (*final(self), *final(memory)) == old(self).spec_run(*old(memory), spec_decode_cb(opcode)),
            final(memory).mem_wf(),
    {
        let instr = decode_cb(opcode);
        proof {
            assert((opcode as int / 8) % 8 < 8);
        }
        self.run_instruction(instr, memory);
    }
}

} // verus!
