use vstd::prelude::*;
use crate::bus::{MemoryInterface, word, next_address, low_byte, high_byte, make_word, split_word};
use crate::cpu::CPU;
use crate::cpu::block0::{signed8, offset16, add_signed_offset};
use crate::cpu::registers::{Register16, Register16Stk, Register8};
use crate::flags::{Condition, Flags};

verus! {

/// The fixed call targets of RST.
#[derive(Debug, Clone, Copy, PartialEq, Eq, Structural)]
pub enum RstVec {
    Rst00,
    Rst08,
    Rst10,
    Rst18,
    Rst20,
    Rst28,
    Rst30,
    Rst38,
}

impl RstVec {
    pub open spec fn spec_address(self) -> u16 {
        match self {
            RstVec::Rst00 => 0x00,
            RstVec::Rst08 => 0x08,
            RstVec::Rst10 => 0x10,
            RstVec::Rst18 => 0x18,
            RstVec::Rst20 => 0x20,
            RstVec::Rst28 => 0x28,
            RstVec::Rst30 => 0x30,
            RstVec::Rst38 => 0x38,
        }
    }

    pub fn address(self) -> (r: u16)
        ensures r == self.spec_address(),
    {
        match self {
            RstVec::Rst00 => 0x00,
            RstVec::Rst08 => 0x08,
            RstVec::Rst10 => 0x10,
            RstVec::Rst18 => 0x18,
            RstVec::Rst20 => 0x20,
            RstVec::Rst28 => 0x28,
            RstVec::Rst30 => 0x30,
            RstVec::Rst38 => 0x38,
        }
    }
}

/// The memory after a push of a word below `sp`: high byte at sp-1, low byte at sp-2.
pub open spec fn mem_after_push<M: MemoryInterface>(mem: M, sp: u16, value: u16) -> M {
    mem.spec_write_byte(sp.wrapping_sub(1), high_byte(value)).spec_write_byte(sp.wrapping_sub(2), low_byte(value))
}

/// The word a pop at `sp` reads.
pub open spec fn popped_word<M: MemoryInterface>(mem: M, sp: u16) -> u16 {
    word(mem.spec_read_byte(sp), mem.spec_read_byte(sp.wrapping_add(1)))
}

/// The immediate word at PC.
pub open spec fn imm16_at<M: MemoryInterface>(mem: M, pc: u16) -> u16 {
    word(mem.spec_read_byte(pc), mem.spec_read_byte(next_address(pc)))
}

/// ADD SP, imm8 and LD HL, SP+imm8: H and C come from the unsigned low byte.
pub open spec fn sp_offset_flags(sp: u16, imm8: u8) -> Flags {
    Flags { z: false, n: false, h: (sp % 16) + (imm8 % 16) > 15, c: (sp % 256) + imm8 > 255 }
}

impl CPU {
    /// Pushes a word onto the stack, high byte first.
    pub fn push_word<M: MemoryInterface>(&mut self, value: u16, memory: &mut M)
        requires
            old(memory).mem_wf(),
        ensures
            *final(self) == (CPU { sp: old(self).sp.wrapping_sub(2), ..*old(self) }),
            *final(memory) == mem_after_push(*old(memory), old(self).sp, value),
            final(memory).mem_wf(),
    {
        let (low, high) = split_word(value);
        self.sp = self.sp.wrapping_sub(1);
        memory.write_byte(self.sp, high);
        self.sp = self.sp.wrapping_sub(1);
        memory.write_byte(self.sp, low);
        proof {
            let s = old(self).sp;
            assert(s.wrapping_sub(1).wrapping_sub(1) == s.wrapping_sub(2));
        }
    }

    /// Pops a word off the stack, low byte first.
    pub fn pop_word<M: MemoryInterface>(&mut self, memory: &M) -> (r: u16)
        requires
            memory.mem_wf(),
        ensures
            r == popped_word(*memory, old(self).sp),
            *final(self) == (CPU { sp: old(self).sp.wrapping_add(2), ..*old(self) }),
    {
        let low = memory.read_byte(self.sp);
        self.sp = self.sp.wrapping_add(1);
        let high = memory.read_byte(self.sp);
        self.sp = self.sp.wrapping_add(1);
        make_word(low, high)
    }

    fn arithmetic_op_imm8<M: MemoryInterface>(&mut self, is_subtract: bool, use_carry: bool, memory: &mut M)
        requires
            old(memory).mem_wf(),
        ensures
            ({
                let imm = old(memory).spec_read_byte(old(self).pc);
                let moved = CPU { pc: old(self).pc.wrapping_add(1), ..*old(self) };
                &&& !is_subtract ==> *final(self) == moved.spec_add_a(imm, use_carry)
                &&& is_subtract ==> *final(self) == moved.spec_sub_a(imm, use_carry)
            }),
            *final(memory) == *old(memory),
    {
        let imm8 = self.fetch_byte(memory);
        self.alu_arith(imm8, is_subtract, use_carry, true);
    }

    pub fn add_a_imm8<M: MemoryInterface>(&mut self, memory: &mut M)
        requires old(memory).mem_wf(),
        ensures
            *final(self) == (CPU { pc: old(self).pc.wrapping_add(1), ..*old(self) }).spec_add_a(
                old(memory).spec_read_byte(old(self).pc), false),
            *final(memory) == *old(memory),
    {
        self.arithmetic_op_imm8(false, false, memory);
    }

    pub fn adc_a_imm8<M: MemoryInterface>(&mut self, memory: &mut M)
        requires old(memory).mem_wf(),
        ensures
            *final(self) == (CPU { pc: old(self).pc.wrapping_add(1), ..*old(self) }).spec_add_a(
                old(memory).spec_read_byte(old(self).pc), true),
            *final(memory) == *old(memory),
    {
        self.arithmetic_op_imm8(false, true, memory);
    }

    pub fn sub_a_imm8<M: MemoryInterface>(&mut self, memory: &mut M)
        requires old(memory).mem_wf(),
        ensures
            *final(self) == (CPU { pc: old(self).pc.wrapping_add(1), ..*old(self) }).spec_sub_a(
                old(memory).spec_read_byte(old(self).pc), false),
            *final(memory) == *old(memory),
    {
        self.arithmetic_op_imm8(true, false, memory);
    }

    pub fn sbc_a_imm8<M: MemoryInterface>(&mut self, memory: &mut M)
        requires old(memory).mem_wf(),
        ensures
            *final(self) == (CPU { pc: old(self).pc.wrapping_add(1), ..*old(self) }).spec_sub_a(
                old(memory).spec_read_byte(old(self).pc), true),
            *final(memory) == *old(memory),
    {
        self.arithmetic_op_imm8(true, true, memory);
    }

    pub fn and_a_imm8<M: MemoryInterface>(&mut self, memory: &mut M)
        requires old(memory).mem_wf(),
        ensures
            *final(self) == (CPU { pc: old(self).pc.wrapping_add(1), ..*old(self) }).spec_and_a(
                old(memory).spec_read_byte(old(self).pc)),
            *final(memory) == *old(memory),
    {
        let imm8 = self.fetch_byte(memory);
        self.alu_logic(self.a & imm8, true);
    }

    pub fn xor_a_imm8<M: MemoryInterface>(&mut self, memory: &mut M)
        requires old(memory).mem_wf(),
        ensures
            *final(self) == (CPU { pc: old(self).pc.wrapping_add(1), ..*old(self) }).spec_xor_a(
                old(memory).spec_read_byte(old(self).pc)),
            *final(memory) == *old(memory),
    {
        let imm8 = self.fetch_byte(memory);
        self.alu_logic(self.a ^ imm8, false);
    }

    pub fn or_a_imm8<M: MemoryInterface>(&mut self, memory: &mut M)
        requires old(memory).mem_wf(),
        ensures
            *final(self) == (CPU { pc: old(self).pc.wrapping_add(1), ..*old(self) }).spec_or_a(
                old(memory).spec_read_byte(old(self).pc)),
            *final(memory) == *old(memory),
    {
        let imm8 = self.fetch_byte(memory);
        self.alu_logic(self.a | imm8, false);
    }

    pub fn cp_a_imm8<M: MemoryInterface>(&mut self, memory: &mut M)
        requires old(memory).mem_wf(),
        ensures
            *final(self) == (CPU { pc: old(self).pc.wrapping_add(1), ..*old(self) }).spec_cp_a(
                old(memory).spec_read_byte(old(self).pc)),
            *final(memory) == *old(memory),
    {
        let imm8 = self.fetch_byte(memory);
        self.alu_arith(imm8, true, false, false);
    }

    /// RET: pop the program counter.
    pub fn ret<M: MemoryInterface>(&mut self, memory: &mut M)
        requires old(memory).mem_wf(),
        ensures
            *final(self) == (CPU {
                pc: popped_word(*old(memory), old(self).sp),
                sp: old(self).sp.wrapping_add(2),
                ..*old(self)
            }),
            *final(memory) == *old(memory),
    {
        let address = self.pop_word(memory);
        self.pc = address;
    }

    /// RET cc
    pub fn ret_cc<M: MemoryInterface>(&mut self, condition: Condition, memory: &mut M)
        requires old(memory).mem_wf(),
        ensures
            old(self).spec_condition(condition) ==> *final(self) == (CPU {
                pc: popped_word(*old(memory), old(self).sp),
                sp: old(self).sp.wrapping_add(2),
                ..*old(self)
            }),
            !old(self).spec_condition(condition) ==> *final(self) == *old(self),
            *final(memory) == *old(memory),
    {
        if self.should_jump(condition) {
            self.ret(memory);
        }
    }

    /// RETI: schedule interrupts on and return.
    pub fn reti<M: MemoryInterface>(&mut self, memory: &mut M)
        requires old(memory).mem_wf(),
        ensures
            *final(self) == (CPU {
                pc: popped_word(*old(memory), old(self).sp),
                sp: old(self).sp.wrapping_add(2),
                ime_scheduled: true,
                ..*old(self)
            }),
            *final(memory) == *old(memory),
    {
        self.ei();
        self.ret(memory);
    }

    /// JP cc, imm16: the operand is always consumed.
    pub fn jp_cond_imm16<M: MemoryInterface>(&mut self, condition: Condition, memory: &mut M)
        requires old(memory).mem_wf(),
        ensures
            *final(self) == (CPU {
                pc: if old(self).spec_condition(condition) {
                    imm16_at(*old(memory), old(self).pc)
                } else {
                    old(self).pc.wrapping_add(2)
                },
                ..*old(self)
            }),
            *final(memory) == *old(memory),
    {
        let imm16 = self.fetch_word(memory);
        if self.should_jump(condition) {
            self.pc = imm16;
        }
    }

    /// JP imm16
    pub fn jp_imm16<M: MemoryInterface>(&mut self, memory: &mut M)
        requires old(memory).mem_wf(),
        ensures
            *final(self) == (CPU { pc: imm16_at(*old(memory), old(self).pc), ..*old(self) }),
            *final(memory) == *old(memory),
    {
        let imm16 = self.fetch_word(memory);
        self.pc = imm16;
    }

    /// JP HL
    pub fn jp_hl(&mut self)
        ensures
            *final(self) == (CPU { pc: old(self).spec_hl(), ..*old(self) }),
    {
        let hl = self.get_r16(&Register16::HL);
        self.pc = hl;
    }

    /// CALL imm16: push the address after the operand, then jump.
    pub fn call_imm16<M: MemoryInterface>(&mut self, memory: &mut M)
        requires old(memory).mem_wf(),
        ensures
            *final(self) == (CPU {
                pc: imm16_at(*old(memory), old(self).pc),
                sp: old(self).sp.wrapping_sub(2),
                ..*old(self)
            }),
            *final(memory) == mem_after_push(*old(memory), old(self).sp, old(self).pc.wrapping_add(2)),
            final(memory).mem_wf(),
    {
        let address = self.fetch_word(memory);
        let ret_address = self.pc;
        self.push_word(ret_address, memory);
        self.pc = address;
    }

    /// CALL cc, imm16: the operand is always consumed.
    pub fn call_cond_imm16<M: MemoryInterface>(&mut self, condition: Condition, memory: &mut M)
        requires old(memory).mem_wf(),
        ensures
            old(self).spec_condition(condition) ==> {
                &&& *final(self) == (CPU {
                    pc: imm16_at(*old(memory), old(self).pc),
                    sp: old(self).sp.wrapping_sub(2),
                    ..*old(self)
                })
                &&& *final(memory) == mem_after_push(*old(memory), old(self).sp, old(self).pc.wrapping_add(2))
            },
            !old(self).spec_condition(condition) ==> {
                &&& *final(self) == (CPU { pc: old(self).pc.wrapping_add(2), ..*old(self) })
                &&& *final(memory) == *old(memory)
            },
            final(memory).mem_wf(),
    {
        if self.should_jump(condition) {
            self.call_imm16(memory);
        } else {
            self.pc = self.pc.wrapping_add(2);
        }
    }

    /// RST vec: push the program counter and jump to the fixed vector.
    pub fn rst_tgt3<M: MemoryInterface>(&mut self, tgt3: RstVec, memory: &mut M)
        requires old(memory).mem_wf(),
        ensures
            *final(self) == (CPU { pc: tgt3.spec_address(), sp: old(self).sp.wrapping_sub(2), ..*old(self) }),
            *final(memory) == mem_after_push(*old(memory), old(self).sp, old(self).pc),
            final(memory).mem_wf(),
    {
        let ret_address = self.pc;
        self.push_word(ret_address, memory);
        self.pc = tgt3.address();
    }

    /// POP r16: for AF the low nibble of F reads as 0.
    pub fn pop_r16stk<M: MemoryInterface>(&mut self, register: Register16Stk, memory: &mut M)
        requires old(memory).mem_wf(),
        ensures
            *final(self) == (CPU { sp: old(self).sp.wrapping_add(2), ..*old(self) }).with_r16stk(
                register, popped_word(*old(memory), old(self).sp)),
            *final(memory) == *old(memory),
    {
        let value = self.pop_word(memory);
        self.set_r16stk(&register, value);
    }

    /// PUSH r16
    pub fn push_r16stk<M: MemoryInterface>(&mut self, register: Register16Stk, memory: &mut M)
        requires old(memory).mem_wf(),
        ensures
            *final(self) == (CPU { sp: old(self).sp.wrapping_sub(2), ..*old(self) }),
            *final(memory) == mem_after_push(*old(memory), old(self).sp, old(self).spec_r16stk(register)),
            final(memory).mem_wf(),
    {
        let value = self.get_r16stk(&register);
        self.push_word(value, memory);
    }

    /// LDH [C], A: store A at 0xFF00 + C.
    pub fn ldh_c_a<M: MemoryInterface>(&mut self, memory: &mut M)
        requires old(memory).mem_wf(),
        ensures
            *final(self) == *old(self),
            *final(memory) == old(memory).spec_write_byte((0xFF00 + old(self).c) as u16, old(self).a),
            final(memory).mem_wf(),
    {
        let address = 0xFF00u16 + self.c as u16;
        memory.write_byte(address, self.a);
    }

    /// LDH [imm8], A: store A at 0xFF00 + imm8.
    pub fn ldh_imm8_a<M: MemoryInterface>(&mut self, memory: &mut M)
        requires old(memory).mem_wf(),
        ensures
            *final(self) == (CPU { pc: old(self).pc.wrapping_add(1), ..*old(self) }),
            *final(memory) == old(memory).spec_write_byte(
                (0xFF00 + old(memory).spec_read_byte(old(self).pc)) as u16, old(self).a),
            final(memory).mem_wf(),
    {
        let imm8 = self.fetch_byte(memory);
        let address = 0xFF00u16 + imm8 as u16;
        memory.write_byte(address, self.a);
    }

    /// LD [imm16], A
    pub fn ld_imm16_a<M: MemoryInterface>(&mut self, memory: &mut M)
        requires old(memory).mem_wf(),
        ensures
            *final(self) == (CPU { pc: old(self).pc.wrapping_add(2), ..*old(self) }),
            *final(memory) == old(memory).spec_write_byte(imm16_at(*old(memory), old(self).pc), old(self).a),
            final(memory).mem_wf(),
    {
        let imm16 = self.fetch_word(memory);
        memory.write_byte(imm16, self.a);
    }

    /// LDH A, [C]: load A from 0xFF00 + C.
    pub fn ldh_a_c<M: MemoryInterface>(&mut self, memory: &mut M)
        requires old(memory).mem_wf(),
        ensures
            *final(self) == (CPU {
                a: old(memory).spec_read_byte((0xFF00 + old(self).c) as u16),
                ..*old(self)
            }),
            *final(memory) == *old(memory),
    {
        let value = memory.read_byte(0xFF00u16 + self.c as u16);
        self.a = value;
    }

    /// LDH A, [imm8]
    pub fn ldh_a_imm8<M: MemoryInterface>(&mut self, memory: &mut M)
        requires old(memory).mem_wf(),
        ensures
            *final(self) == (CPU {
                a: old(memory).spec_read_byte((0xFF00 + old(memory).spec_read_byte(old(self).pc)) as u16),
                pc: old(self).pc.wrapping_add(1),
                ..*old(self)
            }),
            *final(memory) == *old(memory),
    {
        let imm8 = self.fetch_byte(memory);
        let value = memory.read_byte(0xFF00u16 + imm8 as u16);
        self.a = value;
    }

    /// LD A, [imm16]
    pub fn ld_a_imm16<M: MemoryInterface>(&mut self, memory: &mut M)
        requires old(memory).mem_wf(),
        ensures
            *final(self) == (CPU {
                a: old(memory).spec_read_byte(imm16_at(*old(memory), old(self).pc)),
                pc: old(self).pc.wrapping_add(2),
                ..*old(self)
            }),
            *final(memory) == *old(memory),
    {
        let imm16 = self.fetch_word(memory);
        let value = memory.read_byte(imm16);
        self.a = value;
    }

    /// ADD SP, imm8 (signed): Z=0, N=0, H and C from the unsigned low byte.
    pub fn add_sp_imm8<M: MemoryInterface>(&mut self, memory: &mut M)
        requires old(memory).mem_wf(),
        ensures
            ({
                let imm = old(memory).spec_read_byte(old(self).pc);
                *final(self) == (CPU {
                    pc: old(self).pc.wrapping_add(1),
                    sp: offset16(old(self).sp, signed8(imm)),
                    f: sp_offset_flags(old(self).sp, imm),
                    ..*old(self)
                })
            }),
            *final(memory) == *old(memory),
    {
        let imm8 = self.fetch_byte(memory);
        let sp_in = self.sp;
        self.sp = add_signed_offset(sp_in, imm8);
        self.f = sp_offset_flags_exec(sp_in, imm8);
    }

    /// LD HL, SP+imm8 (signed): flags as ADD SP, imm8.
    pub fn ld_hl_sp_plus_imm8<M: MemoryInterface>(&mut self, memory: &mut M)
        requires old(memory).mem_wf(),
        ensures
            ({
                let imm = old(memory).spec_read_byte(old(self).pc);
                *final(self) == (CPU {
                    pc: old(self).pc.wrapping_add(1),
                    f: sp_offset_flags(old(self).sp, imm),
                    ..*old(self)
                }).with_r16(Register16::HL, offset16(old(self).sp, signed8(imm)))
            }),
            *final(memory) == *old(memory),
    {
        let imm8 = self.fetch_byte(memory);
        let sp_in = self.sp;
        let value = add_signed_offset(sp_in, imm8);
        self.set_r16(&Register16::HL, value);
        self.f = sp_offset_flags_exec(sp_in, imm8);
    }

    /// LD SP, HL
    pub fn ld_sp_hl(&mut self)
        ensures
            *final(self) == (CPU { sp: old(self).spec_hl(), ..*old(self) }),
    {
        let value = self.get_r16(&Register16::HL);
        self.sp = value;
    }

    /// DI: interrupts off at once.
    pub fn di(&mut self)
        ensures
            *final(self) == (CPU { ime: false, ..*old(self) }),
    {
        self.ime = false;
    }

    /// EI: interrupts on after the next instruction.
    pub fn ei(&mut self)
        ensures
            *final(self) == (CPU { ime_scheduled: true, ..*old(self) }),
    {
        self.ime_scheduled = true;
    }
}

pub fn sp_offset_flags_exec(sp: u16, imm8: u8) -> (r: Flags)
    ensures
        r == sp_offset_flags(sp, imm8),
{
    proof {
        assert(sp & 0xF == sp % 16) by { crate::bits::lemma_byte_bits(); crate::bits::lemma_word_bits(); }
        assert(sp & 0xFF == sp % 256) by { crate::bits::lemma_byte_bits(); crate::bits::lemma_word_bits(); }
        assert(imm8 & 0xF == imm8 % 16) by { crate::bits::lemma_byte_bits(); crate::bits::lemma_word_bits(); }
    }
    let half_carry = (sp & 0xF) + (imm8 & 0xF) as u16 > 0xF;
    let carry = (sp & 0xFF) + imm8 as u16 > 0xFF;
    Flags { z: false, n: false, h: half_carry, c: carry }
}


/// On plain memory, popping right after a push gives back the pushed word.
pub proof fn lemma_push_pop_memory(m: crate::memory::Memory, sp: u16, value: u16)
    ensures
        popped_word(mem_after_push(m, sp, value), sp.wrapping_sub(2)) == value,
{
    let hi = sp.wrapping_sub(1);
    let lo = sp.wrapping_sub(2);
    let m1 = m.spec_write_byte(hi, high_byte(value));
    crate::memory::lemma_memory_read_after_write(m, hi, high_byte(value), hi);
    crate::memory::lemma_memory_read_after_write(m1, lo, low_byte(value), lo);
    crate::memory::lemma_memory_read_after_write(m1, lo, low_byte(value), hi);
    assert(lo.wrapping_add(1) == hi);
    crate::bus::lemma_word_roundtrip(value);
}

/// On the bus, popping right after a push gives back the pushed word when the bus stores
/// both stack bytes: plain storage (video and work RAM, high RAM and the like) or external
/// RAM that the cartridge maps.
pub proof fn lemma_push_pop_bus(b: crate::bus::Bus, sp: u16, value: u16)
    requires
        b.wf(),
        b.stores(sp.wrapping_sub(1)),
        b.stores(sp.wrapping_sub(2)),
    ensures
        popped_word(mem_after_push(b, sp, value), sp.wrapping_sub(2)) == value,
{
    let hi = sp.wrapping_sub(1);
    let lo = sp.wrapping_sub(2);
    let b1 = b.spec_write_byte(hi, high_byte(value));
    crate::bus::lemma_bus_store_read_after_write(b, hi, high_byte(value), lo);
    crate::bus::lemma_bus_store_read_after_write(b, hi, high_byte(value), hi);
    assert(lo < 0xFFFF && hi == lo + 1);
    assert(lo.wrapping_add(1) == hi);
    if b.mbc.maps_ram(lo) && b.mbc.maps_ram(hi) {
        crate::cartridge::lemma_cart_ram_neighbours(b.mbc, lo);
        crate::cartridge::lemma_cart_ram_read_after_write(b.mbc, hi, high_byte(value), lo);
    }
    assert(b1.distinct_cells(lo, hi));
    crate::bus::lemma_bus_store_read_after_write(b1, lo, low_byte(value), hi);
    crate::bus::lemma_word_roundtrip(value);
}

} // verus!
