use vstd::prelude::*;
use crate::bus::{MemoryInterface, word, next_address, low_byte, high_byte};
use crate::cpu::CPU;
use crate::cpu::alu::{add8, sub8};
use crate::cpu::block0::{signed8, offset16, rotate_left8, rotate_right8, daa_result};
use crate::cpu::block3::{RstVec, mem_after_push, popped_word, imm16_at, sp_offset_flags};
use crate::cpu::registers::{Register16, Register16Mem, Register16Stk, Register8};
use crate::flags::{Condition, Flags};

verus! {

/// The effect of each instruction on the processor and the memory, as the SM83 defines it.
impl CPU {
    /// The processor with PC moved past `n` operand bytes.
    pub open spec fn skip(self, n: u16) -> CPU {
        CPU { pc: self.pc.wrapping_add(n), ..self }
    }

    pub open spec fn sem_ld_r16_imm16<M: MemoryInterface>(self, mem: M, r: Register16) -> (CPU, M) {
        (self.skip(2).with_r16(r, imm16_at(mem, self.pc)), mem)
    }

    pub open spec fn sem_ld_r16mem_a<M: MemoryInterface>(self, mem: M, r: Register16Mem) -> (CPU, M) {
        (self.after_r16mem(r), mem.spec_write_byte(self.spec_r16mem(r), self.a))
    }

    pub open spec fn sem_ld_a_r16mem<M: MemoryInterface>(self, mem: M, r: Register16Mem) -> (CPU, M) {
        (CPU { a: mem.spec_read_byte(self.spec_r16mem(r)), ..self.after_r16mem(r) }, mem)
    }

    pub open spec fn sem_ld_imm16_sp<M: MemoryInterface>(self, mem: M) -> (CPU, M) {
        let addr = imm16_at(mem, self.pc);
        (
            self.skip(2),
            mem.spec_write_byte(addr, low_byte(self.sp)).spec_write_byte(next_address(addr), high_byte(self.sp)),
        )
    }

    pub open spec fn sem_inc_r16(self, r: Register16) -> CPU {
        self.with_r16(r, self.spec_r16(r).wrapping_add(1))
    }

    pub open spec fn sem_dec_r16(self, r: Register16) -> CPU {
        self.with_r16(r, self.spec_r16(r).wrapping_sub(1))
    }

    pub open spec fn sem_add_hl_r16(self, r: Register16) -> CPU {
        let hl = self.spec_hl();
        let v = self.spec_r16(r);
        self.with_r16(Register16::HL, hl.wrapping_add(v)).with_flags(Flags {
            n: false,
            h: (hl % 4096) + (v % 4096) > 4095,
            c: hl + v > 65535,
            ..self.f
        })
    }

    pub open spec fn sem_inc_r8<M: MemoryInterface>(self, mem: M, r: Register8) -> (CPU, M) {
        let v = add8(self.spec_r8(r, mem), 1, 0);
        (
            self.with_r8(r, v).with_flags(Flags { z: v == 0, n: false, h: v % 16 == 0, ..self.f }),
            self.mem_with_r8(r, v, mem),
        )
    }

    pub open spec fn sem_dec_r8<M: MemoryInterface>(self, mem: M, r: Register8) -> (CPU, M) {
        let v = sub8(self.spec_r8(r, mem), 1, 0);
        (
            self.with_r8(r, v).with_flags(Flags { z: v == 0, n: true, h: v % 16 == 15, ..self.f }),
            self.mem_with_r8(r, v, mem),
        )
    }

    pub open spec fn sem_ld_r8_imm8<M: MemoryInterface>(self, mem: M, r: Register8) -> (CPU, M) {
        let imm = mem.spec_read_byte(self.pc);
        (self.skip(1).with_r8(r, imm), self.skip(1).mem_with_r8(r, imm, mem))
    }

    pub open spec fn sem_rlca(self) -> CPU {
        CPU { a: rotate_left8(self.a), f: Flags { z: false, n: false, h: false, c: self.a >= 128 }, ..self }
    }

    pub open spec fn sem_rrca(self) -> CPU {
        CPU { a: rotate_right8(self.a), f: Flags { z: false, n: false, h: false, c: self.a % 2 == 1 }, ..self }
    }

    pub open spec fn sem_rla(self) -> CPU {
        CPU {
            a: ((self.a * 2) % 256 + (if self.f.c { 1int } else { 0 })) as u8,
            f: Flags { z: false, n: false, h: false, c: self.a >= 128 },
            ..self
        }
    }

    pub open spec fn sem_rra(self) -> CPU {
        CPU {
            a: (self.a / 2 + (if self.f.c { 128int } else { 0 })) as u8,
            f: Flags { z: false, n: false, h: false, c: self.a % 2 == 1 },
            ..self
        }
    }

    pub open spec fn sem_daa(self) -> CPU {
        let (r, carry) = daa_result(self.a, self.f);
        CPU { a: r, f: Flags { z: r == 0, h: false, c: carry, ..self.f }, ..self }
    }

    pub open spec fn sem_cpl(self) -> CPU {
        CPU { a: (255 - self.a) as u8, f: Flags { n: true, h: true, ..self.f }, ..self }
    }

    pub open spec fn sem_scf(self) -> CPU {
        self.with_flags(Flags { c: true, h: false, n: false, ..self.f })
    }

    pub open spec fn sem_ccf(self) -> CPU {
        self.with_flags(Flags { c: !self.f.c, h: false, n: false, ..self.f })
    }

    pub open spec fn sem_jr_cond_imm8<M: MemoryInterface>(self, mem: M, taken: bool) -> CPU {
        CPU {
            pc: if taken {
                offset16(self.pc.wrapping_add(1), signed8(mem.spec_read_byte(self.pc)))
            } else {
                self.pc.wrapping_add(1)
            },
            ..self
        }
    }

    pub open spec fn sem_halt<M: MemoryInterface>(self, mem: M) -> CPU {
        let pending = mem.spec_read_byte(0xFFFF) & mem.spec_read_byte(0xFF0F);
        if self.ime || pending == 0 {
            CPU { halt: true, ..self }
        } else {
            CPU { halt_bug: true, ..self }
        }
    }

    pub open spec fn sem_ld_r8_r8<M: MemoryInterface>(self, mem: M, dst: Register8, src: Register8) -> (CPU, M) {
        let v = self.spec_r8(src, mem);
        (self.with_r8(dst, v), self.mem_with_r8(dst, v, mem))
    }

    pub open spec fn sem_bit<M: MemoryInterface>(self, mem: M, b: u8, r: Register8) -> CPU {
        self.with_flags(Flags { z: (self.spec_r8(r, mem) >> b) & 1 == 0, n: false, h: true, ..self.f })
    }

    pub open spec fn sem_res<M: MemoryInterface>(self, mem: M, b: u8, r: Register8) -> (CPU, M) {
        let v = self.spec_r8(r, mem) & !(1u8 << b);
        (self.with_r8(r, v), self.mem_with_r8(r, v, mem))
    }

    pub open spec fn sem_set<M: MemoryInterface>(self, mem: M, b: u8, r: Register8) -> (CPU, M) {
        let v = self.spec_r8(r, mem) | (1u8 << b);
        (self.with_r8(r, v), self.mem_with_r8(r, v, mem))
    }

    pub open spec fn sem_ret<M: MemoryInterface>(self, mem: M) -> CPU {
        CPU { pc: popped_word(mem, self.sp), sp: self.sp.wrapping_add(2), ..self }
    }

    pub open spec fn sem_jp_cond_imm16<M: MemoryInterface>(self, mem: M, taken: bool) -> CPU {
        CPU { pc: if taken { imm16_at(mem, self.pc) } else { self.pc.wrapping_add(2) }, ..self }
    }

    pub open spec fn sem_call_imm16<M: MemoryInterface>(self, mem: M) -> (CPU, M) {
        (
            CPU { pc: imm16_at(mem, self.pc), sp: self.sp.wrapping_sub(2), ..self },
            mem_after_push(mem, self.sp, self.pc.wrapping_add(2)),
        )
    }

    pub open spec fn sem_rst<M: MemoryInterface>(self, mem: M, v: RstVec) -> (CPU, M) {
        (CPU { pc: v.spec_address(), sp: self.sp.wrapping_sub(2), ..self }, mem_after_push(mem, self.sp, self.pc))
    }

    pub open spec fn sem_pop<M: MemoryInterface>(self, mem: M, r: Register16Stk) -> CPU {
        CPU { sp: self.sp.wrapping_add(2), ..self }.with_r16stk(r, popped_word(mem, self.sp))
    }

    pub open spec fn sem_push<M: MemoryInterface>(self, mem: M, r: Register16Stk) -> (CPU, M) {
        (CPU { sp: self.sp.wrapping_sub(2), ..self }, mem_after_push(mem, self.sp, self.spec_r16stk(r)))
    }

    pub open spec fn sem_add_sp_imm8<M: MemoryInterface>(self, mem: M) -> CPU {
        let imm = mem.spec_read_byte(self.pc);
        CPU {
            pc: self.pc.wrapping_add(1),
            sp: offset16(self.sp, signed8(imm)),
            f: sp_offset_flags(self.sp, imm),
            ..self
        }
    }

    pub open spec fn sem_ld_hl_sp_plus_imm8<M: MemoryInterface>(self, mem: M) -> CPU {
        let imm = mem.spec_read_byte(self.pc);
        CPU { pc: self.pc.wrapping_add(1), f: sp_offset_flags(self.sp, imm), ..self }.with_r16(
            Register16::HL,
            offset16(self.sp, signed8(imm)),
        )
    }
}

} // verus!
