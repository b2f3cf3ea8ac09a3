use vstd::prelude::*;
use crate::bus::{MemoryInterface, word, low_byte, high_byte, make_word, split_word};
use crate::cpu::CPU;

verus! {

#[derive(Debug, Clone, Copy, PartialEq, Eq, Structural)]
pub enum Register16 {
    BC,
    DE,
    HL,
    SP,
}

#[derive(Debug, Clone, Copy, PartialEq, Eq, Structural)]
pub enum Register8 {
    B,
    C,
    D,
    E,
    H,
    L,
    HLIndirect,
    A,
}

/// 16-bit registers used as a memory pointer; HLi and HLd step HL after the access.
#[derive(Debug, Clone, Copy, PartialEq, Eq, Structural)]
pub enum Register16Mem {
    BC,
    DE,
    HLi,
    HLd,
}

/// 16-bit registers that PUSH and POP move.
#[derive(Debug, Clone, Copy, PartialEq, Eq, Structural)]
pub enum Register16Stk {
    BC,
    DE,
    HL,
    AF,
}

impl CPU {
    pub open spec fn spec_hl(self) -> u16 {
        word(self.l, self.h)
    }

    pub open spec fn spec_r16(self, r: Register16) -> u16 {
        match r {
            Register16::BC => word(self.c, self.b),
            Register16::DE => word(self.e, self.d),
            Register16::HL => word(self.l, self.h),
            Register16::SP => self.sp,
        }
    }

    pub open spec fn with_r16(self, r: Register16, v: u16) -> CPU {
        match r {
            Register16::BC => CPU { b: high_byte(v), c: low_byte(v), ..self },
            Register16::DE => CPU { d: high_byte(v), e: low_byte(v), ..self },
            Register16::HL => CPU { h: high_byte(v), l: low_byte(v), ..self },
            Register16::SP => CPU { sp: v, ..self },
        }
    }

    /// The value an 8-bit operand reads: a register, or the byte at HL.
    pub open spec fn spec_r8<M: MemoryInterface>(self, r: Register8, mem: M) -> u8 {
        match r {
            Register8::B => self.b,
            Register8::C => self.c,
            Register8::D => self.d,
            Register8::E => self.e,
            Register8::H => self.h,
            Register8::L => self.l,
            Register8::HLIndirect => mem.spec_read_byte(self.spec_hl()),
            Register8::A => self.a,
        }
    }

    /// The processor after writing an 8-bit operand (a write to the byte at HL leaves it unchanged).
    pub open spec fn with_r8(self, r: Register8, v: u8) -> CPU {
        match r {
            Register8::B => CPU { b: v, ..self },
            Register8::C => CPU { c: v, ..self },
            Register8::D => CPU { d: v, ..self },
            Register8::E => CPU { e: v, ..self },
            Register8::H => CPU { h: v, ..self },
            Register8::L => CPU { l: v, ..self },
            Register8::HLIndirect => self,
            Register8::A => CPU { a: v, ..self },
        }
    }

    /// The memory after writing an 8-bit operand (only a write to the byte at HL changes it).
    pub open spec fn mem_with_r8<M: MemoryInterface>(self, r: Register8, v: u8, mem: M) -> M {
        match r {
            Register8::HLIndirect => mem.spec_write_byte(self.spec_hl(), v),
            _ => mem,
        }
    }

    pub open spec fn spec_r16stk(self, r: Register16Stk) -> u16 {
        match r {
            Register16Stk::BC => word(self.c, self.b),
            Register16Stk::DE => word(self.e, self.d),
            Register16Stk::HL => word(self.l, self.h),
            Register16Stk::AF => word(self.f.spec_bits(), self.a),
        }
    }

    pub open spec fn with_r16stk(self, r: Register16Stk, v: u16) -> CPU {
        match r {
            Register16Stk::BC => CPU { b: high_byte(v), c: low_byte(v), ..self },
            Register16Stk::DE => CPU { d: high_byte(v), e: low_byte(v), ..self },
            Register16Stk::HL => CPU { h: high_byte(v), l: low_byte(v), ..self },
            Register16Stk::AF => CPU {
                a: high_byte(v),
                f: crate::flags::Flags::spec_from_bits(low_byte(v)),
                ..self
            },
        }
    }

    /// The address a pointer register gives.
    pub open spec fn spec_r16mem(self, r: Register16Mem) -> u16 {
        match r {
            Register16Mem::BC => word(self.c, self.b),
            Register16Mem::DE => word(self.e, self.d),
            Register16Mem::HLi => self.spec_hl(),
            Register16Mem::HLd => self.spec_hl(),
        }
    }

    /// The processor after using a pointer register: HL+ and HL- step HL.
    pub open spec fn after_r16mem(self, r: Register16Mem) -> CPU {
        match r {
            Register16Mem::HLi => self.with_r16(Register16::HL, self.spec_hl().wrapping_add(1)),
            Register16Mem::HLd => self.with_r16(Register16::HL, self.spec_hl().wrapping_sub(1)),
            _ => self,
        }
    }

    pub fn get_r8<M: MemoryInterface>(&self, register: &Register8, memory: &M) -> (r: u8)
        requires
            memory.mem_wf(),
        ensures
            r == self.spec_r8(*register, *memory),
    {
        match register {
            Register8::B => self.b,
            Register8::C => self.c,
            Register8::D => self.d,
            Register8::E => self.e,
            Register8::H => self.h,
            Register8::L => self.l,
            Register8::HLIndirect => {
                let hl = self.get_r16(&Register16::HL);
                memory.read_byte(hl)
            },
            Register8::A => self.a,
        }
    }

    pub fn set_r8<M: MemoryInterface>(&mut self, register: &Register8, value: u8, memory: &mut M)
        requires
            old(memory).mem_wf(),
        ensures
            *final(self) == old(self).with_r8(*register, value),
            *final(memory) == old(self).mem_with_r8(*register, value, *old(memory)),
            final(memory).mem_wf(),
    {
        match register {
            Register8::B => self.b = value,
            Register8::C => self.c = value,
            Register8::D => self.d = value,
            Register8::E => self.e = value,
            Register8::H => self.h = value,
            Register8::L => self.l = value,
            Register8::HLIndirect => {
                let hl = self.get_r16(&Register16::HL);
                memory.write_byte(hl, value);
            },
            Register8::A => self.a = value,
        }
    }

    pub fn get_r16(&self, register: &Register16) -> (r: u16)
        ensures
            r == self.spec_r16(*register),
    {
        match register {
            Register16::BC => make_word(self.c, self.b),
            Register16::DE => make_word(self.e, self.d),
            Register16::HL => make_word(self.l, self.h),
            Register16::SP => self.sp,
        }
    }

    pub fn set_r16(&mut self, register: &Register16, value: u16)
        ensures
            *final(self) == old(self).with_r16(*register, value),
    {
        let (low, high) = split_word(value);
        match register {
            Register16::BC => {
                self.b = high;
                self.c = low;
            },
            Register16::DE => {
                self.d = high;
                self.e = low;
            },
            Register16::HL => {
                self.h = high;
                self.l = low;
            },
            Register16::SP => self.sp = value,
        }
    }

    /// The address held in a pointer register; HL+ and HL- step HL afterwards.
    pub fn get_r16mem(&mut self, register: &Register16Mem) -> (r: u16)
        ensures
            r == old(self).spec_r16mem(*register),
            *final(self) == old(self).after_r16mem(*register),
    {
        match register {
            Register16Mem::BC => make_word(self.c, self.b),
            Register16Mem::DE => make_word(self.e, self.d),
            Register16Mem::HLi => {
                let hl = self.get_r16(&Register16::HL);
                self.set_r16(&Register16::HL, hl.wrapping_add(1));
                hl
            },
            Register16Mem::HLd => {
                let hl = self.get_r16(&Register16::HL);
                self.set_r16(&Register16::HL, hl.wrapping_sub(1));
                hl
            },
        }
    }

    pub fn get_r16stk(&self, register: &Register16Stk) -> (r: u16)
        ensures
            r == self.spec_r16stk(*register),
    {
        match register {
            Register16Stk::BC => make_word(self.c, self.b),
            Register16Stk::DE => make_word(self.e, self.d),
            Register16Stk::HL => make_word(self.l, self.h),
            Register16Stk::AF => {
                let f = self.f.bits();
                make_word(f, self.a)
            },
        }
    }

    pub fn set_r16stk(&mut self, register: &Register16Stk, value: u16)
        ensures
            *final(self) == old(self).with_r16stk(*register, value),
    {
        let (low, high) = split_word(value);
        match register {
            Register16Stk::BC => {
                self.b = high;
                self.c = low;
            },
            Register16Stk::DE => {
                self.d = high;
                self.e = low;
            },
            Register16Stk::HL => {
                self.h = high;
                self.l = low;
            },
            Register16Stk::AF => {
                self.a = high;
                self.f = crate::flags::Flags::from_bits_truncate(low);
            },
        }
    }
}

/// Writing a 16-bit register and reading it back gives the value written.
pub proof fn lemma_r16_read_after_write(cpu: CPU, r: Register16, v: u16)
    ensures
        cpu.with_r16(r, v).spec_r16(r) == v,
{
    crate::bus::lemma_word_roundtrip(v);
}

/// Writing an 8-bit register and reading it back gives the value written.
pub proof fn lemma_r8_read_after_write<M: MemoryInterface>(cpu: CPU, r: Register8, v: u8, mem: M)
    requires
        r != Register8::HLIndirect,
    ensures
        cpu.with_r8(r, v).spec_r8(r, mem) == v,
{
}

} // verus!
