use vstd::prelude::*;
use crate::bus::MemoryInterface;
use crate::flags::Flags;
use crate::cpu::instruction::{spec_decode, spec_decode_cb};

pub mod registers;
pub mod alu;
pub mod fetch;
pub mod block0;
pub mod block1;
pub mod block2;
pub mod block3;
pub mod interrupts;
pub mod semantics;
pub mod instruction;
pub mod execute;
pub mod cycles;
pub mod properties;


verus! {

/// The SM83 processor state.
#[derive(Clone, Copy, Debug)]
pub struct CPU {
    pub a: u8,
    pub b: u8,
    pub c: u8,
    pub d: u8,
    pub e: u8,
    pub h: u8,
    pub l: u8,
    pub f: Flags,
    pub sp: u16,
    pub pc: u16,
    /// Interrupt master enable.
    pub ime: bool,
    /// Set by EI: IME turns on before the next instruction.
    pub ime_scheduled: bool,
    pub halt: bool,
    /// Set when HALT is executed with IME off and an interrupt pending:
    /// the byte after HALT is read twice.
    pub halt_bug: bool,
    /// T-cycles taken by the last step.
    pub cycles: usize,
}

/// A plain copy of the processor state, as saved in a save state.
#[derive(Clone, Copy, Debug, PartialEq, Eq, Structural)]
pub struct CPUState {
    pub a: u8,
    pub b: u8,
    pub c: u8,
    pub d: u8,
    pub e: u8,
    pub h: u8,
    pub l: u8,
    pub f: u8,
    pub sp: u16,
    pub pc: u16,
    pub ime: bool,
    pub ime_scheduled: bool,
    pub halt: bool,
    pub halt_bug: bool,
    pub cycles: usize,
}

impl CPU {
    pub open spec fn spec_new() -> CPU {
        CPU {
            a: 0,
            b: 0,
            c: 0,
            d: 0,
            e: 0,
            h: 0,
            l: 0,
            f: Flags { z: false, n: false, h: false, c: false },
            sp: 0xFFFE,
            pc: 0x0100,
            ime: false,
            ime_scheduled: false,
            halt: false,
            halt_bug: false,
            cycles: 0,
        }
    }

    pub fn new() -> (r: CPU)
        ensures
            r == CPU::spec_new(),
    {
        CPU {
            a: 0,
            b: 0,
            c: 0,
            d: 0,
            e: 0,
            h: 0,
            l: 0,
            f: Flags::empty(),
            sp: 0xFFFE,
            pc: 0x0100,
            ime: false,
            halt: false,
            halt_bug: false,
            cycles: 0,
            ime_scheduled: false,
        }
    }

    pub open spec fn spec_save_state(self) -> CPUState {
        CPUState {
            a: self.a,
            b: self.b,
            c: self.c,
            d: self.d,
            e: self.e,
            h: self.h,
            l: self.l,
            f: self.f.spec_bits(),
            sp: self.sp,
            pc: self.pc,
            ime: self.ime,
            ime_scheduled: self.ime_scheduled,
            halt: self.halt,
            halt_bug: self.halt_bug,
            cycles: self.cycles,
        }
    }

    pub open spec fn spec_load_state(state: CPUState) -> CPU {
        CPU {
            a: state.a,
            b: state.b,
            c: state.c,
            d: state.d,
            e: state.e,
            h: state.h,
            l: state.l,
            f: Flags::spec_from_bits(state.f),
            sp: state.sp,
            pc: state.pc,
            ime: state.ime,
            ime_scheduled: state.ime_scheduled,
            halt: state.halt,
            halt_bug: state.halt_bug,
            cycles: state.cycles,
        }
    }

    pub fn save_state(&self) -> (r: CPUState)
        ensures
            r == self.spec_save_state(),
    {
        CPUState {
            a: self.a,
            b: self.b,
            c: self.c,
            d: self.d,
            e: self.e,
            h: self.h,
            l: self.l,
            f: self.f.bits(),
            sp: self.sp,
            pc: self.pc,
            ime: self.ime,
            ime_scheduled: self.ime_scheduled,
            halt: self.halt,
            halt_bug: self.halt_bug,
            cycles: self.cycles,
        }
    }

    pub fn load_state(&mut self, state: CPUState)
        ensures
            *final(self) == CPU::spec_load_state(state),
    {
        self.a = state.a;
        self.b = state.b;
        self.c = state.c;
        self.d = state.d;
        self.e = state.e;
        self.h = state.h;
        self.l = state.l;
        self.f = Flags::from_bits_truncate(state.f);
        self.sp = state.sp;
        self.pc = state.pc;
        self.ime = state.ime;
        self.ime_scheduled = state.ime_scheduled;
        self.halt = state.halt;
        self.halt_bug = state.halt_bug;
        self.cycles = state.cycles;
    }

    /// EI takes effect one instruction late: a pending enable turns IME on.
    pub fn ime_instruction(&mut self)
        ensures
            old(self).ime_scheduled ==> *final(self) == (CPU { ime: true, ime_scheduled: false, ..*old(self) }),
            !old(self).ime_scheduled ==> *final(self) == *old(self),
    {
        if self.ime_scheduled {
            self.ime = true;
            self.ime_scheduled = false;
        }
    }

    /// After the HALT bug the program counter steps back so the next byte is read again.
    pub fn check_halt_bug(&mut self)
        ensures
            old(self).halt_bug ==> *final(self) == (CPU {
                halt_bug: false,
                pc: old(self).pc.wrapping_sub(1),
                ..*old(self)
            }),
            !old(self).halt_bug ==> *final(self) == *old(self),
    {
        if self.halt_bug {
            self.halt_bug = false;
            self.pc = self.pc.wrapping_sub(1);
        }
    }
}

impl CPU {
    /// The state after the fetch of an opcode byte: a pending EI takes effect, PC steps,
    /// and the HALT bug (if armed) steps PC back.
    pub open spec fn spec_after_fetch(self) -> CPU {
        let c1 = if self.ime_scheduled { CPU { ime: true, ime_scheduled: false, ..self } } else { self };
        let c2 = c1.skip(1);
        if c2.halt_bug { CPU { halt_bug: false, pc: c2.pc.wrapping_sub(1), ..c2 } } else { c2 }
    }

    /// The instruction part of a step: unless halted, fetch, decode and run one instruction
    /// and record its cycles (4 while halted).
    pub open spec fn spec_execute_step<M: MemoryInterface>(self, mem: M) -> (CPU, M) {
        if !self.halt {
            let opcode = mem.spec_read_byte(self.pc);
            let fetched = self.spec_after_fetch();
            if opcode == 0xCB {
                let cb = mem.spec_read_byte(fetched.pc);
                let (c, m) = fetched.skip(1).spec_run(mem, spec_decode_cb(cb));
                (CPU { cycles: c.spec_clock_cycles(cb, true) as usize, ..c }, m)
            } else {
                let (c, m) = fetched.spec_run(mem, spec_decode(opcode));
                (CPU { cycles: c.spec_clock_cycles(opcode, false) as usize, ..c }, m)
            }
        } else {
            (CPU { cycles: 4, ..self }, mem)
        }
    }

    /// One processor step: the instruction part, then interrupt dispatch.
    pub open spec fn spec_tick<M: MemoryInterface>(self, mem: M) -> (CPU, M) {
        let (stepped, mem1) = self.spec_execute_step(mem);
        stepped.spec_handle_interrupts(mem1)
    }

    /// Runs one step of the processor against a memory.
    pub fn tick<M: MemoryInterface>(&mut self, memory: &mut M)
        requires
            old(memory).mem_wf(),
            !old(self).halt ==> old(memory).spec_read_byte(old(self).pc) != 0xFC
                && old(memory).spec_read_byte(old(self).pc) != 0xFD,
        ensures
            (*final(self), *final(memory)) == old(self).spec_tick(*old(memory)),
            final(memory).mem_wf(),
    {
        if !self.halt {
            self.ime_instruction();
            let opcode = self.fetch_byte(memory);
            self.check_halt_bug();
            if opcode == 0xCB {
                let cb_opcode = self.fetch_byte(memory);
                self.execute_cb(cb_opcode, memory);
                self.cycles = self.clock_cycles(cb_opcode, true) as usize;
            } else {
                self.execute(opcode, memory);
                self.cycles = self.clock_cycles(opcode, false) as usize;
            }
        } else {
            self.cycles = 4;
        }
        self.handle_interrupts(memory);
    }
}

/// Loading a saved processor state gives back the processor that was saved.
pub proof fn lemma_cpu_save_load_roundtrip(cpu: CPU)
    ensures
        CPU::spec_load_state(cpu.spec_save_state()) == cpu,
{
    crate::flags::lemma_flags_bits_roundtrip(cpu.f);
}

} // verus!
