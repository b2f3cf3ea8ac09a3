use vstd::prelude::*;
use crate::bus::{MemoryInterface, low_byte, high_byte, next_address};
use crate::bus::io_address::IoRegister;
use crate::cpu::CPU;

verus! {

/// The interrupt to service among the requested-and-enabled bits: the lowest of bits 0..4
/// (V-Blank, LCD STAT, Timer, Serial, Joypad), or none (5).
pub open spec fn interrupt_to_service(pending: u8) -> u8 {
    if pending & 0x01 != 0 { 0 }
    else if pending & 0x02 != 0 { 1 }
    else if pending & 0x04 != 0 { 2 }
    else if pending & 0x08 != 0 { 3 }
    else if pending & 0x10 != 0 { 4 }
    else { 5 }
}

/// The handler address of interrupt `bit`.
pub open spec fn interrupt_vector(bit: u8) -> u16 {
    (0x40 + 8 * bit) as u16
}

/// The memory after servicing interrupt `bit`: its IF bit cleared, then PC pushed.
pub open spec fn mem_after_service<M: MemoryInterface>(mem: M, bit: u8, sp: u16, pc: u16) -> M {
    let cleared = mem.spec_write_byte(0xFF0F, mem.spec_read_byte(0xFF0F) & !(1u8 << bit));
    let new_sp = sp.wrapping_sub(2);
    cleared.spec_write_byte(new_sp, low_byte(pc)).spec_write_byte(next_address(new_sp), high_byte(pc))
}

impl CPU {
    /// The processor and memory after interrupt dispatch.
    pub open spec fn spec_handle_interrupts<M: MemoryInterface>(self, mem: M) -> (CPU, M) {
        let pending = mem.spec_read_byte(0xFFFF) & mem.spec_read_byte(0xFF0F);
        let woken = CPU { halt: if pending != 0 { false } else { self.halt }, ..self };
        let bit = interrupt_to_service(pending);
        if !self.ime || bit == 5 {
            (woken, mem)
        } else {
            (
                CPU {
                    ime: false,
                    ime_scheduled: false,
                    sp: self.sp.wrapping_sub(2),
                    pc: interrupt_vector(bit),
                    cycles: (self.cycles + 20) as usize,
                    ..woken
                },
                mem_after_service(mem, bit, self.sp, self.pc),
            )
        }
    }

    /// Dispatches a pending interrupt. Any requested-and-enabled interrupt ends HALT;
    /// with IME on, the lowest one is serviced: IME off, its IF bit cleared, PC pushed,
    /// PC set to its vector, and 20 cycles added.
    pub fn handle_interrupts<M: MemoryInterface>(&mut self, memory: &mut M)
        requires
            old(memory).mem_wf(),
            old(self).cycles + 20 <= usize::MAX,
        ensures
            (*final(self), *final(memory)) == old(self).spec_handle_interrupts(*old(memory)),
            final(memory).mem_wf(),
    {
        let ie_register = memory.read_byte(IoRegister::Ie.address());
        let if_register = memory.read_byte(IoRegister::If.address());
        let interrupts = ie_register & if_register;
        proof {
            assert(interrupts == 0 ==> interrupts & 0x01 == 0 && interrupts & 0x02 == 0 && interrupts & 0x04 == 0
                && interrupts & 0x08 == 0 && interrupts & 0x10 == 0) by (bit_vector);
        }
        if interrupts != 0 {
            self.halt = false;
        }
        if !self.ime {
            return;
        }
        if interrupts != 0 {
            if interrupts & 0x01 != 0 {
                self.service_interrupt(0x40, 0, memory);
            } else if interrupts & 0x02 != 0 {
                self.service_interrupt(0x48, 1, memory);
            } else if interrupts & 0x04 != 0 {
                self.service_interrupt(0x50, 2, memory);
            } else if interrupts & 0x08 != 0 {
                self.service_interrupt(0x58, 3, memory);
            } else if interrupts & 0x10 != 0 {
                self.service_interrupt(0x60, 4, memory);
            }
        }
    }

    fn service_interrupt<M: MemoryInterface>(&mut self, address: u16, bit: u8, memory: &mut M)
        requires
            old(memory).mem_wf(),
            old(self).cycles + 20 <= usize::MAX,
            bit < 8,
        ensures
            *final(self) == (CPU {
                ime: false,
                ime_scheduled: false,
                sp: old(self).sp.wrapping_sub(2),
                pc: address,
                cycles: (old(self).cycles + 20) as usize,
                ..*old(self)
            }),
            *final(memory) == mem_after_service(*old(memory), bit, old(self).sp, old(self).pc),
            final(memory).mem_wf(),
    {
        self.ime = false;
        self.ime_scheduled = false;
        let if_register = memory.read_byte(IoRegister::If.address());
        let value = if_register & !(1u8 << bit);
        memory.write_byte(IoRegister::If.address(), value);
        let pc = self.pc;
        self.push_stack(pc, memory);
        self.pc = address;
        self.cycles = self.cycles + 20;
    }

    fn push_stack<M: MemoryInterface>(&mut self, value: u16, memory: &mut M)
        requires
            old(memory).mem_wf(),
        ensures
            *final(self) == (CPU { sp: old(self).sp.wrapping_sub(2), ..*old(self) }),
            *final(memory) == old(memory).spec_write_byte(old(self).sp.wrapping_sub(2), low_byte(value))
                .spec_write_byte(next_address(old(self).sp.wrapping_sub(2)), high_byte(value)),
            final(memory).mem_wf(),
    {
        self.sp = self.sp.wrapping_sub(2);
        memory.write_word(self.sp, value);
    }
}

/// Bit `b` is the lowest bit set in `pending` among the five interrupt bits.
proof fn lemma_lowest_bit_is_serviced(pending: u8, b: u8)
    by (bit_vector)
    requires
        b < 5,
        pending & (1u8 << b) != 0,
        pending & (((1u8 << b) - 1) as u8) == 0,
    ensures
        interrupt_to_service(pending) == b,
{
}

/// Interrupts are taken by priority: with IME on, the interrupt serviced is the lowest bit
/// set in IE & IF. For that bit `b`, the processor jumps to 0x40 + 8 * b with IME off, SP
/// two lower, and the memory has just bit `b` of IF cleared and the old PC pushed.
pub proof fn lemma_lowest_pending_interrupt_is_serviced<M: MemoryInterface>(cpu: CPU, mem: M, b: u8)
    requires
        cpu.ime,
        b < 5,
        (mem.spec_read_byte(0xFFFF) & mem.spec_read_byte(0xFF0F)) & (1u8 << b) != 0,
        (mem.spec_read_byte(0xFFFF) & mem.spec_read_byte(0xFF0F)) & (((1u8 << b) - 1) as u8) == 0,
    ensures
        ({
            let (c, m) = cpu.spec_handle_interrupts(mem);
            let new_sp = cpu.sp.wrapping_sub(2);
            let cleared = mem.spec_write_byte(0xFF0F, mem.spec_read_byte(0xFF0F) & !(1u8 << b));
            &&& c.pc == 0x40 + 8 * b
            &&& !c.ime
            &&& !c.halt
            &&& c.sp == new_sp
            &&& m == cleared.spec_write_byte(new_sp, low_byte(cpu.pc)).spec_write_byte(
                next_address(new_sp),
                high_byte(cpu.pc),
            )
        }),
{
    let pending = mem.spec_read_byte(0xFFFF) & mem.spec_read_byte(0xFF0F);
    lemma_lowest_bit_is_serviced(pending, b);
    assert(pending != 0) by (bit_vector)
        requires
            b < 5,
            pending & (1u8 << b) != 0;
}

/// No interrupt is taken with IME off or with none of the five interrupt bits set in both
/// IE and IF: the processor and memory stay as they are, except that any interrupt
/// requested and enabled (IE & IF nonzero) ends HALT.
pub proof fn lemma_no_interrupt_taken<M: MemoryInterface>(cpu: CPU, mem: M)
    requires
        !cpu.ime || (mem.spec_read_byte(0xFFFF) & mem.spec_read_byte(0xFF0F)) & 0x1F == 0,
    ensures
        ({
            let pending = mem.spec_read_byte(0xFFFF) & mem.spec_read_byte(0xFF0F);
            let (c, m) = cpu.spec_handle_interrupts(mem);
            &&& m == mem
            &&& c == CPU { halt: cpu.halt && pending == 0, ..cpu }
        }),
{
    let pending = mem.spec_read_byte(0xFFFF) & mem.spec_read_byte(0xFF0F);
    if cpu.ime {
        assert(pending & 0x1F == 0 ==> pending & 0x01 == 0 && pending & 0x02 == 0 && pending & 0x04 == 0
            && pending & 0x08 == 0 && pending & 0x10 == 0) by (bit_vector);
    }
}

} // verus!
