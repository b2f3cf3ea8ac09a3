use vstd::prelude::*;
use crate::bus::{MemoryInterface, word, next_address};
use crate::cpu::CPU;

verus! {

impl CPU {
    /// Reads the byte at PC and steps PC past it.
    pub fn fetch_byte<M: MemoryInterface>(&mut self, memory: &M) -> (r: u8)
        requires
            memory.mem_wf(),
        ensures
            r == memory.spec_read_byte(old(self).pc),
            *final(self) == (CPU { pc: old(self).pc.wrapping_add(1), ..*old(self) }),
    {
        let byte = memory.read_byte(self.pc);
        self.pc = self.pc.wrapping_add(1);
        byte
    }

    /// Reads the little-endian word at PC and steps PC past it.
    pub fn fetch_word<M: MemoryInterface>(&mut self, memory: &M) -> (r: u16)
        requires
            memory.mem_wf(),
        ensures
            r == word(memory.spec_read_byte(old(self).pc), memory.spec_read_byte(next_address(old(self).pc))),
            *final(self) == (CPU { pc: old(self).pc.wrapping_add(2), ..*old(self) }),
    {
        let w = memory.read_word(self.pc);
        self.pc = self.pc.wrapping_add(2);
        w
    }
}

} // verus!
