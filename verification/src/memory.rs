use vstd::prelude::*;
use crate::bus::{GameboyMode, MemoryInterface};

verus! {

/// A flat 64 KiB memory with no mapped hardware: every address is plain RAM.
pub struct Memory {
    ram: [u8; 65536],
}

impl View for Memory {
    type V = Seq<u8>;

    closed spec fn view(&self) -> Seq<u8> {
        self.ram@
    }
}

impl Memory {
    pub fn new() -> (r: Memory)
        ensures
            r@.len() == 65536,
            forall|i: int| 0 <= i < 65536 ==> r@[i] == 0,
            r.mem_wf(),
    {
        Memory { ram: [0; 65536] }
    }
}

impl MemoryInterface for Memory {
    /// Every flat memory can be used: there is nothing to keep.
    open spec fn mem_wf(&self) -> bool {
        true
    }

    open spec fn spec_read_byte(&self, addr: u16) -> u8 {
        self@[addr as int]
    }

    closed spec fn spec_write_byte(&self, addr: u16, value: u8) -> Memory {
        Memory { ram: vstd::array::spec_array_update(self.ram, addr as int, value) }
    }

    open spec fn spec_gb_mode(&self) -> GameboyMode {
        GameboyMode::DMG
    }

    fn read_byte(&self, addr: u16) -> (r: u8) {
        self.ram[addr as usize]
    }

    fn write_byte(&mut self, addr: u16, value: u8) {
        self.ram[addr as usize] = value;
    }

    fn gb_mode(&self) -> (r: GameboyMode) {
        GameboyMode::DMG
    }

    /// A flat memory has a single video RAM bank at 0x8000-0x9FFF.
    open spec fn spec_read_vram_bank(&self, address: u16, bank: usize) -> u8 {
        self@[0x8000 + (address & 0x1FFF)]
    }

    fn read_byte_vram_bank(&self, address: u16, bank: usize) -> (r: u8) {
        proof { crate::bits::lemma_word_bits(); }
        self.ram[0x8000 + (address & 0x1FFF) as usize]
    }
}

/// A read of plain memory gives the last value written to that address,
/// and a write leaves every other address as it was.
pub proof fn lemma_memory_read_after_write(m: Memory, addr: u16, value: u8, other: u16)
    ensures
        m.spec_write_byte(addr, value).spec_read_byte(addr) == value,
        other != addr ==> m.spec_write_byte(addr, value).spec_read_byte(other) == m.spec_read_byte(other),
{
    broadcast use vstd::array::axiom_spec_array_update;
}

} // verus!
