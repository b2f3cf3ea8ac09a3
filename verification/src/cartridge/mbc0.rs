use vstd::prelude::*;
use crate::cartridge::{empty_cart_ram, ram_image, ram_loaded, ram_prefix, ram_restore};

verus! {

/// A cartridge without a controller: 32 KiB of ROM and up to 8 KiB of RAM.
#[derive(Clone, Debug)]
pub struct Mbc0 {
    pub rom: Vec<u8>,
    pub ram: [u8; 0x20000],
    /// Bytes of RAM the cartridge has.
    pub ram_size: usize,
}

/// The part of an Mbc0 that a save state keeps.
#[derive(Clone, Debug)]
pub struct Mbc0State {
    pub ram: Vec<u8>,
}

impl Mbc0 {
    pub open spec fn wf(&self) -> bool {
        true
    }


    pub fn new(rom: &[u8], ram_size: usize) -> (r: Mbc0)
        ensures
            r.wf(),
            r.rom@ == rom@,
            r.ram_size == ram_size,
            forall|i: int| 0 <= i < 0x20000 ==> r.ram@[i] == 0,
    {
        Mbc0 { rom: vstd::slice::slice_to_vec(rom), ram: empty_cart_ram(), ram_size }
    }

    pub fn save_state(&self) -> (r: Mbc0State)
        requires
            self.wf(),
        ensures
            r.ram@ == ram_image(self.ram@, self.ram_size as int),
    {
        Mbc0State { ram: ram_prefix(&self.ram, self.ram_size) }
    }

    pub fn load_state(&mut self, state: Mbc0State)
        requires
        ensures
            final(self).rom@ == old(self).rom@,
            final(self).ram_size == state.ram@.len(),
            final(self).ram@ == ram_loaded(old(self).ram@, state.ram@),
            final(self).wf(),
    {
        ram_restore(&mut self.ram, &state.ram);
        self.ram_size = state.ram.len();
    }

    /// Whether the cartridge can serve a read of `address` (ROM reads need the ROM to reach it).
    pub open spec fn spec_can_read(&self, address: u16) -> bool {
        address <= 0x7FFF ==> address < self.rom@.len()
    }

    pub open spec fn spec_read_byte(&self, address: u16) -> u8 {
        if address <= 0x7FFF {
            self.rom@[address as int]
        } else if 0xA000 <= address <= 0xBFFF {
            if self.ram_size != 0 && address - 0xA000 < self.ram_size {
                self.ram@[address - 0xA000]
            } else {
                0xFF
            }
        } else {
            0xFF
        }
    }

    /// ROM at 0x0000-0x7FFF; RAM at 0xA000-0xBFFF, or 0xFF when there is none.
    pub fn read_byte(&self, address: u16) -> (r: u8)
        requires
            self.wf(),
            self.spec_can_read(address),
            0xA000 <= address <= 0xBFFF && self.ram_size != 0 ==> address - 0xA000 < self.ram_size,
        ensures
            r == self.spec_read_byte(address),
    {
        if address <= 0x7FFF {
            self.rom[address as usize]
        } else if 0xA000 <= address && address <= 0xBFFF {
            if self.ram_size != 0 {
                self.ram[(address - 0xA000) as usize]
            } else {
                0xFF
            }
        } else {
            0xFF
        }
    }

    pub open spec fn spec_write_byte(self, address: u16, value: u8) -> Mbc0 {
        if 0xA000 <= address <= 0xBFFF && self.ram_size != 0 && address - 0xA000 < self.ram_size {
            Mbc0 { ram: vstd::array::spec_array_update(self.ram, address - 0xA000, value), ..self }
        } else {
            self
        }
    }

    /// Writes reach RAM only; ROM writes are ignored.
    pub fn write_byte(&mut self, address: u16, value: u8)
        requires
            old(self).wf(),
            0xA000 <= address <= 0xBFFF && old(self).ram_size != 0 ==> address - 0xA000 < old(self).ram_size,
        ensures
            *final(self) == old(self).spec_write_byte(address, value),
            final(self).wf(),
    {
        if 0xA000 <= address && address <= 0xBFFF && self.ram_size != 0 {
            self.ram[(address - 0xA000) as usize] = value;
        }
    }
}

} // verus!
