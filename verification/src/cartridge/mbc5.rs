use vstd::prelude::*;
use crate::cartridge::{empty_cart_ram, ram_image, ram_loaded, ram_prefix, ram_restore};

verus! {

/// The MBC5 controller: up to 512 ROM banks and 16 RAM banks.
#[derive(Clone, Debug)]
pub struct Mbc5 {
    pub current_rom_bank: u16,
    pub current_ram_bank: u8,
    pub rom: Vec<u8>,
    pub ram: [u8; 0x20000],
    pub ram_size: usize,
    pub external_ram_enabled: bool,
}

/// The part of an Mbc5 that a save state keeps.
#[derive(Clone, Debug)]
pub struct Mbc5State {
    pub current_rom_bank: u16,
    pub current_ram_bank: u8,
    pub ram: Vec<u8>,
    pub external_ram_enabled: bool,
}

impl Mbc5 {
    pub open spec fn wf(&self) -> bool {
        &&& self.current_ram_bank <= 0x0F
        &&& self.current_rom_bank <= 0x1FF
    }

    pub fn new(rom: &[u8], ram_size: usize) -> (r: Mbc5)
        ensures
            r.wf(),
            r.rom@ == rom@,
            r.ram_size == ram_size,
            forall|i: int| 0 <= i < 0x20000 ==> r.ram@[i] == 0,
            r.current_rom_bank == 1,
            r.current_ram_bank == 0,
            !r.external_ram_enabled,
    {
        Mbc5 {
            current_rom_bank: 1,
            current_ram_bank: 0,
            rom: vstd::slice::slice_to_vec(rom),
            ram: empty_cart_ram(),
            ram_size,
            external_ram_enabled: false,
        }
    }

    pub fn save_state(&self) -> (r: Mbc5State)
        requires
            self.wf(),
        ensures
            r.ram@ == ram_image(self.ram@, self.ram_size as int),
            r.current_rom_bank == self.current_rom_bank,
            r.current_ram_bank == self.current_ram_bank,
            r.external_ram_enabled == self.external_ram_enabled,
    {
        Mbc5State {
            current_rom_bank: self.current_rom_bank,
            current_ram_bank: self.current_ram_bank,
            ram: ram_prefix(&self.ram, self.ram_size),
            external_ram_enabled: self.external_ram_enabled,
        }
    }

    pub fn load_state(&mut self, state: Mbc5State)
        requires
            state.current_ram_bank <= 0x0F,
            state.current_rom_bank <= 0x1FF,
        ensures
            final(self).rom@ == old(self).rom@,
            final(self).ram_size == state.ram@.len(),
            final(self).ram@ == ram_loaded(old(self).ram@, state.ram@),
            final(self).current_rom_bank == state.current_rom_bank,
            final(self).current_ram_bank == state.current_ram_bank,
            final(self).external_ram_enabled == state.external_ram_enabled,
            final(self).wf(),
    {
        self.current_rom_bank = state.current_rom_bank;
        self.current_ram_bank = state.current_ram_bank;
        ram_restore(&mut self.ram, &state.ram);
        self.ram_size = state.ram.len();
        self.external_ram_enabled = state.external_ram_enabled;
    }

    pub open spec fn spec_rom_index(&self, address: u16) -> int {
        0x4000 * self.current_rom_bank + (address - 0x4000)
    }

    pub open spec fn spec_ram_index(&self, address: u16) -> int {
        0x2000 * self.current_ram_bank + (address - 0xA000)
    }

    /// Whether the cartridge can serve a read: the ROM must reach the mapped bank, and
    /// enabled RAM reads must fall inside the RAM.
    pub open spec fn spec_can_read(&self, address: u16) -> bool {
        &&& address <= 0x3FFF ==> address < self.rom@.len()
        &&& 0x4000 <= address <= 0x7FFF ==> self.spec_rom_index(address) < self.rom@.len()
        &&& (0xA000 <= address <= 0xBFFF && self.external_ram_enabled) ==> self.spec_ram_index(address) < self.ram_size
    }

    pub open spec fn spec_read_byte(&self, address: u16) -> u8 {
        if address <= 0x3FFF {
            self.rom@[address as int]
        } else if address <= 0x7FFF {
            self.rom@[self.spec_rom_index(address)]
        } else if 0xA000 <= address <= 0xBFFF {
            if self.external_ram_enabled { self.ram@[self.spec_ram_index(address)] } else { 0xFF }
        } else {
            0xFF
        }
    }

    pub fn read_byte(&self, address: u16) -> (r: u8)
        requires
            self.wf(),
            self.spec_can_read(address),
        ensures
            r == self.spec_read_byte(address),
    {
        if address <= 0x3FFF {
            self.rom[address as usize]
        } else if address <= 0x7FFF {
            self.rom[0x4000 * self.current_rom_bank as usize + (address as usize - 0x4000)]
        } else if 0xA000 <= address && address <= 0xBFFF {
            if self.external_ram_enabled {
                self.ram[0x2000 * self.current_ram_bank as usize + (address as usize - 0xA000)]
            } else {
                0xFF
            }
        } else {
            0xFF
        }
    }

    pub open spec fn spec_write_byte(self, address: u16, value: u8) -> Mbc5 {
        if address <= 0x1FFF {
            Mbc5 { external_ram_enabled: value % 16 == 0x0A, ..self }
        } else if address <= 0x2FFF {
            Mbc5 { current_rom_bank: ((self.current_rom_bank / 256) * 256 + value) as u16, ..self }
        } else if address <= 0x3FFF {
            Mbc5 { current_rom_bank: ((self.current_rom_bank % 256) + (value % 2) * 256) as u16, ..self }
        } else if address <= 0x5FFF {
            Mbc5 { current_ram_bank: value % 16, ..self }
        } else if 0xA000 <= address <= 0xBFFF && self.external_ram_enabled
            && self.spec_ram_index(address) < self.ram_size {
            Mbc5 { ram: vstd::array::spec_array_update(self.ram, self.spec_ram_index(address), value), ..self }
        } else {
            self
        }
    }

    /// Register writes: RAM enable (0x0000), ROM bank low 8 bits (0x2000), ROM bank bit 8
    /// (0x3000), RAM bank (0x4000); RAM writes when enabled and inside the RAM.
    pub fn write_byte(&mut self, address: u16, value: u8)
        requires
            old(self).wf(),
        ensures
            *final(self) == old(self).spec_write_byte(address, value),
            final(self).wf(),
    {
        if address <= 0x1FFF {
            proof { assert(value & 0xF == value % 16) by { crate::bits::lemma_byte_bits(); crate::bits::lemma_word_bits(); } }
            let lower_value = value & 0xF;
            if lower_value == 0x0A {
                self.external_ram_enabled = true;
            } else {
                self.external_ram_enabled = false;
            }
        } else if address <= 0x2FFF {
            let b = self.current_rom_bank;
            proof { assert((b & 0x100) | (value as u16) == (b / 256) * 256 + value as u16) by (bit_vector) requires b <= 0x1FF; }
            self.current_rom_bank = (self.current_rom_bank & 0x100) | value as u16;
        } else if address <= 0x3FFF {
            let b = self.current_rom_bank;
            proof { assert((b & 0xFF) | (((value & 0x01) as u16) << 8) == (b % 256) + (value % 2) as u16 * 256) by (bit_vector); }
            self.current_rom_bank = (self.current_rom_bank & 0xFF) | ((value & 0x01) as u16) << 8;
        } else if address <= 0x5FFF {
            proof { assert(value & 0x0F == value % 16) by { crate::bits::lemma_byte_bits(); crate::bits::lemma_word_bits(); } }
            self.current_ram_bank = value & 0x0F;
        } else if 0xA000 <= address && address <= 0xBFFF {
            if !self.external_ram_enabled {
                return;
            }
            let offset = 0x2000 * self.current_ram_bank as usize + (address - 0xA000) as usize;
            if offset < self.ram_size {
                self.ram[offset] = value;
            }
        }
    }
}

} // verus!
