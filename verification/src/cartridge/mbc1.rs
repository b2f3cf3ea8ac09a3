use vstd::prelude::*;
use crate::cartridge::{empty_cart_ram, ram_image, ram_loaded, ram_prefix, ram_restore};

verus! {

/// The MBC1 controller: up to 128 ROM banks of 16 KiB and 4 RAM banks of 8 KiB.
#[derive(Clone, Debug)]
pub struct Mbc1 {
    pub rom: Vec<u8>,
    pub ram: [u8; 0x20000],
    pub ram_size: usize,
    pub current_rom_bank: u8,
    pub current_ram_bank: u8,
    /// Banking mode: false = simple (ROM), true = advanced (RAM / upper ROM bits in 0x0000-0x3FFF).
    pub mode: bool,
    pub ram_enabled: bool,
    pub is_multicart: bool,
}

/// The part of an Mbc1 that a save state keeps.
#[derive(Clone, Debug)]
pub struct Mbc1State {
    pub ram: Vec<u8>,
    pub current_rom_bank: u8,
    pub current_ram_bank: u8,
    pub mode: bool,
    pub ram_enabled: bool,
}

/// Whether a ROM bank count has a bank mask.
pub open spec fn valid_bank_count(n: int) -> bool {
    n == 2 || n == 4 || n == 8 || n == 16 || n == 32 || n == 64 || n == 128
}

/// The mask the 5-bit bank register is cut to for a ROM of `n` banks.
pub open spec fn spec_bit_mask(n: u8) -> u8 {
    if n >= 32 { 0x1F } else { (n - 1) as u8 }
}

/// The bank-number mask for a ROM with the given number of 16 KiB banks.
pub fn get_bit_mask(number_rom_banks: u8) -> (r: u8)
    requires
        valid_bank_count(number_rom_banks as int),
    ensures
        r == spec_bit_mask(number_rom_banks),
{
    match number_rom_banks {
        128 => 0b00011111,
        64 => 0b00011111,
        32 => 0b00011111,
        16 => 0b00001111,
        8 => 0b00000111,
        4 => 0b00000011,
        _ => 0b00000001,
    }
}

impl Mbc1 {
    pub open spec fn spec_rom_banks(&self) -> int {
        (self.rom@.len() as int + 0x3FFF) / 0x4000
    }

    pub open spec fn wf(&self) -> bool {
        &&& self.current_ram_bank <= 3
        &&& self.rom@.len() + 0x3FFF <= usize::MAX
    }

    pub fn new(rom: &[u8], ram_size: usize) -> (r: Mbc1)
        requires
            rom@.len() + 0x3FFF <= usize::MAX,
        ensures
            r.wf(),
            r.rom@ == rom@,
            r.ram_size == ram_size,
            forall|i: int| 0 <= i < 0x20000 ==> r.ram@[i] == 0,
            r.current_rom_bank == 1,
            r.current_ram_bank == 0,
            !r.ram_enabled,
            !r.mode,
            !r.is_multicart,
    {
        Mbc1 {
            rom: vstd::slice::slice_to_vec(rom),
            ram: empty_cart_ram(),
            ram_size,
            current_rom_bank: 1,
            current_ram_bank: 0,
            ram_enabled: false,
            mode: false,
            is_multicart: false,
        }
    }

    pub fn save_state(&self) -> (r: Mbc1State)
        requires
            self.wf(),
        ensures
            r.ram@ == ram_image(self.ram@, self.ram_size as int),
            r.current_rom_bank == self.current_rom_bank,
            r.current_ram_bank == self.current_ram_bank,
            r.mode == self.mode,
            r.ram_enabled == self.ram_enabled,
    {
        Mbc1State {
            ram: ram_prefix(&self.ram, self.ram_size),
            current_rom_bank: self.current_rom_bank,
            current_ram_bank: self.current_ram_bank,
            mode: self.mode,
            ram_enabled: self.ram_enabled,
        }
    }

    pub fn load_state(&mut self, state: Mbc1State)
        requires
            old(self).wf(),
            state.current_ram_bank <= 3,
        ensures
            final(self).rom@ == old(self).rom@,
            final(self).ram_size == state.ram@.len(),
            final(self).ram@ == ram_loaded(old(self).ram@, state.ram@),
            final(self).current_rom_bank == state.current_rom_bank,
            final(self).current_ram_bank == state.current_ram_bank,
            final(self).mode == state.mode,
            final(self).ram_enabled == state.ram_enabled,
            final(self).is_multicart == old(self).is_multicart,
            final(self).wf(),
    {
        ram_restore(&mut self.ram, &state.ram);
        self.ram_size = state.ram.len();
        self.current_rom_bank = state.current_rom_bank;
        self.current_ram_bank = state.current_ram_bank;
        self.mode = state.mode;
        self.ram_enabled = state.ram_enabled;
    }

    /// The bank mapped at 0x4000-0x7FFF: the bank register cut to the ROM size, with the
    /// RAM-bank bits as bits 5-6 on 64- and 128-bank ROMs.
    pub open spec fn spec_high_bank(&self) -> u8 {
        let banks = self.spec_rom_banks();
        let base = self.current_rom_bank & spec_bit_mask(banks as u8);
        if banks == 128 {
            (base & 0b10011111) | ((self.current_ram_bank & 0x03) << 5)
        } else if banks == 64 {
            (base & 0b11011111) | ((self.current_ram_bank & 0x01) << 5)
        } else {
            base
        }
    }

    /// The bank mapped at 0x0000-0x3FFF in advanced mode.
    pub open spec fn spec_zero_bank(&self) -> u8 {
        let banks = self.spec_rom_banks();
        if banks == 128 {
            (self.current_ram_bank & 0x03) << 5
        } else if banks == 64 {
            (self.current_ram_bank & 0x01) << 5
        } else {
            0
        }
    }

    pub open spec fn spec_ram_index(&self, address: u16) -> int {
        if self.ram_size == 0x8000 {
            (address - 0xA000) + (if self.mode { 0x2000 * self.current_ram_bank } else { 0 })
        } else {
            (address - 0xA000) % (self.ram_size as int)
        }
    }

    /// Whether the ROM size, counted in 16 KiB banks and cut to a byte, has a bank mask.
    pub open spec fn mask_defined(&self) -> bool {
        valid_bank_count((self.spec_rom_banks() as u8) as int)
    }

    /// Whether the cartridge can serve a read: the mapped ROM byte must exist (and the bank
    /// register's mask be defined for the switchable bank); enabled RAM reads need RAM.
    pub open spec fn spec_can_read(&self, address: u16) -> bool {
        &&& address <= 0x3FFF ==> (if !self.mode {
            address < self.rom@.len()
        } else {
            0x4000 * self.spec_zero_bank() + address < self.rom@.len()
        })
        &&& 0x4000 <= address <= 0x7FFF ==> self.mask_defined()
            && 0x4000 * self.spec_high_bank() + (address - 0x4000) < self.rom@.len()
        &&& (0xA000 <= address <= 0xBFFF && self.ram_enabled) ==> self.ram_size > 0
    }

    /// Whether the cartridge can take a write: a ROM bank switch needs the bank mask of the
    /// ROM size; enabled RAM writes need RAM.
    pub open spec fn spec_can_write(&self, address: u16) -> bool {
        &&& 0x2000 <= address <= 0x3FFF ==> self.mask_defined()
        &&& (0xA000 <= address <= 0xBFFF && self.ram_enabled) ==> self.ram_size > 0
    }

    pub open spec fn spec_read_byte(&self, address: u16) -> u8 {
        if address <= 0x3FFF {
            if !self.mode {
                self.rom@[address as int]
            } else {
                self.rom@[0x4000 * self.spec_zero_bank() + address]
            }
        } else if address <= 0x7FFF {
            self.rom@[0x4000 * self.spec_high_bank() + (address - 0x4000)]
        } else if 0xA000 <= address <= 0xBFFF {
            if !self.ram_enabled { 0xFF } else { self.ram@[self.spec_ram_index(address)] }
        } else {
            0xFF
        }
    }

    pub fn get_number_of_rom_banks(&self) -> (r: usize)
        requires
            self.wf(),
        ensures
            r == self.spec_rom_banks(),
    {
        (self.rom.len() + 0x3FFF) / 0x4000
    }

    /// Whether `get_bit_mask` is defined for this ROM's bank count.
    pub fn bank_mask_defined(&self) -> (r: bool)
        requires
            self.wf(),
        ensures
            r == self.mask_defined(),
    {
        let banks = self.get_number_of_rom_banks() as u8;
        banks == 2 || banks == 4 || banks == 8 || banks == 16 || banks == 32 || banks == 64 || banks == 128
    }

    pub fn get_high_bank_number(&self) -> (r: u8)
        requires
            self.wf(),
            self.mask_defined(),
        ensures
            r == self.spec_high_bank(),
    {
        let banks = self.get_number_of_rom_banks();
        let base_number = self.current_rom_bank & get_bit_mask(banks as u8);
        match banks {
            128 => {
                let ram_bits = (self.current_ram_bank & 0x03) << 5;
                (base_number & 0b10011111) | ram_bits
            },
            64 => {
                let ram_bit = (self.current_ram_bank & 0x01) << 5;
                (base_number & 0b11011111) | ram_bit
            },
            _ => base_number,
        }
    }

    pub fn get_zero_bank_number(&self) -> (r: u8)
        requires
            self.wf(),
        ensures
            r == self.spec_zero_bank(),
    {
        let number: u8 = 0b00000000;
        proof {
            let rb = self.current_ram_bank;
            assert(0u8 | ((rb & 0x03) << 5) == (rb & 0x03) << 5 && 0u8 | ((rb & 0x01) << 5) == (rb & 0x01) << 5)
                by (bit_vector);
        }
        let number_of_rom_banks = self.get_number_of_rom_banks();
        match number_of_rom_banks {
            128 => number | ((self.current_ram_bank & 0x03) << 5),
            64 => number | ((self.current_ram_bank & 0x01) << 5),
            _ => 0,
        }
    }

    pub fn read_byte(&self, address: u16) -> (r: u8)
        requires
            self.wf(),
            self.spec_can_read(address),
        ensures
            r == self.spec_read_byte(address),
    {
        if address <= 0x3FFF {
            if !self.mode {
                self.rom[address as usize]
            } else {
                let zero_bank_number = self.get_zero_bank_number();
                proof {
                    let z = zero_bank_number;
                    assert(0u8 | z == z) by (bit_vector);
                }
                self.rom[0x4000 * zero_bank_number as usize + address as usize]
            }
        } else if address <= 0x7FFF {
            let high_bank_number = self.get_high_bank_number();
            self.rom[0x4000 * high_bank_number as usize + (address - 0x4000) as usize]
        } else if 0xA000 <= address && address <= 0xBFFF {
            if !self.ram_enabled {
                return 0xFF;
            }
            let ram_size = self.ram_size;
            if ram_size == 0x2000 * 4 {
                let offset = if self.mode { 0x2000 * self.current_ram_bank as usize } else { 0 };
                self.ram[(address - 0xA000) as usize + offset]
            } else {
                proof { vstd::arithmetic::div_mod::lemma_mod_decreases((address - 0xA000) as nat, ram_size as nat); }
                self.ram[(address - 0xA000) as usize % ram_size]
            }
        } else {
            0xFF
        }
    }

    pub open spec fn spec_write_byte(self, address: u16, value: u8) -> Mbc1 {
        if address <= 0x1FFF {
            Mbc1 { ram_enabled: value & 0x0F == 0x0A, ..self }
        } else if address <= 0x3FFF {
            let bank = value & spec_bit_mask(self.spec_rom_banks() as u8);
            Mbc1 { current_rom_bank: if bank == 0 { 1 } else { bank }, ..self }
        } else if address <= 0x5FFF {
            Mbc1 { current_ram_bank: value & 0x03, ..self }
        } else if address <= 0x7FFF {
            Mbc1 { mode: value & 0x01 == 0x01, ..self }
        } else if 0xA000 <= address <= 0xBFFF && self.ram_enabled {
            Mbc1 { ram: vstd::array::spec_array_update(self.ram, self.spec_ram_index(address), value), ..self }
        } else {
            self
        }
    }

    /// Register writes: RAM enable (0x0000), ROM bank (0x2000; bank 0 selects 1),
    /// RAM bank (0x4000), banking mode (0x6000); RAM writes when enabled.
    pub fn write_byte(&mut self, address: u16, value: u8)
        requires
            old(self).wf(),
            old(self).spec_can_write(address),
        ensures
            *final(self) == old(self).spec_write_byte(address, value),
            final(self).wf(),
    {
        if address <= 0x1FFF {
            self.ram_enabled = value & 0x0F == 0xA;
        } else if address <= 0x3FFF {
            let number_of_rom_banks = self.get_number_of_rom_banks();
            let bit_mask = get_bit_mask(number_of_rom_banks as u8);
            let new_rom_bank_number = value & bit_mask;
            if new_rom_bank_number == 0 {
                self.current_rom_bank = 1;
            } else {
                self.current_rom_bank = new_rom_bank_number;
            }
        } else if address <= 0x5FFF {
            proof { assert(value & 0x03 <= 3) by { crate::bits::lemma_byte_bits(); crate::bits::lemma_word_bits(); } }
            self.current_ram_bank = value & 0x03;
        } else if address <= 0x7FFF {
            self.mode = value & 0x01 == 0x01;
        } else if 0xA000 <= address && address <= 0xBFFF {
            if !self.ram_enabled {
                return;
            }
            let ram_size = self.ram_size;
            if ram_size == 0x2000 * 4 {
                let offset = if self.mode { 0x2000 * self.current_ram_bank as usize } else { 0 };
                self.ram[(address - 0xA000) as usize + offset] = value;
            } else {
                proof { vstd::arithmetic::div_mod::lemma_mod_decreases((address - 0xA000) as nat, ram_size as nat); }
                self.ram[(address - 0xA000) as usize % ram_size] = value;
            }
        }
    }
}

} // verus!
