use vstd::prelude::*;
use crate::cartridge::{empty_cart_ram, ram_image, ram_loaded, ram_prefix, ram_restore};
use crate::cartridge::rtc::Rtc;

verus! {

/// The MBC3 controller: up to 128 ROM banks, 4 RAM banks and an optional real-time clock.
#[derive(Clone, Debug)]
pub struct Mbc3 {
    pub current_rom_bank: u8,
    pub current_ram_bank: u8,
    pub rom: Vec<u8>,
    pub ram: [u8; 0x20000],
    pub ram_size: usize,
    pub external_ram_enabled: bool,
    pub previous_latch_value: u8,
    pub rtc: Option<Rtc>,
    /// The clock register (0x08-0x0C) mapped at 0xA000 instead of RAM, if any.
    pub current_rtc_register: Option<u8>,
    pub rom_bank_count: usize,
}

/// The part of an Mbc3 that a save state keeps.
#[derive(Clone, Debug)]
pub struct Mbc3State {
    pub current_rom_bank: u8,
    pub current_ram_bank: u8,
    pub ram: Vec<u8>,
    pub external_ram_enabled: bool,
    pub previous_latch_value: u8,
    pub rtc: Option<Rtc>,
    pub current_rtc_register: Option<u8>,
    pub rom_bank_count: usize,
}

impl Mbc3 {
    pub open spec fn wf(&self) -> bool {
        &&& self.current_ram_bank <= 3
        &&& self.rom_bank_count == self.rom@.len() / 0x4000
        &&& (self.rtc matches Some(r) ==> r.wf())
    }

    pub fn new(rom: &[u8], ram_size: usize, has_rtc: bool) -> (r: Mbc3)
        ensures
            r.wf(),
            r.rom@ == rom@,
            r.ram_size == ram_size,
            forall|i: int| 0 <= i < 0x20000 ==> r.ram@[i] == 0,
            r.current_rom_bank == 1,
            r.current_ram_bank == 0,
            !r.external_ram_enabled,
            r.previous_latch_value == 0xFF,
            r.rtc == (if has_rtc { Some(Rtc::spec_new()) } else { None::<Rtc> }),
            r.current_rtc_register is None,
            r.rom_bank_count == rom@.len() / 0x4000,
    {
        let rom_bank_count = rom.len() / 0x4000;
        Mbc3 {
            current_rom_bank: 1,
            current_ram_bank: 0,
            rom: vstd::slice::slice_to_vec(rom),
            ram: empty_cart_ram(),
            ram_size,
            external_ram_enabled: false,
            previous_latch_value: 0xFF,
            rtc: if has_rtc { Some(Rtc::new()) } else { None },
            current_rtc_register: None,
            rom_bank_count,
        }
    }

    pub fn save_state(&self) -> (r: Mbc3State)
        requires
            self.wf(),
        ensures
            r.ram@ == ram_image(self.ram@, self.ram_size as int),
            r.current_rom_bank == self.current_rom_bank,
            r.current_ram_bank == self.current_ram_bank,
            r.external_ram_enabled == self.external_ram_enabled,
            r.previous_latch_value == self.previous_latch_value,
            r.rtc == self.rtc,
            r.current_rtc_register == self.current_rtc_register,
            r.rom_bank_count == self.rom_bank_count,
    {
        Mbc3State {
            current_rom_bank: self.current_rom_bank,
            current_ram_bank: self.current_ram_bank,
            ram: ram_prefix(&self.ram, self.ram_size),
            external_ram_enabled: self.external_ram_enabled,
            previous_latch_value: self.previous_latch_value,
            rtc: self.rtc,
            current_rtc_register: self.current_rtc_register,
            rom_bank_count: self.rom_bank_count,
        }
    }

    /// Restores the saved registers, RAM and clock; the ROM and its bank count stay.
    pub fn load_state(&mut self, state: Mbc3State)
        requires
            old(self).wf(),
            state.current_ram_bank <= 3,
            state.rtc matches Some(r) ==> r.wf(),
        ensures
            final(self).rom@ == old(self).rom@,
            final(self).rom_bank_count == old(self).rom_bank_count,
            final(self).ram_size == state.ram@.len(),
            final(self).ram@ == ram_loaded(old(self).ram@, state.ram@),
            final(self).current_rom_bank == state.current_rom_bank,
            final(self).current_ram_bank == state.current_ram_bank,
            final(self).external_ram_enabled == state.external_ram_enabled,
            final(self).previous_latch_value == state.previous_latch_value,
            final(self).rtc == state.rtc,
            final(self).current_rtc_register == state.current_rtc_register,
            final(self).wf(),
    {
        self.current_rom_bank = state.current_rom_bank;
        self.current_ram_bank = state.current_ram_bank;
        ram_restore(&mut self.ram, &state.ram);
        self.ram_size = state.ram.len();
        self.external_ram_enabled = state.external_ram_enabled;
        self.previous_latch_value = state.previous_latch_value;
        self.rtc = state.rtc;
        self.current_rtc_register = state.current_rtc_register;
    }

    /// The switchable bank at 0x4000: the bank register modulo the bank count, never 0.
    pub open spec fn spec_rom_bank(&self) -> int {
        let b = self.current_rom_bank as int % self.rom_bank_count as int;
        if b < 1 { 1 } else { b }
    }

    pub open spec fn spec_ram_index(&self, address: u16) -> int {
        0x2000 * self.current_ram_bank + (address - 0xA000)
    }

    /// Whether the clock answers at 0xA000-0xBFFF instead of RAM.
    pub open spec fn spec_rtc_mapped(&self) -> bool {
        self.current_rtc_register is Some && self.rtc is Some
    }

    /// Whether the cartridge can serve a read: the addressed ROM byte must exist (with at
    /// least one whole bank to take the bank register modulo), and enabled RAM reads that
    /// the clock does not answer must fall inside the RAM.
    pub open spec fn spec_can_read(&self, address: u16) -> bool {
        &&& address <= 0x3FFF ==> address < self.rom@.len()
        &&& 0x4000 <= address <= 0x7FFF ==> self.rom_bank_count >= 1
            && self.spec_rom_bank() * 0x4000 + (address - 0x4000) < self.rom@.len()
        &&& (0xA000 <= address <= 0xBFFF && self.external_ram_enabled && !self.spec_rtc_mapped())
                ==> self.spec_ram_index(address) < self.ram_size
    }

    /// Whether the cartridge can take a write: enabled RAM writes with no clock register
    /// selected must fall inside the RAM.
    pub open spec fn spec_can_write(&self, address: u16) -> bool {
        (0xA000 <= address <= 0xBFFF && self.external_ram_enabled && self.current_rtc_register is None)
            ==> self.spec_ram_index(address) < self.ram_size
    }

    pub open spec fn spec_read_byte(&self, address: u16) -> u8 {
        if address <= 0x3FFF {
            self.rom@[address as int]
        } else if address <= 0x7FFF {
            self.rom@[self.spec_rom_bank() * 0x4000 + (address - 0x4000)]
        } else if 0xA000 <= address <= 0xBFFF {
            if !self.external_ram_enabled {
                0xFF
            } else if self.spec_rtc_mapped() {
                self.rtc.unwrap().spec_read(self.current_rtc_register.unwrap())
            } else {
                self.ram@[self.spec_ram_index(address)]
            }
        } else {
            0xFF
        }
    }

    pub fn read_byte(&self, address: u16) -> (r: u8)
        requires
            self.wf(),
            self.spec_can_read(address),
        ensures
            r == self.spec_read_byte(address),
    {
        if address <= 0x3FFF {
            self.rom[address as usize]
        } else if address <= 0x7FFF {
            let m = self.current_rom_bank as usize % self.rom_bank_count;
            let bank = if m < 1 { 1 } else { m };
            proof {
                assert(self.rom@.len() == self.rom.len());
            }
            let offset = bank * 0x4000 + (address as usize - 0x4000);
            self.rom[offset]
        } else if 0xA000 <= address && address <= 0xBFFF {
            if !self.external_ram_enabled {
                return 0xFF;
            }
            if let Some(rtc_register) = self.current_rtc_register {
                if let Some(rtc) = &self.rtc {
                    return rtc.read(rtc_register);
                }
            }
            self.ram[0x2000 * self.current_ram_bank as usize + (address - 0xA000) as usize]
        } else {
            0xFF
        }
    }

    pub open spec fn spec_write_byte(self, address: u16, value: u8) -> Mbc3 {
        if address <= 0x1FFF {
            Mbc3 { external_ram_enabled: value & 0x0F == 0x0A, ..self }
        } else if address <= 0x3FFF {
            Mbc3 { current_rom_bank: if value & 0x7F == 0 { 1 } else { value & 0x7F }, ..self }
        } else if address <= 0x5FFF {
            if value <= 0x03 {
                Mbc3 { current_ram_bank: value, current_rtc_register: None, ..self }
            } else if 0x08 <= value <= 0x0C {
                Mbc3 { current_rtc_register: Some(value), ..self }
            } else {
                self
            }
        } else if address <= 0x7FFF {
            if self.rtc is None {
                self
            } else {
                let latched = if self.previous_latch_value == 0x00 && value == 0x01 {
                    Mbc3 {
                        rtc: Some(Rtc {
                            is_latched: true,
                            s_reg_latched: self.rtc.unwrap().s_reg,
                            m_reg_latched: self.rtc.unwrap().m_reg,
                            h_reg_latched: self.rtc.unwrap().h_reg,
                            dl_reg_latched: self.rtc.unwrap().dl_reg,
                            dh_reg_latched: self.rtc.unwrap().dh_reg,
                            ..self.rtc.unwrap()
                        }),
                        ..self
                    }
                } else {
                    self
                };
                Mbc3 { previous_latch_value: value, ..latched }
            }
        } else if 0xA000 <= address <= 0xBFFF && self.external_ram_enabled {
            if self.current_rtc_register is Some {
                if self.rtc is Some {
                    Mbc3 { rtc: Some(self.rtc.unwrap().spec_write(self.current_rtc_register.unwrap(), value)), ..self }
                } else {
                    self
                }
            } else {
                Mbc3 { ram: vstd::array::spec_array_update(self.ram, self.spec_ram_index(address), value), ..self }
            }
        } else {
            self
        }
    }

    /// Register writes: RAM/clock enable (0x0000), ROM bank (0x2000; 0 selects 1), RAM bank or
    /// clock register (0x4000), clock latch on a 0 then 1 write (0x6000); then RAM or clock data.
    pub fn write_byte(&mut self, address: u16, value: u8)
        requires
            old(self).wf(),
            old(self).spec_can_write(address),
        ensures
            *final(self) == old(self).spec_write_byte(address, value),
            final(self).wf(),
    {
        if address <= 0x1FFF {
            self.external_ram_enabled = value & 0x0F == 0x0A;
        } else if address <= 0x3FFF {
            let new_number = if value & 0x7F == 0 { 1 } else { value & 0x7F };
            self.current_rom_bank = new_number;
        } else if address <= 0x5FFF {
            if value <= 0x03 {
                self.current_ram_bank = value;
                self.current_rtc_register = None;
            } else if 0x08 <= value && value <= 0x0C {
                self.current_rtc_register = Some(value);
            }
        } else if address <= 0x7FFF {
            if self.rtc.is_none() {
                return;
            }
            if self.previous_latch_value == 0x00 && value == 0x01 {
                match &mut self.rtc {
                    Some(rtc) => rtc.latch(),
                    None => {},
                }
            }
            self.previous_latch_value = value;
        } else if 0xA000 <= address && address <= 0xBFFF {
            if !self.external_ram_enabled {
                return;
            }
            if let Some(rtc_register) = self.current_rtc_register {
                match &mut self.rtc {
                    Some(rtc) => rtc.write(rtc_register, value),
                    None => {},
                }
            } else {
                self.ram[0x2000 * self.current_ram_bank as usize + (address - 0xA000) as usize] = value;
            }
        }
    }
}

/// Selecting a ROM bank through 0x2000-0x3FFF keeps all seven bank bits: after writing `v`
/// there, 0x4000-0x7FFF shows ROM bank `v % 128` (bank 1 when that is 0), whenever the ROM
/// has that bank.
pub proof fn lemma_mbc3_rom_bank_select(m: Mbc3, address: u16, v: u8, offset: u16)
    requires
        m.wf(),
        0x2000 <= address <= 0x3FFF,
        offset < 0x4000,
        (if v % 128 == 0 { 1 } else { v % 128 }) < m.rom_bank_count,
    ensures
        ({
            let bank: int = if v % 128 == 0 { 1 } else { (v % 128) as int };
            let w = m.spec_write_byte(address, v);
            &&& w.spec_can_read((0x4000 + offset) as u16)
            &&& w.spec_read_byte((0x4000 + offset) as u16) == m.rom@[0x4000 * bank + offset]
        }),
{
    assert(v & 0x7F == v % 128) by (bit_vector);
    let bank: int = if v % 128 == 0 { 1 } else { (v % 128) as int };
    let w = m.spec_write_byte(address, v);
    assert(w.current_rom_bank == bank);
    vstd::arithmetic::div_mod::lemma_small_mod(bank as nat, m.rom_bank_count as nat);
    assert(w.spec_rom_bank() == bank);
    assert(0x4000 * bank + offset < 0x4000 * m.rom_bank_count) by (nonlinear_arith)
        requires
            bank < m.rom_bank_count,
            offset < 0x4000;
    vstd::arithmetic::div_mod::lemma_fundamental_div_mod(m.rom@.len() as int, 0x4000);
}

} // verus!
