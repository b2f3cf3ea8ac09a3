use vstd::prelude::*;

pub mod rtc;
pub mod mbc0;
pub mod mbc1;
pub mod mbc3;
pub mod mbc5;

use mbc0::{Mbc0, Mbc0State};
use mbc1::{Mbc1, Mbc1State};
use mbc3::{Mbc3, Mbc3State};
use mbc5::{Mbc5, Mbc5State};

verus! {

/// A zero-filled cartridge RAM buffer: 128 KiB, the most that any supported controller
/// addresses (16 banks of 8 KiB).
pub fn empty_cart_ram() -> (r: [u8; 0x20000])
    ensures
        forall|i: int| 0 <= i < 0x20000 ==> r@[i] == 0,
{
    [0u8; 0x20000]
}

/// The saved image of a cartridge RAM of `len` bytes kept in the buffer: the buffer's bytes,
/// then zeros past its end (no controller addresses RAM there, so nothing is ever written).
pub open spec fn ram_image(ram: Seq<u8>, len: int) -> Seq<u8> {
    Seq::new(len as nat, |i: int| if i < 0x20000 { ram[i] } else { 0u8 })
}

/// Whether a saved RAM image of `len` bytes agrees with the buffer on every byte the buffer
/// holds.
pub open spec fn ram_matches(image: Seq<u8>, ram: Seq<u8>, len: int) -> bool {
    &&& image.len() == len
    &&& forall|i: int| 0 <= i < len && i < 0x20000 ==> #[trigger] image[i] == ram[i]
}

/// The buffer after loading a saved RAM image: the image's bytes, as far as the buffer
/// reaches, over the old contents.
pub open spec fn ram_loaded(old: Seq<u8>, data: Seq<u8>) -> Seq<u8> {
    Seq::new(0x20000, |i: int| if i < data.len() { data[i] } else { old[i] })
}

/// The RAM image a save state keeps, `len` bytes long.
pub fn ram_prefix(ram: &[u8; 0x20000], len: usize) -> (r: Vec<u8>)
    ensures
        r@ == ram_image(ram@, len as int),
{
    let mut v: Vec<u8> = Vec::new();
    let mut i: usize = 0;
    while i < len
        invariant
            i <= len,
            v@ == ram_image(ram@, i as int),
        decreases len - i,
    {
        let b = if i < 0x20000 { ram[i] } else { 0u8 };
        v.push(b);
        i += 1;
        assert(v@ =~= ram_image(ram@, i as int));
    }
    v
}

/// Loads a saved RAM image into the buffer.
pub fn ram_restore(ram: &mut [u8; 0x20000], data: &Vec<u8>)
    ensures
        final(ram)@ == ram_loaded(old(ram)@, data@),
{
    let n = if data.len() < 0x20000 { data.len() } else { 0x20000 };
    let mut i: usize = 0;
    while i < n
        invariant
            i <= n <= 0x20000,
            n == (if data@.len() < 0x20000 { data@.len() } else { 0x20000 }),
            ram@.len() == 0x20000,
            forall|j: int| 0 <= j < i ==> ram@[j] == data@[j],
            forall|j: int| i <= j < 0x20000 ==> ram@[j] == old(ram)@[j],
        decreases n - i,
    {
        ram[i] = data[i];
        i += 1;
    }
    assert(ram@ =~= ram_loaded(old(ram)@, data@));
}

/// The cartridge controller of the loaded ROM.
#[derive(Clone, Debug)]
pub enum MbcType {
    Empty,
    Mbc0(Mbc0),
    Mbc1(Mbc1),
    Mbc3(Mbc3),
    Mbc5(Mbc5),
}

/// The saved state of a cartridge controller.
#[derive(Clone, Debug)]
pub enum MbcTypeState {
    Empty,
    Mbc0(Mbc0State),
    Mbc1(Mbc1State),
    Mbc3(Mbc3State),
    Mbc5(Mbc5State),
}

impl MbcTypeState {
    /// The saved values are within the ranges the controllers keep.
    pub open spec fn wf(&self) -> bool {
        match self {
            MbcTypeState::Empty => true,
            MbcTypeState::Mbc0(s) => true,
            MbcTypeState::Mbc1(s) => s.current_ram_bank <= 3,
            MbcTypeState::Mbc3(s) => s.current_ram_bank <= 3 && (s.rtc matches Some(r) ==> r.wf()),
            MbcTypeState::Mbc5(s) => s.current_ram_bank <= 0x0F && s.current_rom_bank <= 0x1FF,
        }
    }
}

impl MbcTypeState {
    /// Whether a save holds values a controller can take (see `wf`).
    pub fn is_valid(&self) -> (r: bool)
        ensures
            r == self.wf(),
    {
        match self {
            MbcTypeState::Empty => true,
            MbcTypeState::Mbc0(s) => true,
            MbcTypeState::Mbc1(s) => s.current_ram_bank <= 3,
            MbcTypeState::Mbc3(s) => s.current_ram_bank <= 3 && match &s.rtc {
                Some(r) => r.s_reg < 60 && r.m_reg < 60 && r.h_reg < 24 && r.cycles < rtc::RTC_CYCLES_PER_SECOND,
                None => true,
            },
            MbcTypeState::Mbc5(s) => s.current_ram_bank <= 0x0F && s.current_rom_bank <= 0x1FF,
        }
    }
}

impl MbcType {
    pub open spec fn wf(&self) -> bool {
        match self {
            MbcType::Empty => true,
            MbcType::Mbc0(m) => m.wf(),
            MbcType::Mbc1(m) => m.wf(),
            MbcType::Mbc3(m) => m.wf(),
            MbcType::Mbc5(m) => m.wf(),
        }
    }

    /// Whether this is a freshly made controller for a ROM whose header gives cartridge type
    /// `kind` (0x0147), with `ram_size` bytes of zeroed RAM and the power-on bank registers.
    pub open spec fn spec_fresh(&self, rom: Seq<u8>, kind: u8, ram_size: usize) -> bool {
        match *self {
            MbcType::Empty => false,
            MbcType::Mbc0(m) => kind == 0x00 && m.rom@ == rom && m.ram_size == ram_size
                && (forall|i: int| 0 <= i < 0x20000 ==> m.ram@[i] == 0),
            MbcType::Mbc1(m) => 0x01 <= kind <= 0x03 && m.rom@ == rom && m.ram_size == ram_size
                && (forall|i: int| 0 <= i < 0x20000 ==> m.ram@[i] == 0)
                && m.current_rom_bank == 1 && m.current_ram_bank == 0 && !m.ram_enabled && !m.mode
                && !m.is_multicart,
            MbcType::Mbc3(m) => (kind == 0x0F || kind == 0x10 || (0x11 <= kind <= 0x13)) && m.rom@ == rom
                && m.ram_size == ram_size && (forall|i: int| 0 <= i < 0x20000 ==> m.ram@[i] == 0)
                && m.current_rom_bank == 1 && m.current_ram_bank == 0 && !m.external_ram_enabled
                && m.previous_latch_value == 0xFF
                && m.rtc == (if kind == 0x0F || kind == 0x10 { Some(rtc::Rtc::spec_new()) } else { None::<rtc::Rtc> })
                && m.current_rtc_register is None && m.rom_bank_count == rom.len() / 0x4000,
            MbcType::Mbc5(m) => 0x19 <= kind <= 0x1E && m.rom@ == rom && m.ram_size == ram_size
                && (forall|i: int| 0 <= i < 0x20000 ==> m.ram@[i] == 0)
                && m.current_rom_bank == 1 && m.current_ram_bank == 0 && !m.external_ram_enabled,
        }
    }

    /// Whether `st` is a save of this controller's state.
    pub open spec fn spec_saved_as(&self, st: MbcTypeState) -> bool {
        match (*self, st) {
            (MbcType::Empty, MbcTypeState::Empty) => true,
            (MbcType::Mbc0(m), MbcTypeState::Mbc0(s)) => ram_matches(s.ram@, m.ram@, m.ram_size as int),
            (MbcType::Mbc1(m), MbcTypeState::Mbc1(s)) => {
                &&& ram_matches(s.ram@, m.ram@, m.ram_size as int)
                &&& s.current_rom_bank == m.current_rom_bank
                &&& s.current_ram_bank == m.current_ram_bank
                &&& s.mode == m.mode
                &&& s.ram_enabled == m.ram_enabled
            },
            (MbcType::Mbc3(m), MbcTypeState::Mbc3(s)) => {
                &&& ram_matches(s.ram@, m.ram@, m.ram_size as int)
                &&& s.current_rom_bank == m.current_rom_bank
                &&& s.current_ram_bank == m.current_ram_bank
                &&& s.external_ram_enabled == m.external_ram_enabled
                &&& s.previous_latch_value == m.previous_latch_value
                &&& s.rtc == m.rtc
                &&& s.current_rtc_register == m.current_rtc_register
            },
            (MbcType::Mbc5(m), MbcTypeState::Mbc5(s)) => {
                &&& ram_matches(s.ram@, m.ram@, m.ram_size as int)
                &&& s.current_rom_bank == m.current_rom_bank
                &&& s.current_ram_bank == m.current_ram_bank
                &&& s.external_ram_enabled == m.external_ram_enabled
            },
            _ => false,
        }
    }

    pub fn save_state(&self) -> (r: MbcTypeState)
        requires
            self.wf(),
        ensures
            self.spec_saved_as(r),
            r.wf(),
    {
        match self {
            MbcType::Empty => MbcTypeState::Empty,
            MbcType::Mbc0(mbc) => MbcTypeState::Mbc0(mbc.save_state()),
            MbcType::Mbc1(mbc) => MbcTypeState::Mbc1(mbc.save_state()),
            MbcType::Mbc3(mbc) => MbcTypeState::Mbc3(mbc.save_state()),
            MbcType::Mbc5(mbc) => MbcTypeState::Mbc5(mbc.save_state()),
        }
    }

    /// Whether a saved state is of this controller's kind.
    pub open spec fn same_kind(&self, st: MbcTypeState) -> bool {
        match (*self, st) {
            (MbcType::Mbc0(_), MbcTypeState::Mbc0(_)) => true,
            (MbcType::Mbc1(_), MbcTypeState::Mbc1(_)) => true,
            (MbcType::Mbc3(_), MbcTypeState::Mbc3(_)) => true,
            (MbcType::Mbc5(_), MbcTypeState::Mbc5(_)) => true,
            _ => false,
        }
    }

    /// Whether two controllers are of the same kind and hold the same ROM.
    pub open spec fn same_cartridge(&self, other: MbcType) -> bool {
        match (*self, other) {
            (MbcType::Empty, MbcType::Empty) => true,
            (MbcType::Mbc0(a), MbcType::Mbc0(b)) => a.rom@ == b.rom@,
            (MbcType::Mbc1(a), MbcType::Mbc1(b)) => a.rom@ == b.rom@,
            (MbcType::Mbc3(a), MbcType::Mbc3(b)) => a.rom@ == b.rom@,
            (MbcType::Mbc5(a), MbcType::Mbc5(b)) => a.rom@ == b.rom@,
            _ => false,
        }
    }

    /// What loading `st` into `old` gives: a controller of the same kind and ROM that holds
    /// the saved state, or `old` itself when the state is of another kind.
    pub open spec fn spec_loaded(old: MbcType, st: MbcTypeState, new: MbcType) -> bool {
        &&& new.same_cartridge(old)
        &&& old.same_kind(st) ==> new.spec_saved_as(st)
        &&& !old.same_kind(st) ==> new == old
    }

    /// Restores a saved state into a controller of the same kind (its ROM kept); a state of
    /// another kind, or any state for no cartridge, is ignored.
    pub fn load_state(&mut self, state: MbcTypeState)
        requires
            old(self).wf(),
            state.wf(),
        ensures
            final(self).wf(),
            MbcType::spec_loaded(*old(self), state, *final(self)),
    {
        match (self, state) {
            (MbcType::Mbc0(mbc), MbcTypeState::Mbc0(state)) => {
                mbc.load_state(state);
            },
            (MbcType::Mbc1(mbc), MbcTypeState::Mbc1(state)) => {
                mbc.load_state(state);
            },
            (MbcType::Mbc3(mbc), MbcTypeState::Mbc3(state)) => {
                mbc.load_state(state);
            },
            (MbcType::Mbc5(mbc), MbcTypeState::Mbc5(state)) => {
                mbc.load_state(state);
            },
            _ => {},
        }
    }

    /// Whether the controller can serve a read of `address`.
    pub open spec fn spec_can_read(&self, address: u16) -> bool {
        match self {
            MbcType::Empty => true,
            MbcType::Mbc0(m) => m.spec_can_read(address)
                && (0xA000 <= address <= 0xBFFF && m.ram_size != 0 ==> address - 0xA000 < m.ram_size),
            MbcType::Mbc1(m) => m.spec_can_read(address),
            MbcType::Mbc3(m) => m.spec_can_read(address),
            MbcType::Mbc5(m) => m.spec_can_read(address),
        }
    }

    /// Whether the controller can take a write to `address`.
    pub open spec fn spec_can_write(&self, address: u16) -> bool {
        match self {
            MbcType::Empty => true,
            MbcType::Mbc0(m) => 0xA000 <= address <= 0xBFFF && m.ram_size != 0 ==> address - 0xA000 < m.ram_size,
            MbcType::Mbc1(m) => m.spec_can_write(address),
            MbcType::Mbc3(m) => m.spec_can_write(address),
            MbcType::Mbc5(m) => true,
        }
    }

    pub fn can_read(&self, address: u16) -> (r: bool)
        requires
            self.wf(),
        ensures
            r == self.spec_can_read(address),
    {
        match self {
            MbcType::Empty => true,
            MbcType::Mbc0(m) => {
                (address > 0x7FFF || (address as usize) < m.rom.len())
                    && (!(0xA000 <= address && address <= 0xBFFF && m.ram_size != 0)
                        || ((address - 0xA000) as usize) < m.ram_size)
            },
            MbcType::Mbc1(m) => {
                let rom_ok = if address <= 0x3FFF {
                    if !m.mode {
                        (address as usize) < m.rom.len()
                    } else {
                        0x4000 * (m.get_zero_bank_number() as usize) + (address as usize) < m.rom.len()
                    }
                } else if address <= 0x7FFF {
                    m.bank_mask_defined()
                        && 0x4000 * (m.get_high_bank_number() as usize) + ((address - 0x4000) as usize) < m.rom.len()
                } else {
                    true
                };
                rom_ok && (!(0xA000 <= address && address <= 0xBFFF && m.ram_enabled) || m.ram_size > 0)
            },
            MbcType::Mbc3(m) => {
                let rtc_mapped = m.current_rtc_register.is_some() && m.rtc.is_some();
                let rom_ok = if address <= 0x3FFF {
                    (address as usize) < m.rom.len()
                } else if address <= 0x7FFF {
                    if m.rom_bank_count == 0 {
                        false
                    } else {
                        let b = m.current_rom_bank as usize % m.rom_bank_count;
                        let bank = if b < 1 { 1 } else { b };
                        proof {
                            vstd::arithmetic::div_mod::lemma_mod_decreases(m.current_rom_bank as nat, m.rom_bank_count as nat);
                        }
                        bank * 0x4000 + ((address - 0x4000) as usize) < m.rom.len()
                    }
                } else {
                    true
                };
                rom_ok && (!(0xA000 <= address && address <= 0xBFFF && m.external_ram_enabled && !rtc_mapped)
                        || 0x2000 * (m.current_ram_bank as usize) + ((address - 0xA000) as usize) < m.ram_size)
            },
            MbcType::Mbc5(m) => {
                (address > 0x3FFF || (address as usize) < m.rom.len())
                    && (!(0x4000 <= address && address <= 0x7FFF)
                        || 0x4000 * (m.current_rom_bank as usize) + ((address - 0x4000) as usize) < m.rom.len())
                    && (!(0xA000 <= address && address <= 0xBFFF && m.external_ram_enabled)
                        || 0x2000 * (m.current_ram_bank as usize) + ((address - 0xA000) as usize) < m.ram_size)
            },
        }
    }

    pub fn can_write(&self, address: u16) -> (r: bool)
        requires
            self.wf(),
        ensures
            r == self.spec_can_write(address),
    {
        match self {
            MbcType::Mbc0(m) => !(0xA000 <= address && address <= 0xBFFF && m.ram_size != 0)
                || ((address - 0xA000) as usize) < m.ram_size,
            MbcType::Mbc1(m) => (!(0x2000 <= address && address <= 0x3FFF) || m.bank_mask_defined())
                && (!(0xA000 <= address && address <= 0xBFFF && m.ram_enabled) || m.ram_size > 0),
            MbcType::Mbc3(m) => !(0xA000 <= address && address <= 0xBFFF && m.external_ram_enabled
                && m.current_rtc_register.is_none())
                || 0x2000 * (m.current_ram_bank as usize) + ((address - 0xA000) as usize) < m.ram_size,
            _ => true,
        }
    }

    pub open spec fn spec_read_byte(&self, address: u16) -> u8 {
        if !self.spec_can_read(address) {
            0xFF
        } else {
            match self {
                MbcType::Empty => 0xFF,
                MbcType::Mbc0(m) => m.spec_read_byte(address),
                MbcType::Mbc1(m) => m.spec_read_byte(address),
                MbcType::Mbc3(m) => m.spec_read_byte(address),
                MbcType::Mbc5(m) => m.spec_read_byte(address),
            }
        }
    }

    /// Reads through the controller. With no cartridge, or for an access the controller
    /// cannot serve (its ROM or RAM does not reach the mapped byte), the bus reads 0xFF.
    pub fn read_byte(&self, address: u16) -> (r: u8)
        requires
            self.wf(),
        ensures
            r == self.spec_read_byte(address),
    {
        if !self.can_read(address) {
            return 0xFF;
        }
        match self {
            MbcType::Empty => 0xFF,
            MbcType::Mbc0(mbc) => mbc.read_byte(address),
            MbcType::Mbc1(mbc) => mbc.read_byte(address),
            MbcType::Mbc3(mbc) => mbc.read_byte(address),
            MbcType::Mbc5(mbc) => mbc.read_byte(address),
        }
    }

    pub open spec fn spec_write_byte(self, address: u16, value: u8) -> MbcType {
        if !self.spec_can_write(address) {
            self
        } else {
            match self {
                MbcType::Empty => MbcType::Empty,
                MbcType::Mbc0(m) => MbcType::Mbc0(m.spec_write_byte(address, value)),
                MbcType::Mbc1(m) => MbcType::Mbc1(m.spec_write_byte(address, value)),
                MbcType::Mbc3(m) => MbcType::Mbc3(m.spec_write_byte(address, value)),
                MbcType::Mbc5(m) => MbcType::Mbc5(m.spec_write_byte(address, value)),
            }
        }
    }

    /// Writes through the controller; ignored without a cartridge or where the
    /// controller cannot take it.
    pub fn write_byte(&mut self, address: u16, value: u8)
        requires
            old(self).wf(),
        ensures
            *final(self) == old(self).spec_write_byte(address, value),
            final(self).wf(),
    {
        if !self.can_write(address) {
            return;
        }
        match self {
            MbcType::Empty => {},
            MbcType::Mbc0(mbc) => mbc.write_byte(address, value),
            MbcType::Mbc1(mbc) => mbc.write_byte(address, value),
            MbcType::Mbc3(mbc) => mbc.write_byte(address, value),
            MbcType::Mbc5(mbc) => mbc.write_byte(address, value),
        }
    }

    pub open spec fn spec_tick(self) -> MbcType {
        match self {
            MbcType::Mbc3(m) => match m.rtc {
                Some(r) => MbcType::Mbc3(Mbc3 { rtc: Some(r.spec_tick()), ..m }),
                None => self,
            },
            _ => self,
        }
    }

    /// Advances the MBC3 clock by one T-cycle; other controllers have no clock.
    pub fn tick(&mut self)
        requires
            old(self).wf(),
        ensures
            *final(self) == old(self).spec_tick(),
            final(self).wf(),
    {
        if let MbcType::Mbc3(mbc) = self {
            if let Some(rtc) = &mut mbc.rtc {
                rtc.tick();
            }
        }
    }
}

impl MbcType {
    /// Whether the controller keeps a RAM byte at `address` that reads back what was written:
    /// external RAM that is present and enabled (on MBC3 with no clock register selected; on
    /// MBC1 with at least two bytes, so that neighbouring addresses are different bytes).
    pub open spec fn maps_ram(&self, address: u16) -> bool {
        &&& 0xA000 <= address <= 0xBFFF
        &&& match *self {
            MbcType::Empty => false,
            MbcType::Mbc0(m) => address - 0xA000 < m.ram_size,
            MbcType::Mbc1(m) => m.ram_enabled && m.ram_size > 1,
            MbcType::Mbc3(m) => m.external_ram_enabled && m.current_rtc_register is None
                && m.spec_ram_index(address) < m.ram_size,
            MbcType::Mbc5(m) => m.external_ram_enabled && m.spec_ram_index(address) < m.ram_size,
        }
    }

    /// The RAM byte that `address` reaches.
    pub open spec fn spec_ram_slot(&self, address: u16) -> int {
        match *self {
            MbcType::Empty => 0,
            MbcType::Mbc0(m) => address - 0xA000,
            MbcType::Mbc1(m) => m.spec_ram_index(address),
            MbcType::Mbc3(m) => m.spec_ram_index(address),
            MbcType::Mbc5(m) => m.spec_ram_index(address),
        }
    }
}

/// A write to a RAM byte the controller maps reads back, keeps the controller's mapping,
/// and leaves every other mapped RAM byte as it was.
pub proof fn lemma_cart_ram_read_after_write(m: MbcType, a: u16, v: u8, other: u16)
    requires
        m.wf(),
        m.maps_ram(a),
    ensures
        m.spec_write_byte(a, v).wf(),
        m.spec_write_byte(a, v).spec_read_byte(a) == v,
        m.spec_write_byte(a, v).maps_ram(other) == m.maps_ram(other),
        m.spec_write_byte(a, v).spec_ram_slot(other) == m.spec_ram_slot(other),
        m.maps_ram(other) && m.spec_ram_slot(other) != m.spec_ram_slot(a)
            ==> m.spec_write_byte(a, v).spec_read_byte(other) == m.spec_read_byte(other),
{
    broadcast use vstd::array::axiom_spec_array_update;
    if let MbcType::Mbc1(b) = m {
        if b.ram_size != 0x8000 {
            vstd::arithmetic::div_mod::lemma_mod_bound(a - 0xA000, b.ram_size as int);
            vstd::arithmetic::div_mod::lemma_mod_decreases((a - 0xA000) as nat, b.ram_size as nat);
            if 0xA000 <= other <= 0xBFFF {
                vstd::arithmetic::div_mod::lemma_mod_bound(other - 0xA000, b.ram_size as int);
                vstd::arithmetic::div_mod::lemma_mod_decreases((other - 0xA000) as nat, b.ram_size as nat);
            }
        }
    }
}

/// Two neighbouring addresses that the controller both maps reach different RAM bytes.
pub proof fn lemma_cart_ram_neighbours(m: MbcType, a: u16)
    requires
        m.wf(),
        a < 0xFFFF,
        m.maps_ram(a),
        m.maps_ram((a + 1) as u16),
    ensures
        m.spec_ram_slot((a + 1) as u16) != m.spec_ram_slot(a),
{
    if let MbcType::Mbc1(b) = m {
        if b.ram_size != 0x8000 {
            let x = a - 0xA000;
            let n = b.ram_size as int;
            vstd::arithmetic::div_mod::lemma_fundamental_div_mod(x, n);
            vstd::arithmetic::div_mod::lemma_fundamental_div_mod(x + 1, n);
            vstd::arithmetic::div_mod::lemma_mod_bound(x, n);
            vstd::arithmetic::div_mod::lemma_mod_bound(x + 1, n);
            if (x + 1) % n == x % n {
                assert(n * ((x + 1) / n) - n * (x / n) == 1);
                assert(n * ((x + 1) / n - x / n) == 1) by (nonlinear_arith)
                    requires n * ((x + 1) / n) - n * (x / n) == 1;
                assert(false) by (nonlinear_arith)
                    requires n * ((x + 1) / n - x / n) == 1, n > 1;
            }
        }
    }
}

/// Loading a controller's save into a controller for the same cartridge gives back every
/// read the saved controller gave.
pub proof fn lemma_mbc_save_load_restores_reads(
    m: MbcType,
    st: MbcTypeState,
    target: MbcType,
    r: MbcType,
    address: u16,
)
    requires
        m.wf(),
        target.wf(),
        r.wf(),
        m.spec_saved_as(st),
        target.same_cartridge(m),
        MbcType::spec_loaded(target, st, r),
    ensures
        r.spec_read_byte(address) == m.spec_read_byte(address),
{
    match (m, st, r) {
        (MbcType::Mbc0(a), MbcTypeState::Mbc0(sv), MbcType::Mbc0(b)) => {
            assert(sv.ram@.len() == a.ram_size && sv.ram@.len() == b.ram_size);
            if 0xA000 <= address <= 0xBFFF && a.ram_size != 0 && address - 0xA000 < a.ram_size {
                assert(sv.ram@[address - 0xA000] == a.ram@[address - 0xA000] && sv.ram@[address - 0xA000] == b.ram@[address - 0xA000]);
            }
        },
        (MbcType::Mbc1(a), MbcTypeState::Mbc1(sv), MbcType::Mbc1(b)) => {
            assert(sv.ram@.len() == a.ram_size && sv.ram@.len() == b.ram_size);
            assert(b.spec_rom_banks() == a.spec_rom_banks());
            assert(b.spec_can_read(address) == a.spec_can_read(address));
            if 0xA000 <= address <= 0xBFFF && a.ram_enabled && a.ram_size > 0 {
                let i = a.spec_ram_index(address);
                assert(i == b.spec_ram_index(address));
                if a.ram_size != 0x8000 {
                    vstd::arithmetic::div_mod::lemma_mod_bound(address - 0xA000, a.ram_size as int);
                    vstd::arithmetic::div_mod::lemma_mod_decreases((address - 0xA000) as nat, a.ram_size as nat);
                }
                assert(0 <= i < a.ram_size);
                assert(sv.ram@[i] == a.ram@[i] && sv.ram@[i] == b.ram@[i]);
            }
        },
        (MbcType::Mbc3(a), MbcTypeState::Mbc3(sv), MbcType::Mbc3(b)) => {
            assert(sv.ram@.len() == a.ram_size && sv.ram@.len() == b.ram_size);
            assert(b.rom_bank_count == a.rom_bank_count);
            if 0xA000 <= address <= 0xBFFF && a.external_ram_enabled && !a.spec_rtc_mapped()
                && a.spec_ram_index(address) < a.ram_size {
                let i = a.spec_ram_index(address);
                assert(sv.ram@[i] == a.ram@[i] && sv.ram@[i] == b.ram@[i]);
            }
        },
        (MbcType::Mbc5(a), MbcTypeState::Mbc5(sv), MbcType::Mbc5(b)) => {
            assert(sv.ram@.len() == a.ram_size && sv.ram@.len() == b.ram_size);
            if 0xA000 <= address <= 0xBFFF && a.external_ram_enabled && a.spec_ram_index(address) < a.ram_size {
                let i = a.spec_ram_index(address);
                assert(sv.ram@[i] == a.ram@[i] && sv.ram@[i] == b.ram@[i]);
            }
        },
        _ => {},
    }
}

} // verus!
