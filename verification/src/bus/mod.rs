use vstd::prelude::*;

pub mod cgb;
pub mod io_address;

use crate::apu::{is_sound_register, APURegisters, APU};
use crate::cartridge::mbc0::Mbc0;
use crate::cartridge::mbc1::Mbc1;
use crate::cartridge::mbc3::Mbc3;
use crate::cartridge::mbc5::Mbc5;
use crate::cartridge::{MbcType, MbcTypeState};
use crate::joypad::Joypad;
use crate::timer::{Timer, TimerRegisters};
use cgb::{is_cgb_register, CgbRegisters};

verus! {

/// Which hardware model the machine runs as.
#[derive(Clone, Copy, Debug, PartialEq, Eq, Structural)]
pub enum GameboyMode {
    DMG,
    CGB,
}

/// The low byte of a 16-bit word.
pub open spec fn low_byte(value: u16) -> u8 {
    (value % 256) as u8
}

/// The high byte of a 16-bit word.
pub open spec fn high_byte(value: u16) -> u8 {
    (value / 256) as u8
}

/// The little-endian word made of two bytes.
pub open spec fn word(low: u8, high: u8) -> u16 {
    (high as int * 256 + low as int) as u16
}

pub open spec fn next_address(addr: u16) -> u16 {
    if addr == 0xFFFF { 0 } else { (addr + 1) as u16 }
}

pub fn make_word(low: u8, high: u8) -> (r: u16)
    ensures r == word(low, high),
{
    let r = ((high as u16) << 8) | (low as u16);
    proof {
        crate::bits::lemma_word_bits();
        assert(((high as u16) << 8) | (low as u16) == high as u16 * 256 + low as u16);
    }
    r
}

pub fn split_word(value: u16) -> (r: (u8, u8))
    ensures r.0 == low_byte(value), r.1 == high_byte(value),
{
    let low = (value & 0xFF) as u8;
    let high = (value >> 8) as u8;
    proof {
        crate::bits::lemma_word_bits();
        assert(value & 0xFF == value % 256);
        assert(value >> 8 == value / 256);
    }
    (low, high)
}

/// Splitting a word into its bytes and joining them again gives the word back.
pub proof fn lemma_word_roundtrip(value: u16)
    ensures word(low_byte(value), high_byte(value)) == value,
{
}

/// A byte-addressed 16-bit memory space, as the CPU sees it.
pub trait MemoryInterface: Sized {
    /// The memory's own invariant.
    spec fn mem_wf(&self) -> bool;

    /// What a read of `addr` gives.
    spec fn spec_read_byte(&self, addr: u16) -> u8;

    /// The memory after a write of `value` to `addr`.
    spec fn spec_write_byte(&self, addr: u16, value: u8) -> Self;

    /// The hardware model the memory belongs to.
    spec fn spec_gb_mode(&self) -> GameboyMode;

    fn read_byte(&self, addr: u16) -> (r: u8)
        requires
            self.mem_wf(),
        ensures
            r == self.spec_read_byte(addr),
    ;

    fn write_byte(&mut self, addr: u16, value: u8)
        requires
            old(self).mem_wf(),
        ensures
            *final(self) == old(self).spec_write_byte(addr, value),
            final(self).mem_wf(),
    ;

    fn gb_mode(&self) -> (r: GameboyMode)
        ensures
            r == self.spec_gb_mode(),
    ;

    /// What a read of video RAM bank `bank` at `address` gives; the offset is taken within
    /// the 8 KiB bank (address & 0x1FFF).
    spec fn spec_read_vram_bank(&self, address: u16, bank: usize) -> u8;

    fn read_byte_vram_bank(&self, address: u16, bank: usize) -> (r: u8)
        requires
            self.mem_wf(),
            bank <= 1,
        ensures
            r == self.spec_read_vram_bank(address, bank),
    ;

    fn read_word(&self, addr: u16) -> (r: u16)
        requires
            self.mem_wf(),
        ensures
            r == word(self.spec_read_byte(addr), self.spec_read_byte(next_address(addr))),
    {
        let low = self.read_byte(addr);
        let high = self.read_byte(addr.wrapping_add(1));
        make_word(low, high)
    }

    fn write_word(&mut self, addr: u16, value: u16)
        requires
            old(self).mem_wf(),
        ensures
            *final(self) == old(self).spec_write_byte(addr, low_byte(value)).spec_write_byte(
                next_address(addr),
                high_byte(value),
            ),
            final(self).mem_wf(),
    {
        let (low, high) = split_word(value);
        self.write_byte(addr, low);
        self.write_byte(addr.wrapping_add(1), high);
    }
}

/// The address an echo-RAM access (0xE000-0xFDFF) stands for: 0x2000 lower.
pub open spec fn unecho(address: u16) -> u16 {
    if 0xE000 <= address <= 0xFDFF { (address - 0x2000) as u16 } else { address }
}

/// ROM (0x0000-0x7FFF) and external RAM (0xA000-0xBFFF), served by the cartridge.
pub open spec fn is_cart_address(address: u16) -> bool {
    address <= 0x7FFF || (0xA000 <= address <= 0xBFFF)
}

/// DIV, TIMA, TMA and TAC.
pub open spec fn is_timer_address(address: u16) -> bool {
    0xFF04 <= address <= 0xFF07
}

pub open spec fn is_wave_ram_address(address: u16) -> bool {
    0xFF30 <= address <= 0xFF3F
}

/// The colour-model registers a read is routed to in CGB mode.
pub open spec fn is_cgb_read_address(address: u16) -> bool {
    address == 0xFF4D || address == 0xFF4F || address == 0xFF55 || (0xFF68 <= address <= 0xFF6B)
        || address == 0xFF70
}

/// Whether a ROM header's cartridge-type byte (0x0147) names a supported controller.
pub open spec fn is_supported_cartridge(kind: u8) -> bool {
    kind == 0x00 || (0x01 <= kind <= 0x03) || kind == 0x0F || kind == 0x10 || (0x11 <= kind <= 0x13)
        || (0x19 <= kind <= 0x1E)
}

/// The external RAM size a ROM header's RAM-size byte (0x0149) gives (8 KiB if unknown).
pub open spec fn spec_ram_size(code: u8) -> usize {
    if code == 0x00 { 0 }
    else if code == 0x02 { 0x2000 }
    else if code == 0x03 { 0x8000 }
    else if code == 0x04 { 0x20000 }
    else if code == 0x05 { 0x10000 }
    else { 0x2000 }
}

/// Whether a ROM can be inserted: it holds a whole header (past 0x0149), its size leaves
/// room for bank arithmetic, and its cartridge type names a supported controller.
pub fn can_load_rom(rom: &[u8]) -> (r: bool)
    ensures
        r == (rom@.len() > 0x149 && rom@.len() + 0x3FFF <= usize::MAX && is_supported_cartridge(rom@[0x147])),
{
    if rom.len() <= 0x149 || rom.len() > usize::MAX - 0x3FFF {
        return false;
    }
    let kind = rom[0x147];
    kind == 0x00 || (0x01 <= kind && kind <= 0x03) || kind == 0x0F || kind == 0x10 || (0x11 <= kind && kind <= 0x13)
        || (0x19 <= kind && kind <= 0x1E)
}

/// The model the CGB flag of a ROM header (0x0143) selects: 0x80 and 0xC0 mean colour.
pub open spec fn spec_mode_of(byte: u8) -> GameboyMode {
    if byte == 0xC0 || byte == 0x80 { GameboyMode::CGB } else { GameboyMode::DMG }
}

/// The memory map: cartridge, video RAM (one bank, two in colour mode), work RAM (two banks,
/// eight in colour mode), OAM, the I/O registers (joypad, timer, sound and colour registers
/// routed to their units), high RAM and the interrupt-enable register.
#[derive(Clone, Debug)]
pub struct Bus {
    pub joypad: Joypad,
    pub oam: [u8; 0xA0],
    pub io_registers: [u8; 0x7F],
    pub hram: [u8; 0x7F],
    pub ie_register: u8,
    /// Video RAM banks of 0x2000 bytes, bank n at offset n * 0x2000.
    pub vram: [u8; 0x4000],
    pub vram_bank_count: usize,
    /// Work RAM banks of 0x1000 bytes, bank n at offset n * 0x1000.
    pub wram: [u8; 0x8000],
    pub wram_bank_count: usize,
    pub current_wram_bank: usize,
    pub debug: [u8; 0x100],
    pub mbc: MbcType,
    pub gb_mode: GameboyMode,
    pub cgb: CgbRegisters,
    pub timer: Timer,
    pub apu: APU,
}

/// A save of the memory map (the timer and audio unit are not part of it).
#[derive(Clone, Debug)]
pub struct BusState {
    pub joypad: Joypad,
    pub oam: [u8; 0xA0],
    pub io_registers: [u8; 0x7F],
    pub hram: [u8; 0x7F],
    pub ie_register: u8,
    /// The video RAM banks in use, one after another.
    pub vram_data: Vec<u8>,
    /// The work RAM banks in use, one after another.
    pub wram_data: Vec<u8>,
    pub current_wram_bank: usize,
    pub debug: [u8; 0x100],
    pub mbc: MbcTypeState,
    pub gb_mode: GameboyMode,
    /// DIV, TIMA, TMA and TAC.
    pub timer_registers: TimerRegisters,
    /// NR10-NR52 and the wave RAM.
    pub sound_registers: APURegisters,
}

impl Bus {
    pub open spec fn wf(&self) -> bool {
        &&& self.mbc.wf()
        &&& self.cgb.wf()
        &&& self.timer.wf()
        &&& self.apu.wf()
        &&& self.vram_bank_count <= 2
        &&& self.wram_bank_count <= 8
    }

    /// The video RAM bank a CPU access uses: VBK in colour mode, else 0.
    pub open spec fn spec_vram_bank(&self) -> int {
        if self.gb_mode == GameboyMode::CGB { self.cgb.vram_bank as int } else { 0 }
    }

    /// The work RAM bank mapped at 0xD000: SVBK in colour mode, else 1.
    pub open spec fn spec_wram_bank(&self) -> int {
        if self.gb_mode == GameboyMode::CGB { self.cgb.wram_bank as int } else { 1 }
    }

    pub open spec fn spec_wram_index(&self, address: u16) -> int {
        if address <= 0xCFFF {
            address - 0xC000
        } else {
            self.spec_wram_bank() * 0x1000 + (address - 0xD000)
        }
    }

    /// What a read of a non-echo address gives.
    pub open spec fn spec_read_direct(&self, address: u16) -> u8 {
        if is_cart_address(address) {
            self.mbc.spec_read_byte(address)
        } else if address <= 0x9FFF {
            self.vram@[self.spec_vram_bank() * 0x2000 + (address - 0x8000)]
        } else if address <= 0xDFFF {
            self.wram@[self.spec_wram_index(address)]
        } else if address <= 0xFDFF {
            0xFF
        } else if address <= 0xFE9F {
            self.oam@[address - 0xFE00]
        } else if address <= 0xFEFF {
            self.debug@[address - 0xFEA0]
        } else if address == 0xFF00 {
            self.joypad.spec_read()
        } else if self.gb_mode == GameboyMode::CGB && is_cgb_read_address(address) {
            self.cgb.spec_read_register(address)
        } else if is_timer_address(address) {
            self.timer.spec_read_timer_register(address)
        } else if is_sound_register(address) {
            self.apu.rgs.spec_read(address)
        } else if is_wave_ram_address(address) {
            self.apu.rgs.wave_ram@[address - 0xFF30]
        } else if address <= 0xFF7F {
            self.io_registers@[address - 0xFF01]
        } else if address <= 0xFFFE {
            self.hram@[address - 0xFF80]
        } else {
            self.ie_register
        }
    }

    /// The bus after a write of `value` to a non-echo address.
    pub open spec fn spec_write_direct(self, address: u16, value: u8) -> Bus {
        if is_cart_address(address) {
            Bus { mbc: self.mbc.spec_write_byte(address, value), ..self }
        } else if address <= 0x9FFF {
            Bus {
                vram: vstd::array::spec_array_update(self.vram, self.spec_vram_bank() * 0x2000 + (address - 0x8000), value),
                ..self
            }
        } else if address <= 0xDFFF {
            Bus { wram: vstd::array::spec_array_update(self.wram, self.spec_wram_index(address), value), ..self }
        } else if address <= 0xFDFF {
            self
        } else if address <= 0xFE9F {
            Bus { oam: vstd::array::spec_array_update(self.oam, address - 0xFE00, value), ..self }
        } else if address <= 0xFEFF {
            Bus { debug: vstd::array::spec_array_update(self.debug, address - 0xFEA0, value), ..self }
        } else if address == 0xFF00 {
            Bus {
                joypad: Joypad { register: (value & 0x30) | (self.joypad.register & 0xCF), ..self.joypad },
                ..self
            }
        } else if self.gb_mode == GameboyMode::CGB && is_cgb_register(address) {
            Bus { cgb: self.cgb.spec_write_register(address, value), ..self }
        } else if is_timer_address(address) {
            Bus { timer: self.timer.spec_write_timer_register(address, value), ..self }
        } else if is_sound_register(address) {
            Bus { apu: APU { rgs: self.apu.rgs.spec_write(address, value), ..self.apu }, ..self }
        } else if is_wave_ram_address(address) {
            Bus {
                apu: APU {
                    rgs: APURegisters {
                        wave_ram: vstd::array::spec_array_update(self.apu.rgs.wave_ram, address - 0xFF30, value),
                        ..self.apu.rgs
                    },
                    ..self.apu
                },
                ..self
            }
        } else if address == 0xFF46 {
            Bus { oam: self.spec_dma(value), ..self }
        } else if address <= 0xFF7F {
            Bus { io_registers: vstd::array::spec_array_update(self.io_registers, address - 0xFF01, value), ..self }
        } else if address <= 0xFFFE {
            Bus { hram: vstd::array::spec_array_update(self.hram, address - 0xFF80, value), ..self }
        } else {
            Bus { ie_register: value, ..self }
        }
    }

    /// OAM after a DMA transfer from page `value`: byte i is what a read of
    /// `value * 0x100 + i` gives.
    pub open spec fn spec_dma(&self, value: u8) -> [u8; 0xA0] {
        choose|a: [u8; 0xA0]| #[trigger] self.is_dma_copy(value, a)
    }

    /// Whether `a` holds, at each index i, what a read of `value * 0x100 + i` gives.
    pub open spec fn is_dma_copy(&self, value: u8, a: [u8; 0xA0]) -> bool {
        forall|i: int| 0 <= i < 0xA0 ==> #[trigger] a@[i] == self.spec_read_byte((value as int * 0x100 + i) as u16)
    }
}



impl Bus {
    pub fn new() -> (r: Bus)
        ensures
            r.wf(),
            r.banks_cover_reads(),
            r.gb_mode == GameboyMode::DMG,
            r.mbc == MbcType::Empty,
            r.vram_bank_count == 1,
            r.wram_bank_count == 2,
            r.current_wram_bank == 1,
            r.ie_register == 0,
            r.joypad == (Joypad { keys: 0xFF, register: 0xFF }),
            r.timer == Timer::spec_new(),
            forall|i: int| 0 <= i < 0x4000 ==> r.vram@[i] == 0,
            forall|i: int| 0 <= i < 0x8000 ==> r.wram@[i] == 0,
            forall|i: int| 0 <= i < 0xA0 ==> r.oam@[i] == 0,
            forall|i: int| 0 <= i < 0x7F ==> r.io_registers@[i] == 0 && r.hram@[i] == 0,
            forall|i: int| 0 <= i < 0x100 ==> r.debug@[i] == 0,
    {
        Bus {
            joypad: Joypad::new(),
            oam: [0; 0xA0],
            io_registers: [0; 0x7F],
            hram: [0; 0x7F],
            ie_register: 0,
            vram: [0; 0x4000],
            vram_bank_count: 1,
            wram: [0; 0x8000],
            wram_bank_count: 2,
            current_wram_bank: 1,
            debug: [0; 0x100],
            mbc: MbcType::Empty,
            gb_mode: GameboyMode::DMG,
            cgb: CgbRegisters::default(),
            timer: Timer::new(),
            apu: APU::new(),
        }
    }

    fn vram_bank(&self) -> (r: usize)
        requires
            self.wf(),
        ensures
            r == self.spec_vram_bank(),
            r <= 1,
    {
        if self.gb_mode == GameboyMode::CGB { self.cgb.get_vram_bank() } else { 0 }
    }

    fn wram_index(&self, address: u16) -> (r: usize)
        requires
            self.wf(),
            0xC000 <= address <= 0xDFFF,
        ensures
            r == self.spec_wram_index(address),
            r < 0x8000,
    {
        if address <= 0xCFFF {
            (address - 0xC000) as usize
        } else {
            let bank = if self.gb_mode == GameboyMode::CGB { self.cgb.get_wram_bank() } else { 1 };
            bank * 0x1000 + (address - 0xD000) as usize
        }
    }

    fn read_direct(&self, address: u16) -> (r: u8)
        requires
            self.wf(),
        ensures
            r == self.spec_read_direct(address),
    {
        if address <= 0x7FFF || (0xA000 <= address && address <= 0xBFFF) {
            self.mbc.read_byte(address)
        } else if address <= 0x9FFF {
            self.vram[self.vram_bank() * 0x2000 + (address - 0x8000) as usize]
        } else if address <= 0xDFFF {
            self.wram[self.wram_index(address)]
        } else if address <= 0xFDFF {
            0xFF
        } else if address <= 0xFE9F {
            self.oam[(address - 0xFE00) as usize]
        } else if address <= 0xFEFF {
            self.debug[(address - 0xFEA0) as usize]
        } else if address == 0xFF00 {
            self.joypad.read()
        } else if self.gb_mode == GameboyMode::CGB && (address == 0xFF4D || address == 0xFF4F
            || address == 0xFF55 || (0xFF68 <= address && address <= 0xFF6B) || address == 0xFF70) {
            self.cgb.read_register(address)
        } else if 0xFF04 <= address && address <= 0xFF07 {
            self.timer.read_timer_register(address)
        } else if (0xFF10 <= address && address <= 0xFF14) || (0xFF16 <= address && address <= 0xFF1E)
            || (0xFF20 <= address && address <= 0xFF26) {
            self.apu.read_register(address)
        } else if 0xFF30 <= address && address <= 0xFF3F {
            self.apu.read_wave_ram(address - 0xFF30)
        } else if address <= 0xFF7F {
            self.io_registers[(address - 0xFF01) as usize]
        } else if address <= 0xFFFE {
            self.hram[(address - 0xFF80) as usize]
        } else {
            self.ie_register
        }
    }

    fn write_direct(&mut self, address: u16, value: u8)
        requires
            old(self).wf(),
        ensures
            *final(self) == old(self).spec_write_direct(address, value),
            final(self).wf(),
            address == 0xFF46 ==> forall|i: int| 0 <= i < 0xA0 ==> #[trigger] final(self).oam@[i]
                == old(self).spec_read_byte((value as int * 0x100 + i) as u16),
    {
        if address <= 0x7FFF || (0xA000 <= address && address <= 0xBFFF) {
            self.mbc.write_byte(address, value);
        } else if address <= 0x9FFF {
            let i = self.vram_bank() * 0x2000 + (address - 0x8000) as usize;
            self.vram[i] = value;
        } else if address <= 0xDFFF {
            let i = self.wram_index(address);
            self.wram[i] = value;
        } else if address <= 0xFDFF {
        } else if address <= 0xFE9F {
            self.oam[(address - 0xFE00) as usize] = value;
        } else if address <= 0xFEFF {
            self.debug[(address - 0xFEA0) as usize] = value;
        } else if address == 0xFF00 {
            self.joypad.write(value);
        } else if self.gb_mode == GameboyMode::CGB && (address == 0xFF4D || address == 0xFF4F
            || (0xFF51 <= address && address <= 0xFF55) || (0xFF68 <= address && address <= 0xFF6B)
            || address == 0xFF70) {
            self.cgb.write_register(address, value);
        } else if 0xFF04 <= address && address <= 0xFF07 {
            self.timer.write_timer_register(address, value);
        } else if (0xFF10 <= address && address <= 0xFF14) || (0xFF16 <= address && address <= 0xFF1E)
            || (0xFF20 <= address && address <= 0xFF26) {
            self.apu.write_register(address, value);
        } else if 0xFF30 <= address && address <= 0xFF3F {
            self.apu.write_wave_ram(address - 0xFF30, value);
        } else if address == 0xFF46 {
            self.dma_oam_transfer(value);
        } else if address <= 0xFF7F {
            self.io_registers[(address - 0xFF01) as usize] = value;
        } else if address <= 0xFFFE {
            self.hram[(address - 0xFF80) as usize] = value;
        } else {
            self.ie_register = value;
        }
    }

    /// OAM DMA: copies the 160 bytes at `value * 0x100` into OAM.
    fn dma_oam_transfer(&mut self, value: u8)
        requires
            old(self).wf(),
        ensures
            *final(self) == (Bus { oam: old(self).spec_dma(value), ..*old(self) }),
            forall|i: int| 0 <= i < 0xA0 ==> #[trigger] final(self).oam@[i]
                == old(self).spec_read_byte((value as int * 0x100 + i) as u16),
    {
        let base: u16 = (value as u16) * 0x100;
        let mut data = [0u8; 0xA0];
        let mut i: u16 = 0;
        while i < 0xA0
            invariant
                i <= 0xA0,
                self.wf(),
                base == value as int * 0x100,
                forall|j: int| 0 <= j < i ==> data@[j] == self.spec_read_byte((value as int * 0x100 + j) as u16),
            decreases 0xA0 - i,
        {
            data[i as usize] = self.read_byte(base + i);
            i += 1;
        }
        proof {
            let c = self.spec_dma(value);
            assert(self.is_dma_copy(value, data));
            assert(self.is_dma_copy(value, c));
            broadcast use vstd::array::axiom_array_ext_equal;
            assert(c =~= data);
        }
        self.oam = data;
    }
}

impl MemoryInterface for Bus {
    open spec fn mem_wf(&self) -> bool {
        self.wf()
    }

    open spec fn spec_read_byte(&self, addr: u16) -> u8 {
        self.spec_read_direct(unecho(addr))
    }

    open spec fn spec_write_byte(&self, addr: u16, value: u8) -> Bus {
        self.spec_write_direct(unecho(addr), value)
    }

    open spec fn spec_gb_mode(&self) -> GameboyMode {
        self.gb_mode
    }

    fn read_byte(&self, addr: u16) -> (r: u8) {
        let a = if 0xE000 <= addr && addr <= 0xFDFF { addr - 0x2000 } else { addr };
        self.read_direct(a)
    }

    /// A write to 0xFF46 copies page `value` (the 0xA0 bytes from `value * 0x100`) to OAM.
    fn write_byte(&mut self, addr: u16, value: u8)
        ensures
            addr == 0xFF46 ==> forall|i: int| 0 <= i < 0xA0 ==> #[trigger] final(self).oam@[i]
                == old(self).spec_read_byte((value as int * 0x100 + i) as u16),
    {
        let a = if 0xE000 <= addr && addr <= 0xFDFF { addr - 0x2000 } else { addr };
        self.write_direct(a, value);
    }

    fn gb_mode(&self) -> (r: GameboyMode) {
        self.gb_mode
    }

    open spec fn spec_read_vram_bank(&self, address: u16, bank: usize) -> u8 {
        self.vram@[bank * 0x2000 + (address & 0x1FFF)]
    }

    fn read_byte_vram_bank(&self, address: u16, bank: usize) -> (r: u8) {
        proof { crate::bits::lemma_word_bits(); }
        self.vram[bank * 0x2000 + (address & 0x1FFF) as usize]
    }
}


/// The first `len` bytes of an array.
fn array_prefix<const N: usize>(a: &[u8; N], len: usize) -> (r: Vec<u8>)
    requires
        len <= N,
    ensures
        r@ == a@.subrange(0, len as int),
{
    let mut v: Vec<u8> = Vec::new();
    let mut i: usize = 0;
    while i < len
        invariant
            i <= len <= N,
            a@.len() == N,
            v@ == a@.subrange(0, i as int),
        decreases len - i,
    {
        v.push(a[i]);
        i += 1;
    }
    v
}

/// Overwrites the first `len` bytes of an array with the first `len` bytes of `data`.
fn array_restore<const N: usize>(a: &mut [u8; N], data: &Vec<u8>, len: usize)
    requires
        len <= N,
        len <= data@.len(),
    ensures
        final(a)@ == data@.subrange(0, len as int) + old(a)@.subrange(len as int, N as int),
{
    let mut i: usize = 0;
    while i < len
        invariant
            i <= len <= N,
            len <= data@.len(),
            a@.len() == N,
            old(a)@.len() == N,
            forall|j: int| 0 <= j < i ==> a@[j] == data@[j],
            forall|j: int| i <= j < N ==> a@[j] == old(a)@[j],
        decreases len - i,
    {
        a[i] = data[i];
        i += 1;
    }
    assert(a@ =~= data@.subrange(0, len as int) + old(a)@.subrange(len as int, N as int));
}

/// The number of whole banks of `bank_size` bytes in `len` bytes, at most `max`.
pub open spec fn spec_bank_count(len: nat, bank_size: nat, max: nat) -> nat {
    if len / bank_size > max { max } else { len / bank_size }
}

impl Bus {
    /// Whether `st` is a save of this bus.
    pub open spec fn spec_saved_as(&self, st: BusState) -> bool {
        &&& st.joypad == self.joypad
        &&& st.oam == self.oam
        &&& st.io_registers == self.io_registers
        &&& st.hram == self.hram
        &&& st.ie_register == self.ie_register
        &&& st.vram_data@ == self.vram@.subrange(0, self.vram_bank_count * 0x2000)
        &&& st.wram_data@ == self.wram@.subrange(0, self.wram_bank_count * 0x1000)
        &&& st.current_wram_bank == self.current_wram_bank
        &&& st.debug == self.debug
        &&& self.mbc.spec_saved_as(st.mbc)
        &&& st.gb_mode == self.gb_mode
        &&& st.timer_registers == self.timer.rgs
        &&& st.sound_registers == self.apu.rgs
    }

    pub fn save_state(&self) -> (r: BusState)
        requires
            self.wf(),
        ensures
            self.spec_saved_as(r),
            r.mbc.wf(),
    {
        BusState {
            joypad: self.joypad,
            oam: self.oam,
            io_registers: self.io_registers,
            hram: self.hram,
            ie_register: self.ie_register,
            vram_data: array_prefix(&self.vram, self.vram_bank_count * 0x2000),
            wram_data: array_prefix(&self.wram, self.wram_bank_count * 0x1000),
            current_wram_bank: self.current_wram_bank,
            debug: self.debug,
            mbc: self.mbc.save_state(),
            gb_mode: self.gb_mode,
            timer_registers: self.timer.rgs,
            sound_registers: self.apu.rgs,
        }
    }

    /// Whether `new` is `old` with the save `st` restored: the whole banks of video RAM
    /// (at most two) and work RAM (at most eight) in the save replace the first banks,
    /// the controller state is restored when it is of the same kind, and the timer and
    /// sound registers are restored (the timer's internal counters and the sound channels'
    /// state are kept; the colour-mode registers are not part of a save).
    pub open spec fn spec_loaded(old: Bus, st: BusState, new: Bus) -> bool {
        let vc = spec_bank_count(st.vram_data@.len(), 0x2000, 2);
        let wc = spec_bank_count(st.wram_data@.len(), 0x1000, 8);
        &&& new.joypad == st.joypad
        &&& new.oam == st.oam
        &&& new.io_registers == st.io_registers
        &&& new.hram == st.hram
        &&& new.ie_register == st.ie_register
        &&& new.vram_bank_count == vc
        &&& new.vram@ == st.vram_data@.subrange(0, (vc * 0x2000) as int) + old.vram@.subrange((vc * 0x2000) as int, 0x4000)
        &&& new.wram_bank_count == wc
        &&& new.wram@ == st.wram_data@.subrange(0, (wc * 0x1000) as int) + old.wram@.subrange((wc * 0x1000) as int, 0x8000)
        &&& new.current_wram_bank == st.current_wram_bank
        &&& new.debug == st.debug
        &&& MbcType::spec_loaded(old.mbc, st.mbc, new.mbc)
        &&& new.mbc.wf()
        &&& new.gb_mode == st.gb_mode
        &&& new.cgb == old.cgb
        &&& new.timer == (Timer { rgs: st.timer_registers, ..old.timer })
        &&& new.apu == (APU { rgs: st.sound_registers, ..old.apu })
    }

    pub fn load_state(&mut self, state: BusState)
        requires
            old(self).wf(),
            state.mbc.wf(),
        ensures
            Bus::spec_loaded(*old(self), state, *final(self)),
            final(self).wf(),
    {
        self.joypad = state.joypad;
        self.oam = state.oam;
        self.io_registers = state.io_registers;
        self.hram = state.hram;
        self.ie_register = state.ie_register;
        let vlen = state.vram_data.len() / 0x2000;
        let vram_count = if vlen > 2 { 2 } else { vlen };
        array_restore(&mut self.vram, &state.vram_data, vram_count * 0x2000);
        self.vram_bank_count = vram_count;
        let wlen = state.wram_data.len() / 0x1000;
        let wram_count = if wlen > 8 { 8 } else { wlen };
        array_restore(&mut self.wram, &state.wram_data, wram_count * 0x1000);
        self.wram_bank_count = wram_count;
        self.current_wram_bank = state.current_wram_bank;
        self.debug = state.debug;
        self.mbc.load_state(state.mbc);
        self.gb_mode = state.gb_mode;
        self.timer.rgs = state.timer_registers;
        self.apu.rgs = state.sound_registers;
    }

    /// Selects the model from the CGB flag of a ROM header (0x0143).
    #[allow(non_snake_case)]
    pub fn check__gb_mode(&mut self, byte: u8)
        ensures
            *final(self) == (Bus { gb_mode: spec_mode_of(byte), ..*old(self) }),
    {
        let gb_mode = if byte == 0xC0 || byte == 0x80 { GameboyMode::CGB } else { GameboyMode::DMG };
        self.gb_mode = gb_mode;
    }

    /// Inserts a cartridge: picks the controller from the header's cartridge type (0x0147)
    /// and its RAM size from byte 0x0149; in colour mode the RAM banks are set up afresh
    /// (two video banks, eight work banks, zeroed).
    pub fn load_rom(&mut self, rom: &[u8])
        requires
            old(self).wf(),
            rom@.len() > 0x149,
            rom@.len() + 0x3FFF <= usize::MAX,
            is_supported_cartridge(rom@[0x147]),
        ensures
            final(self).wf(),
            old(self).banks_cover_reads() ==> final(self).banks_cover_reads(),
            final(self).mbc.spec_fresh(rom@, rom@[0x147], spec_ram_size(rom@[0x149])),
            old(self).gb_mode == GameboyMode::DMG ==> *final(self) == (Bus { mbc: final(self).mbc, ..*old(self) }),
            old(self).gb_mode != GameboyMode::DMG ==> {
                &&& final(self).vram_bank_count == 2
                &&& final(self).wram_bank_count == 8
                &&& final(self).current_wram_bank == 1
                &&& (forall|i: int| 0 <= i < 0x4000 ==> final(self).vram@[i] == 0)
                &&& (forall|i: int| 0 <= i < 0x8000 ==> final(self).wram@[i] == 0)
                &&& *final(self) == (Bus {
                    mbc: final(self).mbc,
                    vram: final(self).vram,
                    wram: final(self).wram,
                    vram_bank_count: 2,
                    wram_bank_count: 8,
                    current_wram_bank: 1,
                    ..*old(self)
                })
            },
    {
        let ram_size: usize = match rom[0x149] {
            0x00 => 0,
            0x02 => 0x2000,
            0x03 => 0x8000,
            0x04 => 0x20000,
            0x05 => 0x10000,
            _ => 0x2000,
        };
        if self.gb_mode != GameboyMode::DMG {
            self.vram = [0; 0x4000];
            self.wram = [0; 0x8000];
            self.vram_bank_count = 2;
            self.wram_bank_count = 8;
            self.current_wram_bank = 1;
        }
        let kind = rom[0x147];
        self.mbc = if kind == 0x00 {
            MbcType::Mbc0(Mbc0::new(rom, ram_size))
        } else if 0x01 <= kind && kind <= 0x03 {
            MbcType::Mbc1(Mbc1::new(rom, ram_size))
        } else if kind == 0x0F || kind == 0x10 {
            MbcType::Mbc3(Mbc3::new(rom, ram_size, true))
        } else if 0x11 <= kind && kind <= 0x13 {
            MbcType::Mbc3(Mbc3::new(rom, ram_size, false))
        } else {
            MbcType::Mbc5(Mbc5::new(rom, ram_size))
        };
    }

    /// The cartridge header: the 0x50 bytes at 0x0100-0x014F as the bus reads them.
    pub fn read_cartridge_header(&self) -> (r: [u8; 0x50])
        requires
            self.wf(),
        ensures
            forall|i: int| 0 <= i < 0x50 ==> r@[i] == self.spec_read_byte((0x100 + i) as u16),
    {
        let mut header = [0u8; 0x50];
        let mut i: u16 = 0;
        while i < 0x50
            invariant
                i <= 0x50,
                self.wf(),
                forall|j: int| 0 <= j < i ==> header@[j] == self.spec_read_byte((0x100 + j) as u16),
            decreases 0x50 - i,
        {
            header[i as usize] = self.read_byte(0x100 + i);
            i += 1;
        }
        header
    }
}


/// Addresses backed by plain storage: video RAM, work RAM and its echo, OAM, the unusable
/// area, high RAM and the interrupt-enable register.
pub open spec fn is_plain_storage(address: u16) -> bool {
    (0x8000 <= address <= 0x9FFF) || (0xC000 <= address <= 0xFEFF) || 0xFF80 <= address
}

/// A read of a plain-storage address gives back the last value written there, and such a
/// write leaves every other plain-storage address as it was.
pub proof fn lemma_bus_read_after_write(b: Bus, addr: u16, value: u8, other: u16)
    requires
        b.wf(),
        is_plain_storage(addr),
    ensures
        b.spec_write_byte(addr, value).spec_read_byte(addr) == value,
        is_plain_storage(other) && unecho(other) != unecho(addr)
            ==> b.spec_write_byte(addr, value).spec_read_byte(other) == b.spec_read_byte(other),
{
    broadcast use vstd::array::axiom_spec_array_update;
}

impl Bus {
    /// Whether a read of `address` gives back the byte last written there: plain storage,
    /// or external RAM that the cartridge maps.
    pub open spec fn stores(&self, address: u16) -> bool {
        is_plain_storage(address) || self.mbc.maps_ram(address)
    }

    /// Whether two stored addresses reach different bytes.
    pub open spec fn distinct_cells(&self, x: u16, y: u16) -> bool {
        if is_plain_storage(x) && is_plain_storage(y) {
            unecho(x) != unecho(y)
        } else if self.mbc.maps_ram(x) && self.mbc.maps_ram(y) {
            self.mbc.spec_ram_slot(x) != self.mbc.spec_ram_slot(y)
        } else {
            true
        }
    }
}

/// A write to a byte the bus stores reads back, keeps which addresses are stored where,
/// and leaves every other stored byte as it was.
pub proof fn lemma_bus_store_read_after_write(b: Bus, addr: u16, value: u8, other: u16)
    requires
        b.wf(),
        b.stores(addr),
    ensures
        b.spec_write_byte(addr, value).wf(),
        b.spec_write_byte(addr, value).spec_read_byte(addr) == value,
        b.spec_write_byte(addr, value).stores(other) == b.stores(other),
        b.spec_write_byte(addr, value).distinct_cells(addr, other) == b.distinct_cells(addr, other),
        b.stores(other) && b.distinct_cells(addr, other)
            ==> b.spec_write_byte(addr, value).spec_read_byte(other) == b.spec_read_byte(other),
{
    broadcast use vstd::array::axiom_spec_array_update;
    if is_plain_storage(addr) {
        lemma_bus_read_after_write(b, addr, value, other);
    } else {
        crate::cartridge::lemma_cart_ram_read_after_write(b.mbc, addr, value, other);
        crate::cartridge::lemma_cart_ram_read_after_write(b.mbc, addr, value, addr);
    }
}

/// Echo RAM mirrors work RAM: a write to 0xC000 + x (x < 0x1E00) reads back at 0xE000 + x,
/// and the other way round.
pub proof fn lemma_bus_echo_mirror(b: Bus, x: u16, value: u8)
    requires
        b.wf(),
        x < 0x1E00,
    ensures
        b.spec_write_byte((0xC000 + x) as u16, value).spec_read_byte((0xE000 + x) as u16) == value,
        b.spec_write_byte((0xE000 + x) as u16, value).spec_read_byte((0xC000 + x) as u16) == value,
{
    broadcast use vstd::array::axiom_spec_array_update;
}

/// Restoring a bus from its own save gives the bus back; the cartridge controller holds
/// the state that was saved.
pub proof fn lemma_bus_save_load_roundtrip(b: Bus, st: BusState, r: Bus)
    requires
        b.wf(),
        b.spec_saved_as(st),
        Bus::spec_loaded(b, st, r),
    ensures
        r == (Bus { mbc: r.mbc, ..b }),
        r.mbc.spec_saved_as(st.mbc),
{
    broadcast use vstd::array::axiom_array_ext_equal;
    assert(r.vram =~= b.vram);
    assert(r.wram =~= b.wram);
}

impl Bus {
    /// Whether the banks that reads reach are among the banks in use (and so in a save):
    /// the video bank the processor sees and the work bank mapped at 0xD000. `new` makes
    /// such a bus and `load_rom` keeps it so.
    pub open spec fn banks_cover_reads(&self) -> bool {
        self.spec_vram_bank() < self.vram_bank_count && self.spec_wram_bank() < self.wram_bank_count
    }
}

/// Loading a save gives back every read the saved bus gave: memory, cartridge, the timer
/// and sound registers and the other I/O registers, whatever the bus it is loaded into
/// went through since (with the same cartridge in it). The colour-mode registers are not
/// part of a save, so in colour mode they must be as they were.
pub proof fn lemma_bus_load_restores_reads(b: Bus, st: BusState, other: Bus, r: Bus, address: u16)
    requires
        b.wf(),
        other.wf(),
        r.wf(),
        b.banks_cover_reads(),
        b.spec_saved_as(st),
        other.mbc.same_cartridge(b.mbc),
        b.gb_mode == GameboyMode::CGB ==> other.cgb == b.cgb,
        Bus::spec_loaded(other, st, r),
    ensures
        r.spec_read_byte(address) == b.spec_read_byte(address),
{
    let a = unecho(address);
    let vk = b.vram_bank_count;
    let wk = b.wram_bank_count;
    vstd::arithmetic::div_mod::lemma_div_by_multiple(vk as int, 0x2000);
    vstd::arithmetic::div_mod::lemma_div_by_multiple(wk as int, 0x1000);
    assert(st.vram_data@.len() == vk * 0x2000);
    assert(st.wram_data@.len() == wk * 0x1000);
    assert(r.vram_bank_count == vk);
    assert(r.wram_bank_count == wk);
    assert(r.gb_mode == b.gb_mode);
    if is_cart_address(a) {
        crate::cartridge::lemma_mbc_save_load_restores_reads(b.mbc, st.mbc, other.mbc, r.mbc, a);
    } else if a <= 0x9FFF {
        let i = b.spec_vram_bank() * 0x2000 + (a - 0x8000);
        assert(i < vk * 0x2000) by (nonlinear_arith)
            requires
                b.spec_vram_bank() < vk,
                0 <= a - 0x8000 < 0x2000,
                i == b.spec_vram_bank() * 0x2000 + (a - 0x8000);
        assert(r.vram@[i] == st.vram_data@[i]);
    } else if a <= 0xDFFF {
        let i = b.spec_wram_index(a);
        assert(i < wk * 0x1000) by (nonlinear_arith)
            requires
                b.spec_wram_bank() < wk,
                1 <= wk,
                a <= 0xCFFF ==> i == a - 0xC000,
                a > 0xCFFF ==> i == b.spec_wram_bank() * 0x1000 + (a - 0xD000),
                0xC000 <= a <= 0xDFFF;
        assert(r.wram@[i] == st.wram_data@[i]);
    }
}

} // verus!
