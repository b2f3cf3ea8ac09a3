use vstd::prelude::*;
use crate::bus::io_address::IoRegister;
use crate::bus::{spec_mode_of, spec_ram_size, is_supported_cartridge, Bus, BusState, GameboyMode, MemoryInterface};
use crate::cpu::{CPUState, CPU};
use crate::flags::Flags;
use crate::ppu::{spec_ppu_tick, PPUView, PPU};
use crate::timer::TimerState;

verus! {

/// T-cycles in one video frame (154 lines of 456 cycles).
pub const CYCLES_PER_FRAME: usize = 70224;

/// The interrupt sources, in the order of their bits in IF and IE.
#[derive(Debug, Clone, Copy, PartialEq, Eq, Structural)]
pub enum Interrupt {
    VBlank,
    LCDStat,
    Timer,
    Serial,
    Joypad,
}

impl Interrupt {
    pub open spec fn spec_mask(self) -> u8 {
        match self {
            Interrupt::VBlank => 0b0000_0001,
            Interrupt::LCDStat => 0b0000_0010,
            Interrupt::Timer => 0b0000_0100,
            Interrupt::Serial => 0b0000_1000,
            Interrupt::Joypad => 0b0001_0000,
        }
    }

    /// The bit of this interrupt in IF and IE.
    pub fn mask(self) -> (r: u8)
        ensures
            r == self.spec_mask(),
    {
        match self {
            Interrupt::VBlank => 0b0000_0001,
            Interrupt::LCDStat => 0b0000_0010,
            Interrupt::Timer => 0b0000_0100,
            Interrupt::Serial => 0b0000_1000,
            Interrupt::Joypad => 0b0001_0000,
        }
    }
}

/// A save of the whole machine: processor, timer counters and memory map.
#[derive(Clone, Debug)]
pub struct GameboyState {
    pub cpu_state: CPUState,
    pub timer_state: TimerState,
    pub bus_data: BusState,
}

/// The machine: the processor and the memory map with the units behind it.
#[derive(Clone, Debug)]
pub struct Gameboy {
    pub cpu: CPU,
    pub bus: Bus,
    pub ppu: PPU,
}

/// The bus after a sequence of writes, applied in order.
pub open spec fn spec_write_all(b: Bus, writes: Seq<(u16, u8)>) -> Bus
    decreases writes.len(),
{
    if writes.len() == 0 {
        b
    } else {
        let last = writes.last();
        spec_write_all(b, writes.drop_last()).spec_write_byte(last.0, last.1)
    }
}

/// Register writes never change the machine model.
pub proof fn lemma_write_all_keeps_mode(b: Bus, writes: Seq<(u16, u8)>)
    ensures
        spec_write_all(b, writes).gb_mode == b.gb_mode,
    decreases writes.len(),
{
    if writes.len() > 0 {
        lemma_write_all_keeps_mode(b, writes.drop_last());
    }
}

/// The register values the boot ROM leaves behind, as writes: joypad, serial, timer,
/// interrupt flags, sound, LCD and interrupt enable, with the values given for `mode`.
pub open spec fn spec_power_up_writes(mode: GameboyMode) -> Seq<(u16, u8)> {
    let common = seq![
        (IoRegister::Joyp.spec_address(), 0xCFu8),
        (IoRegister::Sb.spec_address(), 0x00u8),
        (IoRegister::Sc.spec_address(), if mode == GameboyMode::DMG { 0x7Eu8 } else { 0x7Fu8 }),
        (IoRegister::Div.spec_address(), 0xABu8),
        (IoRegister::Tima.spec_address(), 0x00u8),
        (IoRegister::Tma.spec_address(), 0x00u8),
        (IoRegister::Tac.spec_address(), 0xF8u8),
        (IoRegister::If.spec_address(), 0xE1u8),
        (IoRegister::Nr10.spec_address(), 0x80u8),
        (IoRegister::Nr11.spec_address(), 0xBFu8),
        (IoRegister::Nr12.spec_address(), 0xF3u8),
        (IoRegister::Nr13.spec_address(), 0xFFu8),
        (IoRegister::Nr14.spec_address(), 0xBFu8),
        (IoRegister::Nr21.spec_address(), 0x3Fu8),
        (IoRegister::Nr22.spec_address(), 0x00u8),
        (IoRegister::Nr23.spec_address(), 0xFFu8),
        (IoRegister::Nr24.spec_address(), 0xBFu8),
        (IoRegister::Nr30.spec_address(), 0x7Fu8),
        (IoRegister::Nr31.spec_address(), 0xFFu8),
        (IoRegister::Nr32.spec_address(), 0x9Fu8),
        (IoRegister::Nr33.spec_address(), 0xFFu8),
        (IoRegister::Nr34.spec_address(), 0xBFu8),
        (IoRegister::Nr41.spec_address(), 0xFFu8),
        (IoRegister::Nr42.spec_address(), 0x00u8),
        (IoRegister::Nr43.spec_address(), 0x00u8),
        (IoRegister::Nr44.spec_address(), 0xBFu8),
        (IoRegister::Nr50.spec_address(), 0x77u8),
        (IoRegister::Nr51.spec_address(), 0xF3u8),
        (IoRegister::Nr52.spec_address(), 0xF1u8),
        (IoRegister::Lcdc.spec_address(), 0x91u8),
        (IoRegister::Stat.spec_address(), 0x85u8),
        (IoRegister::Scy.spec_address(), 0x00u8),
        (IoRegister::Scx.spec_address(), 0x00u8),
        (IoRegister::Ly.spec_address(), 0x00u8),
        (IoRegister::Lyc.spec_address(), 0x00u8),
        (IoRegister::Dma.spec_address(), 0xFFu8),
        (IoRegister::Bgp.spec_address(), 0xFCu8),
        (IoRegister::Wy.spec_address(), 0x00u8),
        (IoRegister::Wx.spec_address(), 0x00u8),
        (IoRegister::Ie.spec_address(), 0x00u8)
    ];
    if mode == GameboyMode::DMG {
        common
    } else {
        common + seq![
            (IoRegister::Key1.spec_address(), 0x7Eu8),
            (IoRegister::Vbk.spec_address(), 0x00u8),
            (IoRegister::Hdma1.spec_address(), 0xFFu8),
            (IoRegister::Hdma2.spec_address(), 0xFFu8),
            (IoRegister::Hdma3.spec_address(), 0xFFu8),
            (IoRegister::Hdma4.spec_address(), 0xFFu8),
            (IoRegister::Hdma5.spec_address(), 0xFFu8),
            (IoRegister::Bcps.spec_address(), 0x00u8),
            (IoRegister::Bcpd.spec_address(), 0xFFu8),
            (IoRegister::Ocps.spec_address(), 0x00u8),
            (IoRegister::Ocpd.spec_address(), 0xFFu8),
            (IoRegister::Svbk.spec_address(), 0x01u8)
        ]
    }
}

/// The processor as the boot ROM leaves it for `mode`.
pub open spec fn spec_power_up_cpu(cpu: CPU, mode: GameboyMode) -> CPU {
    if mode == GameboyMode::DMG {
        CPU {
            a: 0x01,
            f: Flags { z: true, n: false, h: true, c: true },
            b: 0x00,
            c: 0x13,
            d: 0x00,
            e: 0xD8,
            h: 0x01,
            l: 0x4D,
            sp: 0xFFFE,
            pc: 0x0100,
            ime: false,
            ..cpu
        }
    } else {
        CPU {
            a: 0x11,
            f: Flags { z: false, n: true, h: false, c: false },
            b: 0x00,
            c: 0x00,
            d: 0xFF,
            e: 0x56,
            h: 0x00,
            l: 0x0D,
            sp: 0xFFFE,
            pc: 0x0100,
            ime: false,
            ..cpu
        }
    }
}

/// One T-cycle of the units beside the processor: the PPU takes a dot, the cartridge clock,
/// the timer and the audio unit step, and the timer's interrupt request is added to IF.
pub open spec fn spec_cycle(a: (PPUView, Bus), z: (PPUView, Bus)) -> bool {
    let (p1, b1) = spec_ppu_tick(a.0, a.1);
    let (t, bits) = b1.timer.spec_tick();
    let pre = Bus {
        mbc: b1.mbc.spec_tick(),
        timer: t,
        apu: crate::apu::APU { samples: z.1.apu.samples, ..b1.apu.spec_tick_fields() },
        ..b1
    };
    &&& z.0 == p1
    &&& z.1.apu.samples@ == b1.apu.samples@ + b1.apu.spec_tick_samples()
    &&& z.1 == pre.spec_write_byte(0xFF0F, pre.spec_read_byte(0xFF0F) | bits)
}

/// `z` is `a` after `n` T-cycles of the units beside the processor.
pub open spec fn spec_cycles(a: (PPUView, Bus), z: (PPUView, Bus), n: nat) -> bool {
    exists|trace: Seq<(PPUView, Bus)>|
        trace.len() == n + 1 && trace[0] == a && trace[n as int] == z
            && forall|i: int| 0 <= i < n ==> #[trigger] spec_cycle(trace[i], trace[i + 1])
}

impl Gameboy {
    pub open spec fn wf(&self) -> bool {
        self.bus.wf() && self.ppu.wf()
    }

    /// The processor can take its next step: it is halted, or the opcode at PC is defined.
    pub open spec fn spec_can_step(&self) -> bool {
        self.cpu.halt || (self.bus.spec_read_byte(self.cpu.pc) != 0xFC
            && self.bus.spec_read_byte(self.cpu.pc) != 0xFD)
    }

    /// A machine with the given four DMG shades (lightest first).
    pub fn new(palette: [u32; 4]) -> (r: Gameboy)
        ensures
            r.wf(),
            r.cpu == CPU::spec_new(),
            r.bus.gb_mode == GameboyMode::DMG,
            r.ppu@.palette == palette,
    {
        Gameboy { cpu: CPU::new(), bus: Bus::new(), ppu: PPU::new(palette) }
    }

    pub fn save_state(&self) -> (r: GameboyState)
        requires
            self.wf(),
        ensures
            r.cpu_state == self.cpu.spec_save_state(),
            r.timer_state == (TimerState {
                div_counter: self.bus.timer.div_counter,
                tima_counter: self.bus.timer.tima_counter,
            }),
            self.bus.spec_saved_as(r.bus_data),
            r.bus_data.mbc.wf(),
    {
        GameboyState {
            cpu_state: self.cpu.save_state(),
            timer_state: self.bus.timer.save_state(),
            bus_data: self.bus.save_state(),
        }
    }

    /// Whether a save can be restored: its controller state and timer counters are in range.
    pub open spec fn spec_loadable(state: GameboyState) -> bool {
        &&& state.bus_data.mbc.wf()
        &&& state.timer_state.div_counter < usize::MAX
        &&& state.timer_state.tima_counter < usize::MAX
    }

    /// Whether a save can be restored (see `spec_loadable`).
    pub fn is_loadable(state: &GameboyState) -> (r: bool)
        ensures
            r == Gameboy::spec_loadable(*state),
    {
        state.bus_data.mbc.is_valid() && state.timer_state.div_counter < usize::MAX
            && state.timer_state.tima_counter < usize::MAX
    }

    pub fn load_state(&mut self, state: GameboyState)
        requires
            old(self).wf(),
            Gameboy::spec_loadable(state),
        ensures
            final(self).ppu == old(self).ppu,
            final(self).wf(),
            final(self).cpu == CPU::spec_load_state(state.cpu_state),
            Bus::spec_loaded(
                old(self).bus,
                state.bus_data,
                Bus {
                    timer: crate::timer::Timer {
                        div_counter: old(self).bus.timer.div_counter,
                        tima_counter: old(self).bus.timer.tima_counter,
                        ..final(self).bus.timer
                    },
                    ..final(self).bus
                },
            ),
            final(self).bus.timer.div_counter == state.timer_state.div_counter,
            final(self).bus.timer.tima_counter == state.timer_state.tima_counter,
    {
        self.bus.load_state(state.bus_data);
        self.cpu.load_state(state.cpu_state);
        self.bus.timer.load_state(state.timer_state);
    }

    /// Applies a sequence of register writes through the bus, in order.
    fn write_all(&mut self, writes: &Vec<(u16, u8)>)
        requires
            old(self).wf(),
        ensures
            final(self).wf(),
            final(self).bus == spec_write_all(old(self).bus, writes@),
            final(self).cpu == old(self).cpu,
            final(self).ppu == old(self).ppu,
    {
        let mut i: usize = 0;
        while i < writes.len()
            invariant
                i <= writes@.len(),
                self.wf(),
                self.cpu == old(self).cpu,
                self.ppu == old(self).ppu,
                self.bus == spec_write_all(old(self).bus, writes@.take(i as int)),
            decreases writes@.len() - i,
        {
            let (addr, value) = writes[i];
            proof {
                assert(writes@.take(i as int + 1).drop_last() =~= writes@.take(i as int));
            }
            self.bus.write_byte(addr, value);
            i += 1;
        }
        assert(writes@.take(writes@.len() as int) =~= writes@);
    }

    fn power_up_writes(mode: GameboyMode) -> (r: Vec<(u16, u8)>)
        ensures
            r@ == spec_power_up_writes(mode),
    {
        let mut v: Vec<(u16, u8)> = Vec::new();
        v.push((IoRegister::Joyp.address(), 0xCF));
        v.push((IoRegister::Sb.address(), 0x00));
        v.push((IoRegister::Sc.address(), if mode == GameboyMode::DMG { 0x7E } else { 0x7F }));
        v.push((IoRegister::Div.address(), 0xAB));
        v.push((IoRegister::Tima.address(), 0x00));
        v.push((IoRegister::Tma.address(), 0x00));
        v.push((IoRegister::Tac.address(), 0xF8));
        v.push((IoRegister::If.address(), 0xE1));
        v.push((IoRegister::Nr10.address(), 0x80));
        v.push((IoRegister::Nr11.address(), 0xBF));
        v.push((IoRegister::Nr12.address(), 0xF3));
        v.push((IoRegister::Nr13.address(), 0xFF));
        v.push((IoRegister::Nr14.address(), 0xBF));
        v.push((IoRegister::Nr21.address(), 0x3F));
        v.push((IoRegister::Nr22.address(), 0x00));
        v.push((IoRegister::Nr23.address(), 0xFF));
        v.push((IoRegister::Nr24.address(), 0xBF));
        v.push((IoRegister::Nr30.address(), 0x7F));
        v.push((IoRegister::Nr31.address(), 0xFF));
        v.push((IoRegister::Nr32.address(), 0x9F));
        v.push((IoRegister::Nr33.address(), 0xFF));
        v.push((IoRegister::Nr34.address(), 0xBF));
        v.push((IoRegister::Nr41.address(), 0xFF));
        v.push((IoRegister::Nr42.address(), 0x00));
        v.push((IoRegister::Nr43.address(), 0x00));
        v.push((IoRegister::Nr44.address(), 0xBF));
        v.push((IoRegister::Nr50.address(), 0x77));
        v.push((IoRegister::Nr51.address(), 0xF3));
        v.push((IoRegister::Nr52.address(), 0xF1));
        v.push((IoRegister::Lcdc.address(), 0x91));
        v.push((IoRegister::Stat.address(), 0x85));
        v.push((IoRegister::Scy.address(), 0x00));
        v.push((IoRegister::Scx.address(), 0x00));
        v.push((IoRegister::Ly.address(), 0x00));
        v.push((IoRegister::Lyc.address(), 0x00));
        v.push((IoRegister::Dma.address(), 0xFF));
        v.push((IoRegister::Bgp.address(), 0xFC));
        v.push((IoRegister::Wy.address(), 0x00));
        v.push((IoRegister::Wx.address(), 0x00));
        v.push((IoRegister::Ie.address(), 0x00));
        if mode != GameboyMode::DMG {
            v.push((IoRegister::Key1.address(), 0x7E));
            v.push((IoRegister::Vbk.address(), 0x00));
            v.push((IoRegister::Hdma1.address(), 0xFF));
            v.push((IoRegister::Hdma2.address(), 0xFF));
            v.push((IoRegister::Hdma3.address(), 0xFF));
            v.push((IoRegister::Hdma4.address(), 0xFF));
            v.push((IoRegister::Hdma5.address(), 0xFF));
            v.push((IoRegister::Bcps.address(), 0x00));
            v.push((IoRegister::Bcpd.address(), 0xFF));
            v.push((IoRegister::Ocps.address(), 0x00));
            v.push((IoRegister::Ocpd.address(), 0xFF));
            v.push((IoRegister::Svbk.address(), 0x01));
        }
        assert(v@ =~= spec_power_up_writes(mode));
        v
    }

    fn set_power_up_cpu(&mut self, mode: GameboyMode)
        ensures
            *final(self) == (Gameboy { cpu: spec_power_up_cpu(old(self).cpu, mode), ..*old(self) }),
    {
        if mode == GameboyMode::DMG {
            self.cpu.a = 0x01;
            self.cpu.f.n = false;
            self.cpu.f.h = true;
            self.cpu.f.c = true;
            self.cpu.f.z = true;
            self.cpu.b = 0x00;
            self.cpu.c = 0x13;
            self.cpu.d = 0x00;
            self.cpu.e = 0xD8;
            self.cpu.h = 0x01;
            self.cpu.l = 0x4D;
        } else {
            self.cpu.a = 0x11;
            self.cpu.f.n = true;
            self.cpu.f.h = false;
            self.cpu.f.c = false;
            self.cpu.f.z = false;
            self.cpu.b = 0x00;
            self.cpu.c = 0x00;
            self.cpu.d = 0xFF;
            self.cpu.e = 0x56;
            self.cpu.h = 0x00;
            self.cpu.l = 0x0D;
        }
        self.cpu.sp = 0xFFFE;
        self.cpu.pc = 0x0100;
        self.cpu.ime = false;
    }

    /// The monochrome boot state: processor registers and the hardware registers through
    /// the bus.
    pub fn set_power_up_sequence_dmg(&mut self)
        requires
            old(self).wf(),
        ensures
            final(self).ppu == old(self).ppu,
            final(self).wf(),
            final(self).cpu == spec_power_up_cpu(old(self).cpu, GameboyMode::DMG),
            final(self).bus == spec_write_all(old(self).bus, spec_power_up_writes(GameboyMode::DMG)),
    {
        self.set_power_up_cpu(GameboyMode::DMG);
        let writes = Self::power_up_writes(GameboyMode::DMG);
        self.write_all(&writes);
    }

    pub open spec fn spec_cgb_palettes_reset(b: Bus) -> Bus {
        Bus {
            cgb: crate::bus::cgb::CgbRegisters {
                bg_palette_ram: b.cgb.bg_palette_ram,
                obj_palette_ram: b.cgb.obj_palette_ram,
                vram_bank: 0,
                wram_bank: 1,
                bg_palette_index: 0,
                obj_palette_index: 0,
                dma_active: false,
                hdma_active: false,
                ..b.cgb
            },
            ..b
        }
    }

    /// Whether `new` is the bus `old` in the boot state of its model: the boot register
    /// writes for that model and, in colour mode, both palettes all white (0xFF) and the
    /// banks, indices and DMA reset.
    pub open spec fn spec_powered_up_bus(old: Bus, new: Bus) -> bool {
        let w = spec_write_all(old, spec_power_up_writes(old.gb_mode));
        if old.gb_mode == GameboyMode::DMG {
            new == w
        } else {
            &&& new == Bus {
                cgb: crate::bus::cgb::CgbRegisters {
                    bg_palette_ram: new.cgb.bg_palette_ram,
                    obj_palette_ram: new.cgb.obj_palette_ram,
                    ..Gameboy::spec_cgb_palettes_reset(w).cgb
                },
                ..w
            }
            &&& forall|i: int| 0 <= i < 64 ==> new.cgb.bg_palette_ram@[i] == 0xFF
                && new.cgb.obj_palette_ram@[i] == 0xFF
        }
    }

    /// The colour boot state: as for the monochrome model with the colour values, plus the
    /// colour registers, both palettes all white (0xFF) and banks, indices and DMA reset.
    pub fn set_power_up_sequence_cgb(&mut self)
        requires
            old(self).wf(),
        ensures
            final(self).ppu == old(self).ppu,
            final(self).wf(),
            final(self).cpu == spec_power_up_cpu(old(self).cpu, GameboyMode::CGB),
            ({
                let w = spec_write_all(old(self).bus, spec_power_up_writes(GameboyMode::CGB));
                &&& final(self).bus == Bus {
                    cgb: crate::bus::cgb::CgbRegisters {
                        bg_palette_ram: final(self).bus.cgb.bg_palette_ram,
                        obj_palette_ram: final(self).bus.cgb.obj_palette_ram,
                        ..Gameboy::spec_cgb_palettes_reset(w).cgb
                    },
                    ..w
                }
                &&& forall|i: int| 0 <= i < 64 ==> final(self).bus.cgb.bg_palette_ram@[i] == 0xFF
                    && final(self).bus.cgb.obj_palette_ram@[i] == 0xFF
            }),
    {
        self.set_power_up_cpu(GameboyMode::CGB);
        let writes = Self::power_up_writes(GameboyMode::CGB);
        self.write_all(&writes);
        let mut i: usize = 0;
        while i < 64
            invariant
                i <= 64,
                self.wf(),
                forall|j: int| 0 <= j < i ==> self.bus.cgb.bg_palette_ram@[j] == 0xFF
                    && self.bus.cgb.obj_palette_ram@[j] == 0xFF,
                self.cpu == spec_power_up_cpu(old(self).cpu, GameboyMode::CGB),
                self.ppu == old(self).ppu,
                self.bus == (Bus {
                    cgb: crate::bus::cgb::CgbRegisters {
                        bg_palette_ram: self.bus.cgb.bg_palette_ram,
                        obj_palette_ram: self.bus.cgb.obj_palette_ram,
                        ..spec_write_all(old(self).bus, spec_power_up_writes(GameboyMode::CGB)).cgb
                    },
                    ..spec_write_all(old(self).bus, spec_power_up_writes(GameboyMode::CGB))
                }),
            decreases 64 - i,
        {
            self.bus.cgb.bg_palette_ram[i] = 0xFF;
            self.bus.cgb.obj_palette_ram[i] = 0xFF;
            i += 1;
        }
        self.bus.cgb.vram_bank = 0;
        self.bus.cgb.wram_bank = 1;
        self.bus.cgb.bg_palette_index = 0;
        self.bus.cgb.obj_palette_index = 0;
        self.bus.cgb.dma_active = false;
        self.bus.cgb.hdma_active = false;
    }

    /// The boot state for the bus's model.
    pub fn set_power_up_sequence(&mut self)
        requires
            old(self).wf(),
        ensures
            final(self).ppu == old(self).ppu,
            final(self).wf(),
            final(self).bus.gb_mode == old(self).bus.gb_mode,
            final(self).cpu == spec_power_up_cpu(old(self).cpu, old(self).bus.gb_mode),
            Gameboy::spec_powered_up_bus(old(self).bus, final(self).bus),
    {
        proof {
            lemma_write_all_keeps_mode(old(self).bus, spec_power_up_writes(GameboyMode::DMG));
            lemma_write_all_keeps_mode(old(self).bus, spec_power_up_writes(GameboyMode::CGB));
        }
        match self.bus.gb_mode() {
            GameboyMode::DMG => self.set_power_up_sequence_dmg(),
            GameboyMode::CGB => self.set_power_up_sequence_cgb(),
        }
    }

    pub fn reset(&mut self)
        requires
            old(self).wf(),
        ensures
            final(self).ppu == old(self).ppu,
            final(self).wf(),
            final(self).bus.gb_mode == old(self).bus.gb_mode,
            final(self).cpu == spec_power_up_cpu(old(self).cpu, old(self).bus.gb_mode),
            Gameboy::spec_powered_up_bus(old(self).bus, final(self).bus),
    {
        self.set_power_up_sequence();
    }

    /// Inserts a cartridge: the model comes from the header's CGB flag, the machine is put
    /// in its boot state for that model, and the controller is set up from the header.
    pub fn load_rom(&mut self, rom: &[u8])
        requires
            old(self).wf(),
            rom@.len() > 0x149,
            rom@.len() + 0x3FFF <= usize::MAX,
            is_supported_cartridge(rom@[0x147]),
        ensures
            final(self).ppu == old(self).ppu,
            final(self).wf(),
            final(self).bus.gb_mode == spec_mode_of(rom@[0x143]),
            final(self).cpu == spec_power_up_cpu(old(self).cpu, spec_mode_of(rom@[0x143])),
            final(self).bus.mbc.spec_fresh(rom@, rom@[0x147], spec_ram_size(rom@[0x149])),
            ({
                let moded = Bus { gb_mode: spec_mode_of(rom@[0x143]), ..old(self).bus };
                let w = spec_write_all(moded, spec_power_up_writes(moded.gb_mode));
                &&& moded.gb_mode == GameboyMode::DMG
                    ==> Gameboy::spec_powered_up_bus(moded, Bus { mbc: w.mbc, ..final(self).bus })
                &&& moded.gb_mode == GameboyMode::CGB ==> {
                    &&& final(self).bus.vram_bank_count == 2
                    &&& final(self).bus.wram_bank_count == 8
                    &&& final(self).bus.current_wram_bank == 1
                    &&& (forall|i: int| 0 <= i < 0x4000 ==> final(self).bus.vram@[i] == 0)
                    &&& (forall|i: int| 0 <= i < 0x8000 ==> final(self).bus.wram@[i] == 0)
                    &&& Gameboy::spec_powered_up_bus(moded, Bus {
                        mbc: w.mbc,
                        vram: w.vram,
                        wram: w.wram,
                        vram_bank_count: w.vram_bank_count,
                        wram_bank_count: w.wram_bank_count,
                        current_wram_bank: w.current_wram_bank,
                        ..final(self).bus
                    })
                }
            }),
    {
        self.bus.check__gb_mode(rom[0x143]);
        self.set_power_up_sequence();
        self.bus.load_rom(rom);
    }

    /// One T-cycle of the units behind the bus.
    fn cycle(&mut self)
        requires
            old(self).wf(),
        ensures
            final(self).wf(),
            final(self).cpu == old(self).cpu,
            spec_cycle((old(self).ppu@, old(self).bus), (final(self).ppu@, final(self).bus)),
    {
        self.ppu.tick(&mut self.bus);
        self.bus.mbc.tick();
        let bits = self.bus.timer.tick();
        self.bus.apu.tick();
        let if_reg = self.bus.read_byte(0xFF0F) | bits;
        self.bus.write_byte(0xFF0F, if_reg);
    }

    /// One processor step followed by as many T-cycles of the other units as it took.
    #[verifier::rlimit(80)]
    pub fn tick(&mut self)
        requires
            old(self).wf(),
            old(self).spec_can_step(),
        ensures
            final(self).wf(),
            ({
                let (c, b) = old(self).cpu.spec_tick(old(self).bus);
                final(self).cpu == c && spec_cycles((old(self).ppu@, b), (final(self).ppu@, final(self).bus), c.cycles as nat)
            }),
    {
        self.cpu.tick(&mut self.bus);
        let n = self.cpu.cycles;
        let ghost start = (self.ppu@, self.bus);
        let ghost c0 = self.cpu;
        let ghost mut trace: Seq<(PPUView, Bus)> = seq![(self.ppu@, self.bus)];
        let mut i: usize = 0;
        while i < n
            invariant
                i <= n,
                n == c0.cycles,
                self.wf(),
                self.cpu == c0,
                trace.len() == i + 1,
                trace[0] == start,
                trace[i as int] == (self.ppu@, self.bus),
                forall|j: int| 0 <= j < i ==> #[trigger] spec_cycle(trace[j], trace[j + 1]),
            decreases n - i,
        {
            self.cycle();
            proof {
                trace = trace.push((self.ppu@, self.bus));
            }
            i += 1;
        }
        assert(spec_cycles(start, (self.ppu@, self.bus), n as nat));
    }

    /// Whether the next processor step is defined.
    pub fn can_step(&self) -> (r: bool)
        requires
            self.wf(),
        ensures
            r == self.spec_can_step(),
    {
        if self.cpu.halt {
            return true;
        }
        let opcode = self.bus.read_byte(self.cpu.pc);
        opcode != 0xFC && opcode != 0xFD
    }

    /// Runs one frame's worth of T-cycles (CYCLES_PER_FRAME): steps the machine while fewer
    /// T-cycles than that, and fewer steps than that, have passed. Stops early, returning
    /// false, when the processor reaches an undefined opcode.
    pub fn run_frame(&mut self) -> (completed: bool)
        requires
            old(self).wf(),
        ensures
            final(self).wf(),
            exists|t: Seq<Gameboy>| {
                &&& spec_frame_run(t)
                &&& t[0] == *old(self)
                &&& t.last() == *final(self)
                &&& completed <==> (trace_cycles(t, t.len() - 1) >= CYCLES_PER_FRAME || t.len() - 1 >= CYCLES_PER_FRAME)
                &&& !completed ==> !final(self).spec_can_step()
            },
    {
        let mut cycles_this_frame: usize = 0;
        let mut steps: usize = 0;
        let ghost mut trace: Seq<Gameboy> = seq![*self];
        while cycles_this_frame < CYCLES_PER_FRAME && steps < CYCLES_PER_FRAME
            invariant_except_break
                self.wf(),
                steps <= CYCLES_PER_FRAME,
                trace.len() == steps + 1,
                trace[0] == *old(self),
                trace.last() == *self,
                spec_frame_run(trace),
                trace_cycles(trace, steps as int) < CYCLES_PER_FRAME ==> cycles_this_frame == trace_cycles(trace, steps as int),
                trace_cycles(trace, steps as int) >= CYCLES_PER_FRAME ==> cycles_this_frame >= CYCLES_PER_FRAME,
            ensures
                self.wf(),
                spec_frame_run(trace),
                trace[0] == *old(self),
                trace.last() == *self,
                trace.len() == steps + 1,
                (trace_cycles(trace, steps as int) >= CYCLES_PER_FRAME || steps >= CYCLES_PER_FRAME),
            decreases CYCLES_PER_FRAME - steps,
        {
            if !self.can_step() {
                proof {
                    assert(trace_cycles(trace, steps as int) < CYCLES_PER_FRAME);
                }
                return false;
            }
            let ghost before = *self;
            self.tick();
            proof {
                assert(spec_machine_step(before, *self)) by {
                    reveal(spec_machine_step);
                }
                lemma_frame_run_push(trace, *self);
                trace = trace.push(*self);
            }
            cycles_this_frame = cycles_this_frame.saturating_add(self.cpu.cycles);
            steps += 1;
        }
        true
    }
}

/// One machine step: the processor steps, then the other units run as many T-cycles as it
/// took.
#[verifier::opaque]
pub open spec fn spec_machine_step(a: Gameboy, b: Gameboy) -> bool {
    &&& a.spec_can_step()
    &&& {
        let (c, bus) = a.cpu.spec_tick(a.bus);
        b.cpu == c && spec_cycles((a.ppu@, bus), (b.ppu@, b.bus), c.cycles as nat)
    }
}

/// The T-cycles of the first `n` steps of a run of machine states.
pub open spec fn trace_cycles(t: Seq<Gameboy>, n: int) -> int
    decreases n,
{
    if n <= 0 { 0 } else { trace_cycles(t, n - 1) + t[n].cpu.cycles }
}

/// A run of a frame: each state is the step of the one before, and each step started while
/// fewer than CYCLES_PER_FRAME T-cycles and steps had passed.
pub open spec fn spec_frame_run(t: Seq<Gameboy>) -> bool {
    &&& t.len() >= 1
    &&& forall|i: int| 0 <= i < t.len() - 1 ==> #[trigger] spec_machine_step(t[i], t[i + 1])
    &&& forall|i: int| 0 <= i < t.len() - 1 ==> #[trigger] trace_cycles(t, i) < CYCLES_PER_FRAME && i < CYCLES_PER_FRAME
}

proof fn lemma_trace_cycles_push(t: Seq<Gameboy>, g: Gameboy, n: int)
    requires
        0 <= n < t.len(),
    ensures
        trace_cycles(t.push(g), n) == trace_cycles(t, n),
        n == t.len() - 1 ==> trace_cycles(t.push(g), n + 1) == trace_cycles(t, n) + g.cpu.cycles,
    decreases n,
{
    let u = t.push(g);
    if n > 0 {
        lemma_trace_cycles_push(t, g, n - 1);
        assert(u[n] == t[n]);
        assert(trace_cycles(u, n) == trace_cycles(u, n - 1) + u[n].cpu.cycles);
    }
    assert(trace_cycles(u, n) == trace_cycles(t, n));
    if n == t.len() - 1 {
        assert(u[n + 1] == g);
        assert(trace_cycles(u, n + 1) == trace_cycles(u, n) + u[n + 1].cpu.cycles);
    }
}

proof fn lemma_frame_run_push(t: Seq<Gameboy>, g: Gameboy)
    requires
        spec_frame_run(t),
        spec_machine_step(t.last(), g),
        trace_cycles(t, t.len() - 1) < CYCLES_PER_FRAME,
        t.len() - 1 < CYCLES_PER_FRAME,
    ensures
        spec_frame_run(t.push(g)),
        trace_cycles(t.push(g), t.len() as int) == trace_cycles(t, t.len() - 1) + g.cpu.cycles,
{
    let u = t.push(g);
    lemma_trace_cycles_push(t, g, t.len() - 1);
    assert forall|i: int| 0 <= i < u.len() - 1 implies #[trigger] spec_machine_step(u[i], u[i + 1]) by {
        if i < t.len() - 1 {
            assert(u[i] == t[i] && u[i + 1] == t[i + 1]);
        } else {
            assert(u[i] == t.last());
        }
    }
    assert forall|i: int| 0 <= i < u.len() - 1 implies #[trigger] trace_cycles(u, i) < CYCLES_PER_FRAME
        && i < CYCLES_PER_FRAME by {
        lemma_trace_cycles_push(t, g, i);
    }
}

/// Restoring a machine from its own save gives the machine back: processor, timer and
/// memory map; the cartridge controller holds the state that was saved.
pub proof fn lemma_gameboy_save_load_roundtrip(g: Gameboy, st: GameboyState, r: Gameboy)
    requires
        g.wf(),
        st.cpu_state == g.cpu.spec_save_state(),
        st.timer_state == (TimerState {
            div_counter: g.bus.timer.div_counter,
            tima_counter: g.bus.timer.tima_counter,
        }),
        g.bus.spec_saved_as(st.bus_data),
        r.cpu == CPU::spec_load_state(st.cpu_state),
        Bus::spec_loaded(
            g.bus,
            st.bus_data,
            Bus {
                timer: crate::timer::Timer {
                    div_counter: g.bus.timer.div_counter,
                    tima_counter: g.bus.timer.tima_counter,
                    ..r.bus.timer
                },
                ..r.bus
            },
        ),
        r.bus.timer.div_counter == st.timer_state.div_counter,
        r.bus.timer.tima_counter == st.timer_state.tima_counter,
    ensures
        r.cpu == g.cpu,
        r.bus == (Bus { mbc: r.bus.mbc, ..g.bus }),
        r.bus.mbc.spec_saved_as(st.bus_data.mbc),
{
    crate::cpu::lemma_cpu_save_load_roundtrip(g.cpu);
    crate::bus::lemma_bus_save_load_roundtrip(
        g.bus,
        st.bus_data,
        Bus {
            timer: crate::timer::Timer {
                div_counter: g.bus.timer.div_counter,
                tima_counter: g.bus.timer.tima_counter,
                ..r.bus.timer
            },
            ..r.bus
        },
    );
}

} // verus!
