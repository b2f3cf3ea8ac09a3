use sabiboy::bus::{GameboyMode, MemoryInterface};
use sabiboy::gameboy::{Gameboy, Interrupt, CYCLES_PER_FRAME};

const PALETTE: [u32; 4] = [0xE0F8D0, 0x88C070, 0x346856, 0x081820];

fn rom_running(program: &[u8], cgb_flag: u8) -> Vec<u8> {
    let mut rom = vec![0u8; 0x8000];
    rom[0x0100..0x0100 + program.len()].copy_from_slice(program);
    rom[0x0143] = cgb_flag;
    rom[0x0147] = 0x00;
    rom[0x0148] = 0x00;
    rom[0x0149] = 0x00;
    rom
}

#[test]
fn interrupt_masks_follow_if_bits() {
    assert_eq!(Interrupt::VBlank.mask(), 0x01);
    assert_eq!(Interrupt::LCDStat.mask(), 0x02);
    assert_eq!(Interrupt::Timer.mask(), 0x04);
    assert_eq!(Interrupt::Serial.mask(), 0x08);
    assert_eq!(Interrupt::Joypad.mask(), 0x10);
}

#[test]
fn dmg_power_up_sets_boot_registers() {
    let mut gb = Gameboy::new(PALETTE);
    gb.set_power_up_sequence_dmg();
    assert_eq!(gb.cpu.a, 0x01);
    assert_eq!(gb.cpu.f.bits(), 0xB0);
    assert_eq!((gb.cpu.b, gb.cpu.c), (0x00, 0x13));
    assert_eq!((gb.cpu.d, gb.cpu.e), (0x00, 0xD8));
    assert_eq!((gb.cpu.h, gb.cpu.l), (0x01, 0x4D));
    assert_eq!(gb.cpu.sp, 0xFFFE);
    assert_eq!(gb.cpu.pc, 0x0100);
    assert_eq!(gb.bus.read_byte(0xFF40), 0x91);
    assert_eq!(gb.bus.read_byte(0xFF47), 0xFC);
    assert_eq!(gb.bus.read_byte(0xFF26), 0xF1);
    assert_eq!(gb.bus.read_byte(0xFF07), 0xF8);
    assert_eq!(gb.bus.read_byte(0xFFFF), 0x00);
}

#[test]
fn cgb_power_up_sets_colour_registers() {
    let mut gb = Gameboy::new(PALETTE);
    gb.bus.check__gb_mode(0xC0);
    gb.set_power_up_sequence();
    assert_eq!(gb.cpu.a, 0x11);
    assert_eq!(gb.cpu.f.bits(), 0x40);
    assert_eq!((gb.cpu.d, gb.cpu.e), (0xFF, 0x56));
    assert_eq!(gb.cpu.l, 0x0D);
    assert!(gb.bus.cgb.bg_palette_ram.iter().all(|&b| b == 0xFF));
    assert!(gb.bus.cgb.obj_palette_ram.iter().all(|&b| b == 0xFF));
    assert_eq!(gb.bus.cgb.wram_bank, 1);
}

#[test]
fn load_rom_picks_the_model_from_the_header() {
    let mut gb = Gameboy::new(PALETTE);
    gb.load_rom(&rom_running(&[0x18, 0xFE], 0x80));
    assert_eq!(gb.bus.gb_mode, GameboyMode::CGB);
    assert_eq!(gb.cpu.a, 0x11);
    let mut gb = Gameboy::new(PALETTE);
    gb.load_rom(&rom_running(&[0x18, 0xFE], 0x00));
    assert_eq!(gb.bus.gb_mode, GameboyMode::DMG);
    assert_eq!(gb.cpu.a, 0x01);
    assert_eq!(gb.bus.read_byte(0x0100), 0x18);
}

#[test]
fn tick_runs_one_instruction_and_its_cycles() {
    let mut gb = Gameboy::new(PALETTE);
    // NOP ; LD A,0x42 ; JR -2
    gb.load_rom(&rom_running(&[0x00, 0x3E, 0x42, 0x18, 0xFE], 0x00));
    assert!(gb.can_step());
    gb.tick();
    assert_eq!(gb.cpu.pc, 0x0101);
    assert_eq!(gb.cpu.cycles, 4);
    gb.tick();
    assert_eq!(gb.cpu.a, 0x42);
    assert_eq!(gb.cpu.pc, 0x0103);
}

#[test]
fn timer_interrupt_reaches_if_through_the_machine() {
    let mut gb = Gameboy::new(PALETTE);
    gb.load_rom(&rom_running(&[0x18, 0xFE], 0x00));
    gb.bus.write_byte(0xFF0F, 0x00);
    gb.bus.write_byte(0xFF07, 0x05);
    gb.bus.write_byte(0xFF05, 0xFF);
    for _ in 0..2 {
        gb.tick();
    }
    assert_eq!(gb.bus.read_byte(0xFF0F) & 0x04, 0x04);
}

#[test]
fn run_frame_completes_on_a_loop() {
    let mut gb = Gameboy::new(PALETTE);
    gb.load_rom(&rom_running(&[0x18, 0xFE], 0x00));
    assert!(gb.run_frame());
    assert_eq!(gb.cpu.pc, 0x0100);
    assert!(CYCLES_PER_FRAME == 70224);
}

#[test]
fn run_frame_stops_at_an_undefined_opcode() {
    let mut gb = Gameboy::new(PALETTE);
    gb.load_rom(&rom_running(&[0x00, 0xFC], 0x00));
    assert!(!gb.run_frame());
    assert_eq!(gb.cpu.pc, 0x0101);
    assert!(!gb.can_step());
}

#[test]
fn reset_returns_to_the_boot_state() {
    let mut gb = Gameboy::new(PALETTE);
    gb.load_rom(&rom_running(&[0x3E, 0x42, 0x18, 0xFE], 0x00));
    gb.tick();
    assert_eq!(gb.cpu.a, 0x42);
    gb.reset();
    assert_eq!(gb.cpu.a, 0x01);
    assert_eq!(gb.cpu.pc, 0x0100);
}

#[test]
fn machine_save_then_load_restores_it() {
    let mut gb = Gameboy::new(PALETTE);
    gb.load_rom(&rom_running(&[0x3C, 0x18, 0xFD], 0x00));
    for _ in 0..10 {
        gb.tick();
    }
    gb.bus.write_byte(0xC000, 0x99);
    let st = gb.save_state();
    let a = gb.cpu.a;
    let pc = gb.cpu.pc;
    for _ in 0..10 {
        gb.tick();
    }
    gb.bus.write_byte(0xC000, 0x00);
    gb.load_state(st);
    assert_eq!(gb.cpu.a, a);
    assert_eq!(gb.cpu.pc, pc);
    assert_eq!(gb.bus.read_byte(0xC000), 0x99);
}

#[test]
fn saves_are_checked_before_loading() {
    let mut gb = Gameboy::new(PALETTE);
    gb.load_rom(&rom_running(&[0x18, 0xFE], 0x00));
    let st = gb.save_state();
    assert!(Gameboy::is_loadable(&st));
    let mut bad = gb.save_state();
    bad.timer_state.div_counter = usize::MAX;
    assert!(!Gameboy::is_loadable(&bad));
    let mut bad_bank = gb.save_state();
    bad_bank.bus_data.mbc = sabiboy::cartridge::MbcTypeState::Mbc1(sabiboy::cartridge::mbc1::Mbc1State {
        ram: vec![0; 0x2000],
        current_rom_bank: 1,
        current_ram_bank: 4,
        mode: false,
        ram_enabled: false,
    });
    assert!(!Gameboy::is_loadable(&bad_bank));
    let mut long_ram = gb.save_state();
    long_ram.bus_data.mbc = sabiboy::cartridge::MbcTypeState::Mbc0(sabiboy::cartridge::mbc0::Mbc0State {
        ram: vec![0; 0x20001],
    });
    assert!(Gameboy::is_loadable(&long_ram));
}

#[test]
fn load_rom_writes_the_boot_registers_of_the_model() {
    let mut gb = Gameboy::new(PALETTE);
    gb.load_rom(&rom_running(&[0x18, 0xFE], 0x00));
    assert_eq!(gb.bus.read_byte(0xFF40), 0x91);
    assert_eq!(gb.bus.read_byte(0xFF24), 0x77);
    assert_eq!(gb.bus.read_byte(0xFF07), 0xF8);

    let mut gb = Gameboy::new(PALETTE);
    gb.load_rom(&rom_running(&[0x18, 0xFE], 0x80));
    assert_eq!(gb.bus.gb_mode, GameboyMode::CGB);
    assert_eq!(gb.bus.read_byte(0xFF40), 0x91);
    assert!(gb.bus.cgb.bg_palette_ram.iter().all(|&b| b == 0xFF));
    assert!(gb.bus.cgb.obj_palette_ram.iter().all(|&b| b == 0xFF));
    assert_eq!(gb.bus.cgb.wram_bank, 1);
    assert_eq!(gb.bus.vram_bank_count, 2);
    assert_eq!(gb.bus.wram_bank_count, 8);
}

#[test]
fn colour_reset_restores_palettes_and_banks() {
    let mut gb = Gameboy::new(PALETTE);
    gb.load_rom(&rom_running(&[0x18, 0xFE], 0x80));
    gb.bus.cgb.bg_palette_ram[3] = 0x12;
    gb.bus.write_byte(0xFF70, 0x05);
    gb.bus.write_byte(0xFF40, 0x00);
    gb.reset();
    assert_eq!(gb.bus.cgb.bg_palette_ram[3], 0xFF);
    assert_eq!(gb.bus.cgb.wram_bank, 1);
    assert_eq!(gb.bus.read_byte(0xFF40), 0x91);
    assert_eq!(gb.cpu.a, 0x11);
}

#[test]
fn machine_save_restores_timer_and_sound_registers() {
    let mut gb = Gameboy::new(PALETTE);
    gb.load_rom(&rom_running(&[0x18, 0xFE], 0x00));
    let st = gb.save_state();
    let tac = gb.bus.read_byte(0xFF07);
    gb.bus.write_byte(0xFF07, 0x05);
    gb.bus.write_byte(0xFF24, 0x11);
    gb.load_state(st);
    assert_eq!(gb.bus.read_byte(0xFF07), tac);
    assert_eq!(gb.bus.read_byte(0xFF24), 0x77);
}
