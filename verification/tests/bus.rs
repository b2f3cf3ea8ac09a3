use sabiboy::bus::{make_word, split_word, Bus, GameboyMode, MemoryInterface};
use sabiboy::cartridge::MbcType;

fn rom_with_banks(kind: u8, banks: usize, ram_code: u8) -> Vec<u8> {
    let mut rom = vec![0u8; banks * 0x4000];
    for b in 0..banks {
        rom[b * 0x4000] = b as u8;
        rom[b * 0x4000 + 1] = 0xB0 | b as u8;
    }
    rom[0x0100] = 0x00;
    rom[0x0134] = b'T';
    rom[0x0147] = kind;
    rom[0x0148] = 0x01;
    rom[0x0149] = ram_code;
    rom
}

#[test]
fn words_split_and_join() {
    assert_eq!(make_word(0x34, 0x12), 0x1234);
    assert_eq!(split_word(0xABCD), (0xCD, 0xAB));
}

#[test]
fn work_ram_and_echo_mirror() {
    let mut bus = Bus::new();
    bus.write_byte(0xC010, 0x5A);
    assert_eq!(bus.read_byte(0xC010), 0x5A);
    assert_eq!(bus.read_byte(0xE010), 0x5A);
    bus.write_byte(0xE020, 0x77);
    assert_eq!(bus.read_byte(0xC020), 0x77);
}

#[test]
fn high_ram_and_interrupt_enable() {
    let mut bus = Bus::new();
    bus.write_byte(0xFF80, 0x11);
    bus.write_byte(0xFFFE, 0x22);
    bus.write_byte(0xFFFF, 0x1F);
    assert_eq!(bus.read_byte(0xFF80), 0x11);
    assert_eq!(bus.read_byte(0xFFFE), 0x22);
    assert_eq!(bus.read_byte(0xFFFF), 0x1F);
    assert_eq!(bus.ie_register, 0x1F);
}

#[test]
fn words_are_little_endian_on_the_bus() {
    let mut bus = Bus::new();
    bus.write_word(0xC100, 0xBEEF);
    assert_eq!(bus.read_byte(0xC100), 0xEF);
    assert_eq!(bus.read_byte(0xC101), 0xBE);
    assert_eq!(bus.read_word(0xC100), 0xBEEF);
}

#[test]
fn timer_registers_are_routed_to_the_timer() {
    let mut bus = Bus::new();
    bus.write_byte(0xFF06, 0x42);
    bus.write_byte(0xFF07, 0x05);
    assert_eq!(bus.timer.rgs.tma, 0x42);
    assert_eq!(bus.read_byte(0xFF06), 0x42);
    assert_eq!(bus.read_byte(0xFF07), 0x05);
}

#[test]
fn sound_registers_and_wave_ram_are_routed_to_the_apu() {
    let mut bus = Bus::new();
    bus.write_byte(0xFF24, 0x77);
    assert_eq!(bus.apu.rgs.nr50, 0x77);
    assert_eq!(bus.read_byte(0xFF24), 0x77);
    bus.write_byte(0xFF35, 0x9C);
    assert_eq!(bus.apu.read_wave_ram(5), 0x9C);
    assert_eq!(bus.read_byte(0xFF35), 0x9C);
}

#[test]
fn joypad_register_reads_pressed_keys() {
    let mut bus = Bus::new();
    bus.joypad.update_keys(0xEF); // A pressed
    bus.write_byte(0xFF00, 0x10); // select action keys
    assert_eq!(bus.read_byte(0xFF00), 0xCE);
}

#[test]
fn oam_dma_copies_a_page() {
    let mut bus = Bus::new();
    for i in 0..0xA0u16 {
        bus.write_byte(0xC000 + i, i as u8 ^ 0x55);
    }
    bus.write_byte(0xFF46, 0xC0);
    for i in 0..0xA0u16 {
        assert_eq!(bus.read_byte(0xFE00 + i), i as u8 ^ 0x55);
    }
}

#[test]
fn empty_slot_reads_ff() {
    let bus = Bus::new();
    assert!(matches!(bus.mbc, MbcType::Empty));
    assert_eq!(bus.read_byte(0x0000), 0xFF);
    assert_eq!(bus.read_byte(0x4000), 0xFF);
    assert_eq!(bus.read_byte(0xA000), 0xFF);
}

#[test]
fn mbc1_switches_rom_banks() {
    let mut bus = Bus::new();
    let rom = rom_with_banks(0x01, 4, 0x03);
    bus.load_rom(&rom);
    assert_eq!(bus.read_byte(0x0000), 0);
    assert_eq!(bus.read_byte(0x4000), 1);
    bus.write_byte(0x2000, 3);
    assert_eq!(bus.read_byte(0x4000), 3);
    assert_eq!(bus.read_byte(0x4001), 0xB3);
    bus.write_byte(0x2000, 0);
    assert_eq!(bus.read_byte(0x4000), 1);
}

#[test]
fn mbc1_ram_needs_enabling() {
    let mut bus = Bus::new();
    let rom = rom_with_banks(0x03, 4, 0x03);
    bus.load_rom(&rom);
    bus.write_byte(0xA000, 0x12);
    assert_eq!(bus.read_byte(0xA000), 0xFF);
    bus.write_byte(0x0000, 0x0A);
    bus.write_byte(0xA000, 0x12);
    assert_eq!(bus.read_byte(0xA000), 0x12);
    bus.write_byte(0x0000, 0x00);
    assert_eq!(bus.read_byte(0xA000), 0xFF);
}

#[test]
fn cartridge_header_is_read_from_0100() {
    let mut bus = Bus::new();
    let rom = rom_with_banks(0x00, 2, 0x00);
    bus.load_rom(&rom);
    let header = bus.read_cartridge_header();
    assert_eq!(header[0x34], b'T');
    assert_eq!(header[0x47], 0x00);
}

#[test]
fn colour_flag_selects_the_model() {
    let mut bus = Bus::new();
    bus.check__gb_mode(0x80);
    assert_eq!(bus.gb_mode, GameboyMode::CGB);
    bus.check__gb_mode(0xC0);
    assert_eq!(bus.gb_mode, GameboyMode::CGB);
    bus.check__gb_mode(0x00);
    assert_eq!(bus.gb_mode, GameboyMode::DMG);
}

#[test]
fn colour_mode_cartridge_gets_more_ram_banks() {
    let mut bus = Bus::new();
    bus.check__gb_mode(0xC0);
    let rom = rom_with_banks(0x19, 4, 0x00);
    bus.load_rom(&rom);
    assert_eq!(bus.vram_bank_count, 2);
    assert_eq!(bus.wram_bank_count, 8);
    assert!(matches!(bus.mbc, MbcType::Mbc5(_)));
}

#[test]
fn bus_save_then_load_restores_memory() {
    let mut bus = Bus::new();
    let rom = rom_with_banks(0x01, 4, 0x03);
    bus.load_rom(&rom);
    bus.write_byte(0xC000, 0x42);
    bus.write_byte(0xFF80, 0x24);
    bus.write_byte(0x2000, 2);
    let st = bus.save_state();
    bus.write_byte(0xC000, 0x00);
    bus.write_byte(0xFF80, 0x00);
    bus.write_byte(0x2000, 3);
    bus.load_state(st);
    assert_eq!(bus.read_byte(0xC000), 0x42);
    assert_eq!(bus.read_byte(0xFF80), 0x24);
    assert_eq!(bus.read_byte(0x4000), 2);
}

#[test]
fn cartridges_that_can_be_inserted() {
    assert!(sabiboy::bus::can_load_rom(&rom_with_banks(0x01, 2, 0x00)));
    assert!(sabiboy::bus::can_load_rom(&rom_with_banks(0x1B, 2, 0x00)));
    assert!(!sabiboy::bus::can_load_rom(&rom_with_banks(0x22, 2, 0x00)));
    assert!(!sabiboy::bus::can_load_rom(&[0u8; 0x100]));
}

#[test]
fn push_then_pop_through_cartridge_ram() {
    let mut bus = Bus::new();
    let mut rom = rom_with_banks(0x03, 4, 0x02);
    // LD SP,0xA010 ; LD BC,0x1234 ; PUSH BC ; POP DE
    rom[0x0100..0x0108].copy_from_slice(&[0x31, 0x10, 0xA0, 0x01, 0x34, 0x12, 0xC5, 0xD1]);
    bus.load_rom(&rom);
    bus.write_byte(0x0000, 0x0A);
    let mut cpu = sabiboy::cpu::CPU::new();
    for _ in 0..4 {
        cpu.tick(&mut bus);
    }
    assert_eq!((cpu.d, cpu.e), (0x12, 0x34));
    assert_eq!(bus.read_byte(0xA00F), 0x12);
    assert_eq!(bus.read_byte(0xA00E), 0x34);
    assert_eq!(cpu.sp, 0xA010);
}

#[test]
fn bus_save_restores_timer_and_sound_registers() {
    let mut bus = Bus::new();
    let st = bus.save_state();
    bus.write_byte(0xFF05, 0x12);
    bus.write_byte(0xFF06, 0x34);
    bus.write_byte(0xFF12, 0xF3);
    bus.write_byte(0xFF30, 0xAB);
    bus.write_byte(0xC000, 0x55);
    bus.load_state(st);
    assert_eq!(bus.read_byte(0xFF05), 0x00);
    assert_eq!(bus.read_byte(0xFF06), 0x00);
    assert_eq!(bus.read_byte(0xFF12), 0x00);
    assert_eq!(bus.read_byte(0xFF30), 0x00);
    assert_eq!(bus.read_byte(0xC000), 0x00);
}
