use sabiboy::cartridge::mbc0::Mbc0;
use sabiboy::cartridge::mbc1::{get_bit_mask, Mbc1};
use sabiboy::cartridge::mbc3::Mbc3;
use sabiboy::cartridge::mbc5::Mbc5;
use sabiboy::cartridge::rtc::Rtc;
use sabiboy::cartridge::MbcType;

fn banked_rom(banks: usize) -> Vec<u8> {
    let mut rom = vec![0u8; banks * 0x4000];
    for b in 0..banks {
        rom[b * 0x4000] = b as u8;
    }
    rom
}

#[test]
fn bit_mask_follows_bank_count() {
    assert_eq!(get_bit_mask(2), 0x01);
    assert_eq!(get_bit_mask(8), 0x07);
    assert_eq!(get_bit_mask(16), 0x0F);
    assert_eq!(get_bit_mask(32), 0x1F);
    assert_eq!(get_bit_mask(128), 0x1F);
}

#[test]
fn mbc0_maps_rom_directly() {
    let rom = banked_rom(2);
    let m = Mbc0::new(&rom, 0);
    assert_eq!(m.read_byte(0x0000), 0);
    assert_eq!(m.read_byte(0x4000), 1);
}

#[test]
fn mbc1_bank_register_is_masked() {
    let rom = banked_rom(4);
    let mut m = Mbc1::new(&rom, 0);
    assert_eq!(m.get_number_of_rom_banks(), 4);
    m.write_byte(0x2000, 0x07); // masked to 3
    assert_eq!(m.current_rom_bank, 3);
    assert_eq!(m.read_byte(0x4000), 3);
    m.write_byte(0x2000, 0x04); // masked to 0, selects 1
    assert_eq!(m.current_rom_bank, 1);
}

#[test]
fn mbc1_advanced_mode_maps_upper_bits_to_bank_zero_area() {
    let rom = banked_rom(64);
    let mut m = Mbc1::new(&rom, 0);
    m.write_byte(0x4000, 0x01);
    m.write_byte(0x6000, 0x01);
    assert_eq!(m.get_zero_bank_number(), 0x20);
    assert_eq!(m.read_byte(0x0000), 0x20);
    m.write_byte(0x2000, 0x02);
    assert_eq!(m.get_high_bank_number(), 0x22);
    assert_eq!(m.read_byte(0x4000), 0x22);
}

#[test]
fn mbc3_rom_bank_zero_selects_one() {
    let rom = banked_rom(8);
    let mut m = Mbc3::new(&rom, 0x8000, false);
    m.write_byte(0x2000, 5);
    assert_eq!(m.read_byte(0x4000), 5);
    m.write_byte(0x2000, 0);
    assert_eq!(m.read_byte(0x4000), 1);
}

#[test]
fn mbc3_ram_banks_are_separate() {
    let rom = banked_rom(4);
    let mut m = Mbc3::new(&rom, 0x8000, false);
    m.write_byte(0x0000, 0x0A);
    m.write_byte(0x4000, 0x00);
    m.write_byte(0xA000, 0x11);
    m.write_byte(0x4000, 0x01);
    m.write_byte(0xA000, 0x22);
    assert_eq!(m.read_byte(0xA000), 0x22);
    m.write_byte(0x4000, 0x00);
    assert_eq!(m.read_byte(0xA000), 0x11);
}

#[test]
fn mbc3_clock_latch_and_read() {
    let rom = banked_rom(4);
    let mut m = Mbc3::new(&rom, 0x2000, true);
    m.write_byte(0x0000, 0x0A);
    m.write_byte(0x4000, 0x08);
    assert_eq!(m.read_byte(0xA000), 0xFF); // not latched yet
    m.write_byte(0x6000, 0x00);
    m.write_byte(0x6000, 0x01);
    assert_eq!(m.read_byte(0xA000), 0xC0); // seconds 0, unused bits set
    m.write_byte(0xA000, 0x25);
    assert_eq!(m.read_byte(0xA000), 0xE5);
}

#[test]
fn rtc_counts_seconds_and_rolls_over() {
    let mut r = Rtc::new();
    r.s_reg = 59;
    r.m_reg = 59;
    r.h_reg = 23;
    r.cycles = sabiboy::cartridge::rtc::RTC_CYCLES_PER_SECOND - 1;
    r.tick();
    assert_eq!((r.s_reg, r.m_reg, r.h_reg), (0, 0, 0));
    assert_eq!(r.dl_reg, 1);
    r.latch();
    assert_eq!(r.read(0x0B), 1);
    assert_eq!(r.read(0x0A), 0xE0);
}

#[test]
fn rtc_day_counter_overflow_sets_carry() {
    let mut r = Rtc::new();
    r.h_reg = 23;
    r.m_reg = 59;
    r.s_reg = 59;
    r.dl_reg = 0xFF;
    r.dh_reg = 0x01;
    r.cycles = sabiboy::cartridge::rtc::RTC_CYCLES_PER_SECOND - 1;
    r.tick();
    assert_eq!(r.dl_reg, 1);
    assert_eq!(r.dh_reg & 0x01, 0);
}

#[test]
fn mbc5_nine_bit_rom_bank() {
    let rom = banked_rom(4);
    let mut m = Mbc5::new(&rom, 0x2000);
    m.write_byte(0x2000, 0x03);
    assert_eq!(m.current_rom_bank, 3);
    assert_eq!(m.read_byte(0x4000), 3);
    m.write_byte(0x3000, 0x01);
    assert_eq!(m.current_rom_bank, 0x103);
    m.write_byte(0x2000, 0x00);
    assert_eq!(m.current_rom_bank, 0x100);
}

#[test]
fn mbc5_ram_writes_stay_inside_the_ram() {
    let rom = banked_rom(2);
    let mut m = Mbc5::new(&rom, 0x2000);
    m.write_byte(0x0000, 0x0A);
    m.write_byte(0xA010, 0x3C);
    assert_eq!(m.read_byte(0xA010), 0x3C);
    m.write_byte(0x0000, 0x00);
    assert_eq!(m.read_byte(0xA010), 0xFF);
}

#[test]
fn controller_save_then_load_restores_banks() {
    let rom = banked_rom(4);
    let mut m = MbcType::Mbc1(Mbc1::new(&rom, 0x2000));
    m.write_byte(0x2000, 2);
    m.write_byte(0x0000, 0x0A);
    m.write_byte(0xA000, 0x77);
    let st = m.save_state();
    m.write_byte(0x2000, 3);
    m.write_byte(0xA000, 0x00);
    m.load_state(st);
    assert_eq!(m.read_byte(0x4000), 2);
    assert_eq!(m.read_byte(0xA000), 0x77);
}

#[test]
fn rtc_seconds_advance_after_one_second_of_cycles() {
    assert_eq!(sabiboy::cartridge::rtc::RTC_CYCLES_PER_SECOND, 4_194_304);
    let mut r = Rtc::new();
    r.s_reg = 10;
    for _ in 0..4_194_303u32 {
        r.tick();
    }
    assert_eq!(r.s_reg, 10);
    r.tick();
    assert_eq!(r.s_reg, 11);
    assert_eq!((r.m_reg, r.h_reg, r.dl_reg), (0, 0, 0));
}

#[test]
fn mbc1_ram_works_on_a_rom_of_odd_size() {
    let rom = vec![0u8; 0x8001];
    let mut m = Mbc1::new(&rom, 0x2000);
    assert_eq!(m.read_byte(0xA123), 0xFF);
    m.write_byte(0x0000, 0x0A);
    m.write_byte(0xA123, 0x5C);
    assert_eq!(m.read_byte(0xA123), 0x5C);
    m.write_byte(0x0000, 0x00);
    assert_eq!(m.read_byte(0xA123), 0xFF);
}

#[test]
fn mbc3_reads_a_partial_second_bank() {
    let mut rom = vec![0u8; 0x6000];
    rom[0x4000] = 0x77;
    let m = Mbc3::new(&rom, 0, false);
    assert_eq!(m.read_byte(0x4000), 0x77);
    let cart = MbcType::Mbc3(m);
    assert_eq!(cart.read_byte(0x4000), 0x77);
    assert_eq!(cart.read_byte(0x6000), 0xFF);
}

#[test]
fn save_loaded_into_a_fresh_controller_gives_the_same_reads() {
    let rom = banked_rom(8);
    let mut m = MbcType::Mbc3(Mbc3::new(&rom, 0x8000, false));
    m.write_byte(0x0000, 0x0A);
    m.write_byte(0x2000, 5);
    m.write_byte(0x4000, 2);
    m.write_byte(0xA010, 0x3C);
    let st = m.save_state();
    let mut fresh = MbcType::Mbc3(Mbc3::new(&rom, 0x8000, false));
    assert_ne!(fresh.read_byte(0x4000), m.read_byte(0x4000));
    fresh.load_state(st);
    for addr in [0x0000u16, 0x4000, 0x7FFF, 0xA000, 0xA010, 0xBFFF] {
        assert_eq!(fresh.read_byte(addr), m.read_byte(addr));
    }
    assert_eq!(fresh.read_byte(0xA010), 0x3C);
}

#[test]
fn ram_larger_than_any_bank_layout_saves_in_full() {
    let rom = banked_rom(4);
    let mut m = Mbc5::new(&rom, 0x40000);
    m.write_byte(0x0000, 0x0A);
    m.write_byte(0x4000, 0x0F);
    m.write_byte(0xBFFF, 0x99);
    assert_eq!(m.read_byte(0xBFFF), 0x99);
    let st = m.save_state();
    assert_eq!(st.ram.len(), 0x40000);
    assert_eq!(st.ram[0x1FFFF], 0x99);
    assert_eq!(st.ram[0x3FFFF], 0);
    let mut other = Mbc5::new(&rom, 0x2000);
    other.load_state(st);
    assert_eq!(other.ram_size, 0x40000);
    assert_eq!(other.read_byte(0xBFFF), 0x99);
}
