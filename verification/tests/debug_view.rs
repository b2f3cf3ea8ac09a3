use sabiboy::bus::io_address::IoRegister;
use sabiboy::bus::MemoryInterface;
use sabiboy::debug_view::{DebugWindow, TITLE_COLOR, VALUE_COLOR, WINDOW_HEIGHT, WINDOW_WIDTH};
use sabiboy::gameboy::Gameboy;
use sabiboy::ppu::PPUMode;

fn machine() -> Gameboy {
    let mut rom = vec![0u8; 0x8000];
    rom[0x0134..0x0138].copy_from_slice(b"TEST");
    rom[0x0147] = 0x00;
    let mut gb = Gameboy::new([0; 4]);
    gb.load_rom(&rom);
    gb
}

fn at(buffer: &[u32], x: usize, y: usize) -> u32 {
    buffer[y * WINDOW_WIDTH + x]
}

#[test]
fn new_debug_window_is_blank() {
    let d = DebugWindow::new();
    assert_eq!(d.cpu_registers, [0; 8]);
    assert!(d.io_registers.is_empty());
    assert!(!d.cartridge_header_read);
    assert_eq!(d.mode, PPUMode::OAM_SCAN);
}

#[test]
fn update_takes_a_snapshot() {
    let mut gb = machine();
    gb.bus.write_byte(0x8000, 0x5A);
    gb.bus.write_byte(0xFE02, 0x07);
    let mut d = DebugWindow::new();
    d.update(&gb.cpu, &gb.bus, &gb.ppu);
    assert_eq!(d.cpu_registers, [0x01, 0xB0, 0x00, 0x13, 0x00, 0xD8, 0x01, 0x4D]);
    assert_eq!(d.pc, 0x0100);
    assert_eq!(d.sp, 0xFFFE);
    assert_eq!(d.lcdc, 0x91);
    assert_eq!(d.io_registers.len(), 17);
    assert_eq!(d.io_registers[0], (IoRegister::Lcdc, 0x91));
    assert_eq!(d.io_registers[16].0, IoRegister::Nr11);
    assert_eq!(d.tile_data[0], 0x5A);
    assert_eq!(d.oam_data[2], 0x07);
    assert!(d.cartridge_header_read);
    assert_eq!(&d.cartridge_header[0x34..0x38], b"TEST");
}

#[test]
fn header_is_read_only_once() {
    let mut gb = machine();
    let mut d = DebugWindow::new();
    d.update(&gb.cpu, &gb.bus, &gb.ppu);
    let mut other = vec![0u8; 0x8000];
    other[0x0134..0x0138].copy_from_slice(b"ZZZZ");
    gb.load_rom(&other);
    d.update(&gb.cpu, &gb.bus, &gb.ppu);
    assert_eq!(&d.cartridge_header[0x34..0x38], b"TEST");
}

#[test]
fn debug_buffer_draws_the_pictures() {
    let gb = machine();
    let mut d = DebugWindow::new();
    d.update(&gb.cpu, &gb.bus, &gb.ppu);
    let buffer = d.debug_buffer();
    assert_eq!(buffer.len(), WINDOW_WIDTH * WINDOW_HEIGHT);
    // tile sheet of blank tiles: colour 0
    assert_eq!(at(&buffer, 350, 100), 0xA8D08D);
    // background map: LCDC bit 0 set, blank tiles over the frame
    assert_eq!(at(&buffer, 655, 100), 0xA8D08D);
    // the viewport outline at SCX = SCY = 0
    assert_eq!(at(&buffer, 400, 100), 0xFF0000);
    assert_eq!(at(&buffer, 559, 100), 0xFF0000);
    // window map: LCDC bit 5 clear, only the frame
    assert_eq!(at(&buffer, 400, 400), 0x6f6f6f);
    assert_eq!(at(&buffer, 500, 400), 0);
    // sprite grid frame one pixel out
    assert_eq!(at(&buffer, 299, 500), 0x6f6f6f);
}

#[test]
fn debug_buffer_draws_the_text() {
    let gb = machine();
    let mut d = DebugWindow::new();
    d.update(&gb.cpu, &gb.bus, &gb.ppu);
    let buffer = d.debug_buffer();
    let mut title_pixels = 0;
    for y in 10..18 {
        for x in 10..90 {
            if at(&buffer, x, y) == TITLE_COLOR {
                title_pixels += 1;
            }
        }
    }
    assert!(title_pixels > 0);
    let mut value_pixels = 0;
    for y in 30..38 {
        for x in 30..45 {
            if at(&buffer, x, y) == VALUE_COLOR {
                value_pixels += 1;
            }
        }
    }
    assert!(value_pixels > 0);
}
