use sabiboy::bus::{GameboyMode, MemoryInterface};
use sabiboy::memory::Memory;
use sabiboy::ppu::fetcher::{tile_color, Fetcher};
use sabiboy::ppu::fetcher_sprites::reverse_bits;
use sabiboy::ppu::helper::{should_add_sprite, should_fetch_sprite};
use sabiboy::ppu::pixelfifo::{ColorValue, Pixel, PixelFifo};
use sabiboy::ppu::{PPUMode, Sprite, FRAME_PIXELS, PPU};

fn sprite(y: u8, x: u8) -> Sprite {
    Sprite { y_pos: y, x_pos: x, tile_number: 0, flags: 0 }
}

#[test]
fn oam_scan_keeps_sprites_on_the_line() {
    let s = sprite(16, 8);
    assert!(should_add_sprite(&s, 0, 0x80, 0));
    assert!(should_add_sprite(&s, 7, 0x80, 0));
    assert!(!should_add_sprite(&s, 8, 0x80, 0));
    // tall sprites cover 16 lines
    assert!(should_add_sprite(&s, 8, 0x84, 0));
    // x of 0 hides the sprite; a full buffer takes no more
    assert!(!should_add_sprite(&sprite(16, 0), 0, 0x80, 0));
    assert!(!should_add_sprite(&s, 0, 0x80, 10));
}

#[test]
fn sprite_fetch_takes_the_first_that_has_started() {
    let mut buffer = vec![sprite(16, 40), sprite(16, 12), sprite(16, 10)];
    let got = should_fetch_sprite(4, &mut buffer);
    assert_eq!(got, Some(sprite(16, 12)));
    assert_eq!(buffer, vec![sprite(16, 40), sprite(16, 10)]);
    let none = should_fetch_sprite(-8, &mut buffer);
    assert_eq!(none, None);
    assert_eq!(buffer.len(), 2);
}

#[test]
fn tile_rows_decode_into_two_bit_colours() {
    // low 0b1010_0000, high 0b1100_0000: pixel 0 = 3, pixel 1 = 2, pixel 2 = 1, pixel 3 = 0
    assert_eq!(tile_color(0xA0, 0xC0, 0), 3);
    assert_eq!(tile_color(0xA0, 0xC0, 1), 2);
    assert_eq!(tile_color(0xA0, 0xC0, 2), 1);
    assert_eq!(tile_color(0xA0, 0xC0, 3), 0);
}

#[test]
fn bits_reverse_for_flipped_sprites() {
    assert_eq!(reverse_bits(0b1000_0001), 0b1000_0001);
    assert_eq!(reverse_bits(0b1100_0000), 0b0000_0011);
    assert_eq!(reverse_bits(0x12), 0x48);
}

#[test]
fn pixels_take_their_attributes() {
    let bg = Pixel::new_bg(2, 0x85, GameboyMode::CGB);
    assert!(bg.bg_priority);
    assert_eq!(bg.palette, 5);
    let sp = Pixel::new_sprite(1, 0x10, GameboyMode::DMG);
    assert_eq!(sp.palette, 1);
    assert!(!sp.bg_priority);
}

#[test]
fn new_fifo_is_empty() {
    let fifo = PixelFifo::new();
    assert_eq!(fifo.bg_pixel_count(), 0);
    assert_eq!(fifo.sprite_pixel_count(), 0);
}

#[test]
fn new_ppu_starts_in_oam_scan_with_a_blank_frame() {
    let ppu = PPU::new([0xFFFFFF, 0xAAAAAA, 0x555555, 0x000000]);
    assert_eq!(ppu.mode, PPUMode::OAM_SCAN);
    assert_eq!(ppu.get_frame_buffer().len(), FRAME_PIXELS);
    assert!(ppu.get_frame_buffer().iter().all(|&p| p == 0));
}

#[test]
fn a_scanline_takes_456_dots() {
    let mut mem = Memory::new();
    mem.write_byte(0xFF40, 0x80);
    let mut ppu = PPU::new([0; 4]);
    for _ in 0..456 {
        ppu.tick(&mut mem);
    }
    assert_eq!(mem.read_byte(0xFF44), 0);
    ppu.tick(&mut mem);
    assert_eq!(mem.read_byte(0xFF44), 1);
    for _ in 0..456 {
        ppu.tick(&mut mem);
    }
    assert_eq!(mem.read_byte(0xFF44), 2);
}

#[test]
fn lcd_off_stops_the_ppu() {
    let mut mem = Memory::new();
    let mut ppu = PPU::new([0; 4]);
    for _ in 0..1000 {
        ppu.tick(&mut mem);
    }
    assert_eq!(mem.read_byte(0xFF44), 0);
    assert_eq!(ppu.mode_cycles, 0);
}

#[test]
fn vblank_begins_when_line_144_ends() {
    let mut mem = Memory::new();
    mem.write_byte(0xFF40, 0x80);
    let mut ppu = PPU::new([0; 4]);
    for _ in 0..(144 * 456 + 1) {
        ppu.tick(&mut mem);
    }
    assert_eq!(mem.read_byte(0xFF44), 144);
    assert_eq!(mem.read_byte(0xFF0F) & 0x01, 0x00);
    for _ in 0..456 {
        ppu.tick(&mut mem);
    }
    assert_eq!(mem.read_byte(0xFF44), 145);
    assert_eq!(ppu.mode, PPUMode::VBLANK);
    assert!(ppu.new_frame);
    assert_eq!(mem.read_byte(0xFF0F) & 0x01, 0x01);
}

#[test]
fn debug_switches_toggle() {
    let mut ppu = PPU::new([0; 4]);
    ppu.toggle_sprite_debug_mode(false);
    ppu.toggle_window_debug_mode(false);
    assert!(!ppu.debug_config.sprite_debug_enabled);
    assert!(!ppu.debug_config.window_debug_enabled);
}

#[test]
fn ppu_save_then_load_restores_the_pipeline() {
    let mut mem = Memory::new();
    mem.write_byte(0xFF40, 0x80);
    let mut ppu = PPU::new([0; 4]);
    for _ in 0..500 {
        ppu.tick(&mut mem);
    }
    let st = ppu.save_state();
    let cycles = ppu.mode_cycles;
    let mode = ppu.mode;
    for _ in 0..100 {
        ppu.tick(&mut mem);
    }
    ppu.load_state(st);
    assert_eq!(ppu.mode_cycles, cycles);
    assert_eq!(ppu.mode, mode);
}

#[test]
fn background_row_pushes_eight_pixels() {
    let mut fifo = PixelFifo::new();
    assert!(fifo.push_bg_pixels([0xA0, 0xC0]));
    assert_eq!(fifo.bg_pixel_count(), 8);
    let colors: Vec<u8> = fifo.bg_fifo.iter().map(|p| p.color).collect();
    assert_eq!(colors, vec![3, 2, 1, 0, 0, 0, 0, 0]);
    assert_eq!(fifo.bg_fifo[0], Pixel::new_bg_sprite(3));
}

#[test]
fn sprite_row_fills_only_uncovered_pixels() {
    let mut fifo = PixelFifo::new();
    assert!(fifo.push_sprite_pixels([0xFF, 0x00], 2, 3, true, false));
    assert_eq!(fifo.sprite_pixel_count(), 3);
    assert_eq!(fifo.sprite_fifo[0].palette, 1);
    assert_eq!(fifo.sprite_fifo[0].color, 1);
    // a second sprite over the same pixels only appends past the ones already there
    assert!(fifo.push_sprite_pixels([0x00, 0xFF], 0, 8, false, true));
    assert_eq!(fifo.sprite_pixel_count(), 8);
    assert_eq!(fifo.sprite_fifo[0].color, 1);
    assert_eq!(fifo.sprite_fifo[3].color, 2);
    assert!(fifo.sprite_fifo[3].bg_priority);
}

#[test]
fn sprite_row_past_the_end_does_nothing() {
    let mut fifo = PixelFifo::new();
    assert!(!fifo.push_sprite_pixels([0xFF, 0xFF], 8, 1, false, false));
    assert!(!fifo.push_sprite_pixels([0xFF, 0xFF], 0, 0, false, false));
    assert_eq!(fifo.sprite_pixel_count(), 0);
}

#[test]
fn oam_scan_leaves_the_line_buffer_sorted_by_x() {
    let mut mem = Memory::new();
    mem.write_byte(0xFF40, 0x80);
    let entries = [(16u8, 50u8, 0x00u8), (16, 20, 0x00), (16, 30, 0x00), (16, 30, 0x80), (40, 10, 0x00)];
    for (i, (y, x, flags)) in entries.iter().enumerate() {
        let base = 0xFE00 + (i as u16) * 4;
        mem.write_byte(base, *y);
        mem.write_byte(base + 1, *x);
        mem.write_byte(base + 3, *flags);
    }
    let mut ppu = PPU::new([0; 4]);
    let mut ticks = 0;
    while ppu.mode != PPUMode::DRAWING && ticks < 200 {
        ppu.tick(&mut mem);
        ticks += 1;
    }
    assert_eq!(ppu.mode, PPUMode::DRAWING);
    let order: Vec<(u8, u8)> = ppu.sprite_buffer.iter().map(|s| (s.x_pos, s.flags)).collect();
    assert_eq!(order, vec![(20, 0x00), (30, 0x80), (30, 0x00), (50, 0x00)]);
}

#[test]
fn four_fetcher_steps_push_one_row() {
    let mem = Memory::new();
    let mut fifo = PixelFifo::new();
    let mut f = Fetcher::new();
    let mut steps = Vec::new();
    for _ in 0..4 {
        steps.push(f.step);
        f.step(0x91, 0, 0, 0, 0, 0xE4, GameboyMode::DMG, &mem, &mut fifo);
    }
    assert_eq!(steps, vec![0, 1, 2, 3]);
    assert_eq!(fifo.bg_pixel_count(), 8);
    assert_eq!(f.step, 0);
}

#[test]
fn fetcher_waits_at_the_push_step_while_the_fifo_is_full() {
    let mem = Memory::new();
    let mut fifo = PixelFifo::new();
    assert!(fifo.push_bg_pixels([0, 0]));
    let mut f = Fetcher::new();
    for _ in 0..4 {
        f.step(0x91, 0, 0, 0, 0, 0xE4, GameboyMode::DMG, &mem, &mut fifo);
    }
    assert_eq!(f.step, 3);
    assert_eq!(fifo.bg_pixel_count(), 8);
}

#[test]
fn background_priority_sprite_shows_over_background_colour_zero() {
    let mut fetcher = Fetcher::new();
    let mut fifo = PixelFifo::new();
    assert!(fifo.push_bg_pixels([0x00, 0x00]));
    assert!(fifo.push_sprite_pixels([0xFF, 0x00], 0, 8, false, true));
    // BGP maps colour 0 to shade 3, OBP0 maps colour 1 to shade 2
    let r = fifo.pop_pixel(&mut fetcher, 0, GameboyMode::DMG, 0x83, 0x03, 0x08, 0x00);
    assert_eq!(r, Some(ColorValue::Dmg(2)));

    let mut fifo = PixelFifo::new();
    assert!(fifo.push_bg_pixels([0xFF, 0x00]));
    assert!(fifo.push_sprite_pixels([0xFF, 0x00], 0, 8, false, true));
    // background colour 1 (shade 0 under this BGP) hides the sprite
    let r = fifo.pop_pixel(&mut fetcher, 0, GameboyMode::DMG, 0x83, 0x03, 0x08, 0x00);
    assert_eq!(r, Some(ColorValue::Dmg(0)));
}
