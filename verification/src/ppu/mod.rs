use vstd::prelude::*;
use crate::bus::io_address::IoRegister;
use crate::bus::{GameboyMode, MemoryInterface};

pub mod helper;
pub mod pixelfifo;
pub mod fetcher;
pub mod fetcher_sprites;

use fetcher::Fetcher;
use fetcher_sprites::SpriteFetcher;
use helper::{lemma_first_fetchable_bound, should_add_sprite, should_fetch_sprite, spec_first_fetchable, spec_should_add_sprite};
use pixelfifo::{spec_mix_dmg, spec_scroll_drop_count, ColorValue, Pixel, PixelFifo};

verus! {

pub const SCREEN_WIDTH: u8 = 160;

pub const SCREEN_HEIGHT: u8 = 144;

/// The number of pixels in a frame.
pub const FRAME_PIXELS: usize = 23040;

pub const CYCLES_PER_SCANLINE: usize = 456;

pub const X_POSITION_COUNTER_MAX: u16 = 160;

pub const SCANLINE_Y_COUNTER_MAX: u8 = 153;

pub const VBLANK_START_SCANLINE: u8 = 144;

/// The PPU's modes, in the order of their STAT numbers 0-3.
#[allow(non_camel_case_types)]
#[derive(Debug, Copy, Clone, PartialEq, Eq, Structural)]
pub enum PPUMode {
    HBLANK,
    VBLANK,
    OAM_SCAN,
    DRAWING,
}

/// Switches for drawing sprites and the window.
#[derive(Clone, Copy, Debug, PartialEq, Eq, Structural)]
pub struct DebugConfig {
    pub sprite_debug_enabled: bool,
    pub window_debug_enabled: bool,
}

/// An OAM entry.
#[derive(Clone, Copy, Debug, PartialEq, Eq, Structural)]
pub struct Sprite {
    pub y_pos: u8,
    pub x_pos: u8,
    pub tile_number: u8,
    pub flags: u8,
}

impl Sprite {
    pub fn new() -> (r: Sprite)
        ensures
            r == (Sprite { y_pos: 0, x_pos: 0, tile_number: 0, flags: 0 }),
    {
        Sprite { y_pos: 0, x_pos: 0, tile_number: 0, flags: 0 }
    }
}

/// The picture processing unit: OAM scan, the pixel pipeline and the frame buffer
/// (160 x 144 colours, row by row).
#[derive(Clone, Debug)]
pub struct PPU {
    pub palette: [u32; 4],
    pub mode: PPUMode,
    pub mode_cycles: usize,
    pub buffer: Vec<u32>,
    pub sprite_buffer: Vec<Sprite>,
    pub fetcher: Fetcher,
    pub sprite_fetcher: SpriteFetcher,
    pub pixel_fifo: PixelFifo,
    pub window_triggered_this_frame: bool,
    pub previous_stat_conditions: u8,
    pub x_render_counter: i16,
    pub window_line_counter_incremented_this_scanline: bool,
    pub new_frame: bool,
    pub debug_config: DebugConfig,
}

/// A save of the PPU's pipeline (the frame buffer and palette are not part of it).
#[derive(Clone, Debug)]
pub struct PPUState {
    pub mode: PPUMode,
    pub mode_cycles: usize,
    pub sprite_buffer: Vec<Sprite>,
    pub fetcher: Fetcher,
    pub sprite_fetcher: SpriteFetcher,
    pub pixel_fifo: PixelFifo,
    pub window_triggered_this_frame: bool,
    pub previous_stat_conditions: u8,
    pub x_render_counter: i16,
    pub window_line_counter_incremented_this_scanline: bool,
    pub new_frame: bool,
    pub debug_config: DebugConfig,
}

/// The PPU as a mathematical value.
#[verifier::ext_equal]
pub struct PPUView {
    pub palette: [u32; 4],
    pub mode: PPUMode,
    pub mode_cycles: usize,
    pub buffer: Seq<u32>,
    pub sprite_buffer: Seq<Sprite>,
    pub fetcher: Fetcher,
    pub sprite_fetcher: SpriteFetcher,
    pub bg_fifo: Seq<Pixel>,
    pub sprite_fifo: Seq<Pixel>,
    pub fine_scroll_applied: bool,
    pub window_triggered_this_frame: bool,
    pub previous_stat_conditions: u8,
    pub x_render_counter: i16,
    pub window_line_counter_incremented_this_scanline: bool,
    pub new_frame: bool,
    pub debug_config: DebugConfig,
}

impl View for PPU {
    type V = PPUView;

    open spec fn view(&self) -> PPUView {
        PPUView {
            palette: self.palette,
            mode: self.mode,
            mode_cycles: self.mode_cycles,
            buffer: self.buffer@,
            sprite_buffer: self.sprite_buffer@,
            fetcher: self.fetcher,
            sprite_fetcher: self.sprite_fetcher,
            bg_fifo: self.pixel_fifo.bg_fifo@,
            sprite_fifo: self.pixel_fifo.sprite_fifo@,
            fine_scroll_applied: self.pixel_fifo.fine_scroll_applied,
            window_triggered_this_frame: self.window_triggered_this_frame,
            previous_stat_conditions: self.previous_stat_conditions,
            x_render_counter: self.x_render_counter,
            window_line_counter_incremented_this_scanline: self.window_line_counter_incremented_this_scanline,
            new_frame: self.new_frame,
            debug_config: self.debug_config,
        }
    }
}

/// An I/O register as a memory read gives it.
pub open spec fn spec_reg<M: MemoryInterface>(mem: M, r: IoRegister) -> u8 {
    mem.spec_read_byte(r.spec_address())
}

/// The line-buffer order: by X, and for equal X the larger flags byte first.
pub open spec fn sprite_before(a: Sprite, b: Sprite) -> bool {
    a.x_pos < b.x_pos || (a.x_pos == b.x_pos && a.flags > b.flags)
}

/// The position at which `x` enters an ordered line buffer: before the first sprite it
/// goes before, else at the end.
pub open spec fn spec_insert_position(s: Seq<Sprite>, x: Sprite) -> int
    decreases s.len(),
{
    if s.len() == 0 {
        0
    } else if sprite_before(x, s[0]) {
        0
    } else {
        1 + spec_insert_position(s.drop_first(), x)
    }
}

/// The line buffer in `sprite_before` order, sprites of equal rank keeping their order
/// (a stable sort).
pub open spec fn spec_sort_sprites(s: Seq<Sprite>) -> Seq<Sprite>
    decreases s.len(),
{
    if s.len() == 0 {
        s
    } else {
        let sorted = spec_sort_sprites(s.drop_last());
        sorted.insert(spec_insert_position(sorted, s.last()), s.last())
    }
}

pub proof fn lemma_insert_position(s: Seq<Sprite>, x: Sprite, i: int)
    requires
        0 <= i <= s.len(),
        forall|j: int| 0 <= j < i ==> !sprite_before(x, #[trigger] s[j]),
        i == s.len() || sprite_before(x, s[i]),
    ensures
        spec_insert_position(s, x) == i,
    decreases i,
{
    if i > 0 {
        assert(!sprite_before(x, s[0]));
        let t = s.drop_first();
        assert forall|j: int| 0 <= j < i - 1 implies !sprite_before(x, #[trigger] t[j]) by {
            assert(t[j] == s[j + 1]);
        }
        lemma_insert_position(t, x, i - 1);
    }
}

pub proof fn lemma_insert_position_bound(s: Seq<Sprite>, x: Sprite)
    ensures
        0 <= spec_insert_position(s, x) <= s.len(),
    decreases s.len(),
{
    if s.len() > 0 {
        lemma_insert_position_bound(s.drop_first(), x);
    }
}

pub proof fn lemma_sort_len(s: Seq<Sprite>)
    ensures
        spec_sort_sprites(s).len() == s.len(),
    decreases s.len(),
{
    if s.len() > 0 {
        lemma_sort_len(s.drop_last());
        lemma_insert_position_bound(spec_sort_sprites(s.drop_last()), s.last());
    }
}

/// Sorts the line buffer into `sprite_before` order, stably (insertion sort).
fn sort_sprites(v: &mut Vec<Sprite>)
    ensures
        final(v)@ == spec_sort_sprites(old(v)@),
{
    let n = v.len();
    let mut k: usize = 0;
    while k < n
        invariant
            k <= n,
            n == v@.len(),
            n == old(v)@.len(),
            v@.take(k as int) == spec_sort_sprites(old(v)@.take(k as int)),
            v@.skip(k as int) == old(v)@.skip(k as int),
        decreases n - k,
    {
        let x = v[k];
        let ghost sorted = v@.take(k as int);
        assert(x == old(v)@[k as int]) by {
            assert(v@.skip(k as int)[0] == v@[k as int]);
        }
        let mut j: usize = 0;
        while j < k && !(x.x_pos < v[j].x_pos || (x.x_pos == v[j].x_pos && x.flags > v[j].flags))
            invariant
                j <= k < n,
                n == v@.len(),
                v@.take(k as int) == sorted,
                forall|t: int| 0 <= t < j ==> !sprite_before(x, #[trigger] sorted[t]),
            decreases k - j,
        {
            assert(sorted[j as int] == v@[j as int]);
            j += 1;
        }
        proof {
            if j < k {
                assert(sorted[j as int] == v@[j as int]);
            }
            lemma_insert_position(sorted, x, j as int);
            assert(old(v)@.take(k as int + 1).drop_last() =~= old(v)@.take(k as int));
            assert(old(v)@.take(k as int + 1).last() == x);
        }
        let ghost before = v@;
        v.remove(k);
        v.insert(j, x);
        proof {
            assert(v@ =~= sorted.insert(j as int, x) + before.skip(k as int + 1));
            assert(v@.take(k as int + 1) =~= sorted.insert(j as int, x));
            assert(v@.skip(k as int + 1) =~= old(v)@.skip(k as int + 1)) by {
                assert(before.skip(k as int + 1) =~= old(v)@.skip(k as int + 1)) by {
                    assert forall|t: int| 0 <= t < n - k - 1 implies #[trigger] before.skip(k as int + 1)[t]
                        == old(v)@.skip(k as int + 1)[t] by {
                        assert(before.skip(k as int)[t + 1] == old(v)@.skip(k as int)[t + 1]);
                    }
                }
            }
        }
        k += 1;
    }
    assert(v@.take(n as int) =~= v@);
    assert(old(v)@.take(n as int) =~= old(v)@);
}


/// The STAT number of a mode.
pub open spec fn spec_mode_bits(mode: PPUMode) -> u8 {
    match mode {
        PPUMode::HBLANK => 0,
        PPUMode::VBLANK => 1,
        PPUMode::OAM_SCAN => 2,
        PPUMode::DRAWING => 3,
    }
}

/// The frame-buffer colour of a pipeline colour: a DMG shade through the palette, or a CGB
/// RGB value made opaque.
pub open spec fn spec_screen_color(palette: [u32; 4], c: ColorValue) -> u32 {
    match c {
        ColorValue::Dmg(shade) => palette@[(shade & 0x03) as int],
        ColorValue::Cgb(rgb) => rgb | 0xFF00_0000,
    }
}

/// The pipeline at the start of a line: FIFOs, line buffer and fetchers reset, the render
/// position at -8, and the window line counter advanced if the window was drawn.
pub open spec fn spec_reset_scanline(v: PPUView) -> PPUView {
    let f = v.fetcher.spec_scanline_reset();
    PPUView {
        mode_cycles: 0,
        bg_fifo: Seq::empty(),
        sprite_fifo: Seq::empty(),
        fine_scroll_applied: false,
        sprite_buffer: Seq::empty(),
        fetcher: if v.window_line_counter_incremented_this_scanline {
            Fetcher { window_line_counter: f.window_line_counter.wrapping_add(1), ..f }
        } else {
            f
        },
        sprite_fetcher: v.sprite_fetcher.spec_scanline_reset(),
        x_render_counter: -8i16,
        window_line_counter_incremented_this_scanline: false,
        ..v
    }
}

/// The start of a frame: a new line in OAM scan, the window untriggered and its line
/// counter at 0, and LY set to 0.
pub open spec fn spec_reset_frame<M: MemoryInterface>(v: PPUView, mem: M) -> (PPUView, M) {
    let r = spec_reset_scanline(PPUView { new_frame: false, ..v });
    (
        PPUView {
            mode: PPUMode::OAM_SCAN,
            window_triggered_this_frame: false,
            fetcher: Fetcher { window_line_counter: 0, ..r.fetcher },
            ..r
        },
        mem.spec_write_byte(IoRegister::Ly.spec_address(), 0),
    )
}

/// The OAM entry at `address`.
pub open spec fn spec_read_sprite<M: MemoryInterface>(mem: M, address: u16) -> Sprite {
    Sprite {
        y_pos: mem.spec_read_byte(address),
        x_pos: mem.spec_read_byte((address + 1) as u16),
        tile_number: mem.spec_read_byte((address + 2) as u16),
        flags: mem.spec_read_byte((address + 3) as u16),
    }
}

/// One dot of OAM scan: on odd dots entry (dot / 2) is read and kept if it is on this line;
/// from dot 80 the line buffer is sorted and drawing starts.
pub open spec fn spec_handle_oam<M: MemoryInterface>(v: PPUView, mem: M) -> PPUView {
    let v1 = if v.mode_cycles % 2 != 0 {
        let sprite = spec_read_sprite(mem, (0xFE00 + (v.mode_cycles / 2) * 4) as u16);
        if spec_should_add_sprite(sprite, spec_reg(mem, IoRegister::Ly), spec_reg(mem, IoRegister::Lcdc), v.sprite_buffer.len() as usize) {
            PPUView { sprite_buffer: v.sprite_buffer.push(sprite), ..v }
        } else {
            v
        }
    } else {
        v
    };
    if v1.mode_cycles >= 80 {
        PPUView { mode: PPUMode::DRAWING, sprite_buffer: spec_sort_sprites(v1.sprite_buffer), ..v1 }
    } else {
        v1
    }
}

/// Whether the window starts here: it is enabled (LCDC bit 5 in DMG mode), WY = LY has held
/// at some point this frame, and the render position has reached WX - 7 (WX - 7 taken
/// modulo 256). Records WY = LY.
pub open spec fn spec_check_window<M: MemoryInterface>(v: PPUView, mem: M) -> (PPUView, bool) {
    if !v.debug_config.window_debug_enabled {
        (v, false)
    } else if mem.spec_gb_mode() == GameboyMode::DMG && spec_reg(mem, IoRegister::Lcdc) & 0b0010_0000 == 0 {
        (v, false)
    } else {
        let triggered = v.window_triggered_this_frame || spec_reg(mem, IoRegister::Ly) == spec_reg(mem, IoRegister::Wy);
        (
            PPUView { window_triggered_this_frame: triggered, ..v },
            triggered && v.x_render_counter as int >= spec_reg(mem, IoRegister::Wx).wrapping_sub(7) as int,
        )
    }
}

/// Pixel shifting: unless the FIFO is empty or a fetcher holds it, one pixel leaves the
/// pipeline, is drawn at (render position, LY) when that is on screen, and the positions
/// advance.
pub open spec fn spec_shift<M: MemoryInterface>(v: PPUView, mem: M) -> PPUView {
    if v.bg_fifo.len() == 0 || v.sprite_fetcher.active || v.fetcher.pause {
        v
    } else {
        let d = spec_scroll_drop_count(
            v.fine_scroll_applied,
            v.fetcher.is_window_fetch,
            spec_reg(mem, IoRegister::Scx),
            v.bg_fifo.len(),
        );
        let sp = if v.sprite_fifo.len() > 0 { Some(v.sprite_fifo[0]) } else { None::<Pixel> };
        let c = match mem.spec_gb_mode() {
            GameboyMode::DMG => ColorValue::Dmg(
                spec_mix_dmg(
                    v.bg_fifo[d],
                    sp,
                    spec_reg(mem, IoRegister::Lcdc),
                    spec_reg(mem, IoRegister::Bgp),
                    spec_reg(mem, IoRegister::Obp0),
                    spec_reg(mem, IoRegister::Obp1),
                ),
            ),
            GameboyMode::CGB => ColorValue::Cgb(0),
        };
        let ly = spec_reg(mem, IoRegister::Ly);
        let x = v.x_render_counter;
        let xp = ((v.fetcher.x_pos_counter + d) % 0x10000) as u16;
        PPUView {
            bg_fifo: v.bg_fifo.skip(d + 1),
            sprite_fifo: if v.sprite_fifo.len() > 0 { v.sprite_fifo.skip(1) } else { v.sprite_fifo },
            fine_scroll_applied: true,
            fetcher: Fetcher { x_pos_counter: xp.wrapping_add(1), ..v.fetcher },
            buffer: if 0 <= x < 160 && ly < 144 {
                v.buffer.update(ly * 160 + x, spec_screen_color(v.palette, c))
            } else {
                v.buffer
            },
            x_render_counter: (x + 1) as i16,
            ..v
        }
    }
}

/// Window check: while fetching the background, a window start switches the fetcher to the
/// window and empties the FIFOs.
pub open spec fn spec_window_stage<M: MemoryInterface>(v: PPUView, mem: M) -> PPUView {
    if v.fetcher.is_window_fetch {
        v
    } else {
        let (v1, start) = spec_check_window(v, mem);
        if start {
            PPUView {
                fetcher: Fetcher { step: 0, is_window_fetch: true, x_pos_counter: 7, ..v1.fetcher },
                bg_fifo: Seq::empty(),
                sprite_fifo: Seq::empty(),
                fine_scroll_applied: false,
                window_line_counter_incremented_this_scanline: true,
                ..v1
            }
        } else {
            v1
        }
    }
}

/// Sprite check: with no sprite fetch running (and sprites on), the first sprite of the line
/// buffer that starts at or before the next pixel leaves it and its fetch starts.
pub open spec fn spec_sprite_stage(v: PPUView) -> PPUView {
    if !v.sprite_fetcher.active && v.debug_config.sprite_debug_enabled {
        let i = spec_first_fetchable(v.sprite_buffer, v.x_render_counter);
        if i < v.sprite_buffer.len() {
            PPUView {
                sprite_buffer: v.sprite_buffer.remove(i),
                sprite_fetcher: v.sprite_fetcher.spec_start_fetch(v.sprite_buffer[i]),
                ..v
            }
        } else {
            v
        }
    } else {
        v
    }
}

/// Fetching, on even dots: the background fetcher steps; during a sprite fetch it is held
/// and the sprite fetcher steps, otherwise it is released.
pub open spec fn spec_fetch_stage<M: MemoryInterface>(v: PPUView, mem: M) -> PPUView {
    if v.mode_cycles % 2 == 0 {
        let lcdc = spec_reg(mem, IoRegister::Lcdc);
        let ly = spec_reg(mem, IoRegister::Ly);
        let mode = mem.spec_gb_mode();
        let f = v.fetcher.spec_step(
            lcdc,
            spec_reg(mem, IoRegister::Scy),
            spec_reg(mem, IoRegister::Scx),
            ly,
            mode,
            mem,
            v.bg_fifo.len(),
        );
        let bg = if v.fetcher.spec_step_pushes(v.bg_fifo.len()) { v.fetcher.spec_row(mode) } else { v.bg_fifo };
        if v.sprite_fetcher.active {
            PPUView {
                fetcher: f.spec_pause(),
                bg_fifo: bg,
                sprite_fetcher: v.sprite_fetcher.spec_step(ly, lcdc, mode, mem),
                sprite_fifo: if v.sprite_fetcher.step == 2 {
                    v.sprite_fetcher.spec_merge_upto(v.sprite_fifo, mode, 8)
                } else {
                    v.sprite_fifo
                },
                ..v
            }
        } else {
            PPUView { fetcher: f.spec_unpause(), bg_fifo: bg, ..v }
        }
    } else {
        v
    }
}

/// One dot of drawing: past the last column the line ends (H-blank); otherwise pixel
/// shifting, the window check, the sprite check and fetching, in that order.
pub open spec fn spec_handle_drawing<M: MemoryInterface>(v: PPUView, mem: M) -> PPUView {
    if v.x_render_counter >= 160 {
        PPUView { mode: PPUMode::HBLANK, ..v }
    } else {
        spec_fetch_stage(spec_sprite_stage(spec_window_stage(spec_shift(v, mem), mem)), mem)
    }
}

/// V-blank entry: the V-blank interrupt is requested (IF bit 0) and a frame is complete.
pub open spec fn spec_handle_vblank<M: MemoryInterface>(v: PPUView, mem: M) -> (PPUView, M) {
    (
        PPUView { new_frame: true, ..v },
        mem.spec_write_byte(IoRegister::If.spec_address(), spec_reg(mem, IoRegister::If) | 0b0000_0001),
    )
}

/// The STAT interrupt conditions that hold: LYC = LY (bit 0), and the current mode's
/// source (H-blank bit 1, V-blank bit 2, OAM scan bit 3), each when enabled in STAT.
pub open spec fn spec_stat_conditions(stat: u8, mode_bits: u8, coincidence: bool) -> u8 {
    (if coincidence && stat & 0b0100_0000 != 0 { 0b0001u8 } else { 0 })
        | (if mode_bits == 0 && stat & 0b0000_1000 != 0 {
        0b0010u8
    } else if mode_bits == 1 && stat & 0b0001_0000 != 0 {
        0b0100u8
    } else if mode_bits == 2 && stat & 0b0010_0000 != 0 {
        0b1000u8
    } else {
        0
    })
}

/// STAT update: the mode bits and the LYC = LY flag are written (bit 7 always set), and the
/// STAT interrupt (IF bit 1) is requested when some condition holds and none did before.
pub open spec fn spec_update_stat<M: MemoryInterface>(v: PPUView, mem: M) -> (PPUView, M) {
    let mode_bits = spec_mode_bits(v.mode);
    let coincidence = spec_reg(mem, IoRegister::Ly) == spec_reg(mem, IoRegister::Lyc);
    let stat = ((spec_reg(mem, IoRegister::Stat) & 0b1111_1100) | mode_bits) & 0b1111_1011
        | (if coincidence { 0b100u8 } else { 0 });
    let conditions = spec_stat_conditions(stat, mode_bits, coincidence);
    let m1 = if conditions != 0 && v.previous_stat_conditions == 0 {
        mem.spec_write_byte(IoRegister::If.spec_address(), spec_reg(mem, IoRegister::If) | 0b0000_0010)
    } else {
        mem
    };
    (
        PPUView { previous_stat_conditions: conditions, ..v },
        m1.spec_write_byte(IoRegister::Stat.spec_address(), stat | 0b1000_0000),
    )
}

/// The end-of-line step after dot 456: a new line in OAM scan (LY + 1); after line 143,
/// V-blank with its interrupt; after line 153, a new frame.
pub open spec fn spec_line_end<M: MemoryInterface>(v: PPUView, mem: M, ly: u8) -> (PPUView, M) {
    let r = spec_reset_scanline(v);
    if ly < VBLANK_START_SCANLINE {
        (PPUView { mode: PPUMode::OAM_SCAN, ..r }, mem.spec_write_byte(IoRegister::Ly.spec_address(), (ly + 1) as u8))
    } else if ly == VBLANK_START_SCANLINE {
        let (r2, m) = spec_handle_vblank(PPUView { mode: PPUMode::VBLANK, ..r }, mem);
        (r2, m.spec_write_byte(IoRegister::Ly.spec_address(), (ly + 1) as u8))
    } else if ly >= SCANLINE_Y_COUNTER_MAX {
        spec_reset_frame(r, mem)
    } else {
        (r, mem.spec_write_byte(IoRegister::Ly.spec_address(), (ly + 1) as u8))
    }
}

/// The mode's work for one dot: OAM scan or drawing (H-blank and V-blank only wait).
pub open spec fn spec_mode_step<M: MemoryInterface>(v: PPUView, mem: M) -> PPUView {
    match v.mode {
        PPUMode::OAM_SCAN => spec_handle_oam(v, mem),
        PPUMode::DRAWING => spec_handle_drawing(v, mem),
        _ => v,
    }
}

/// One dot of the PPU (nothing while a DMG LCD is off, LCDC bit 7): the mode's work, the
/// end-of-line step after dot 456, the STAT update, and the dot count advances.
pub open spec fn spec_ppu_tick<M: MemoryInterface>(v: PPUView, mem: M) -> (PPUView, M) {
    if mem.spec_gb_mode() == GameboyMode::DMG && spec_reg(mem, IoRegister::Lcdc) & 0x80 == 0 {
        (v, mem)
    } else {
        let ly = spec_reg(mem, IoRegister::Ly);
        let v1 = spec_mode_step(v, mem);
        let (v2, m2) = if v1.mode_cycles >= CYCLES_PER_SCANLINE { spec_line_end(v1, mem, ly) } else { (v1, mem) };
        let (v3, m3) = spec_update_stat(v2, m2);
        (PPUView { mode_cycles: (v3.mode_cycles + 1) as usize, ..v3 }, m3)
    }
}


impl PPU {
    /// The frame buffer has one entry per pixel, the FIFOs are well formed, the line buffer
    /// holds at most ten sprites, the dot count stays within a line (within OAM scan's 80
    /// dots during OAM scan) and the render position within -8..=160.
    pub open spec fn wf(&self) -> bool {
        &&& self.buffer@.len() == FRAME_PIXELS
        &&& self.pixel_fifo.wf()
        &&& self.sprite_buffer@.len() <= 10
        &&& self.mode_cycles <= CYCLES_PER_SCANLINE
        &&& (self.mode == PPUMode::OAM_SCAN ==> self.mode_cycles <= 80)
        &&& -8 <= self.x_render_counter <= 160
    }

    pub fn new(palette: [u32; 4]) -> (r: PPU)
        ensures
            r.wf(),
            r@.palette == palette,
            forall|i: int| 0 <= i < FRAME_PIXELS ==> r@.buffer[i] == 0,
            r@.mode == PPUMode::OAM_SCAN,
            r@.mode_cycles == 0,
            r@.sprite_buffer == Seq::<Sprite>::empty(),
            r@.fetcher == Fetcher::spec_new(),
            r@.sprite_fetcher == SpriteFetcher::spec_new(),
            r@.bg_fifo == Seq::<Pixel>::empty(),
            r@.sprite_fifo == Seq::<Pixel>::empty(),
            !r@.fine_scroll_applied,
            !r@.window_triggered_this_frame,
            r@.previous_stat_conditions == 0,
            r@.x_render_counter == -8,
            !r@.window_line_counter_incremented_this_scanline,
            !r@.new_frame,
            r@.debug_config == (DebugConfig { sprite_debug_enabled: true, window_debug_enabled: true }),
    {
        let mut buffer: Vec<u32> = Vec::with_capacity(FRAME_PIXELS);
        let mut i: usize = 0;
        while i < FRAME_PIXELS
            invariant
                i <= FRAME_PIXELS,
                buffer@.len() == i,
                forall|j: int| 0 <= j < i ==> buffer@[j] == 0,
            decreases FRAME_PIXELS - i,
        {
            buffer.push(0);
            i += 1;
        }
        PPU {
            palette,
            buffer,
            mode: PPUMode::OAM_SCAN,
            mode_cycles: 0,
            sprite_buffer: Vec::with_capacity(10),
            fetcher: Fetcher::new(),
            sprite_fetcher: SpriteFetcher::new(),
            pixel_fifo: PixelFifo::new(),
            window_triggered_this_frame: false,
            previous_stat_conditions: 0,
            x_render_counter: -8,
            window_line_counter_incremented_this_scanline: false,
            new_frame: false,
            debug_config: DebugConfig { sprite_debug_enabled: true, window_debug_enabled: true },
        }
    }

    /// Whether a save holds a pipeline a PPU can run from.
    pub open spec fn spec_loadable(state: PPUState) -> bool {
        &&& state.pixel_fifo.wf()
        &&& state.sprite_buffer@.len() <= 10
        &&& state.mode_cycles <= CYCLES_PER_SCANLINE
        &&& (state.mode == PPUMode::OAM_SCAN ==> state.mode_cycles <= 80)
        &&& -8 <= state.x_render_counter <= 160
    }

    /// Whether `st` is a save of this PPU's pipeline.
    pub open spec fn spec_saved_as(&self, st: PPUState) -> bool {
        &&& st.mode == self.mode
        &&& st.mode_cycles == self.mode_cycles
        &&& st.sprite_buffer@ == self.sprite_buffer@
        &&& st.fetcher == self.fetcher
        &&& st.sprite_fetcher == self.sprite_fetcher
        &&& st.pixel_fifo.bg_fifo@ == self.pixel_fifo.bg_fifo@
        &&& st.pixel_fifo.sprite_fifo@ == self.pixel_fifo.sprite_fifo@
        &&& st.pixel_fifo.fine_scroll_applied == self.pixel_fifo.fine_scroll_applied
        &&& st.window_triggered_this_frame == self.window_triggered_this_frame
        &&& st.previous_stat_conditions == self.previous_stat_conditions
        &&& st.x_render_counter == self.x_render_counter
        &&& st.window_line_counter_incremented_this_scanline == self.window_line_counter_incremented_this_scanline
        &&& st.new_frame == self.new_frame
        &&& st.debug_config == self.debug_config
    }

    fn copy_sprites(v: &Vec<Sprite>) -> (r: Vec<Sprite>)
        ensures
            r@ == v@,
    {
        let mut r: Vec<Sprite> = Vec::new();
        let mut i: usize = 0;
        while i < v.len()
            invariant
                i <= v@.len(),
                r@ == v@.take(i as int),
            decreases v@.len() - i,
        {
            r.push(v[i]);
            proof { assert(r@ =~= v@.take(i as int + 1)); }
            i += 1;
        }
        assert(v@.take(v@.len() as int) =~= v@);
        r
    }

    fn copy_pixels(q: &std::collections::VecDeque<Pixel>) -> (r: std::collections::VecDeque<Pixel>)
        ensures
            r@ == q@,
    {
        let mut r: std::collections::VecDeque<Pixel> = std::collections::VecDeque::new();
        let mut i: usize = 0;
        while i < q.len()
            invariant
                i <= q@.len(),
                r@ == q@.take(i as int),
            decreases q@.len() - i,
        {
            r.push_back(q[i]);
            proof { assert(r@ =~= q@.take(i as int + 1)); }
            i += 1;
        }
        assert(q@.take(q@.len() as int) =~= q@);
        r
    }

    pub fn save_state(&self) -> (r: PPUState)
        ensures
            self.spec_saved_as(r),
    {
        PPUState {
            mode: self.mode,
            mode_cycles: self.mode_cycles,
            sprite_buffer: Self::copy_sprites(&self.sprite_buffer),
            fetcher: self.fetcher,
            sprite_fetcher: self.sprite_fetcher,
            pixel_fifo: PixelFifo {
                bg_fifo: Self::copy_pixels(&self.pixel_fifo.bg_fifo),
                sprite_fifo: Self::copy_pixels(&self.pixel_fifo.sprite_fifo),
                fine_scroll_applied: self.pixel_fifo.fine_scroll_applied,
            },
            window_triggered_this_frame: self.window_triggered_this_frame,
            previous_stat_conditions: self.previous_stat_conditions,
            x_render_counter: self.x_render_counter,
            window_line_counter_incremented_this_scanline: self.window_line_counter_incremented_this_scanline,
            new_frame: self.new_frame,
            debug_config: self.debug_config,
        }
    }

    /// Restores a saved pipeline; the frame buffer, palette and debug switches are kept.
    pub fn load_state(&mut self, state: PPUState)
        requires
            old(self).wf(),
            PPU::spec_loadable(state),
        ensures
            final(self).wf(),
            final(self).spec_saved_as(PPUState { debug_config: old(self).debug_config, ..state }),
            final(self).buffer@ == old(self).buffer@,
            final(self).palette == old(self).palette,
    {
        self.mode = state.mode;
        self.mode_cycles = state.mode_cycles;
        self.sprite_buffer = state.sprite_buffer;
        self.fetcher = state.fetcher;
        self.sprite_fetcher = state.sprite_fetcher;
        self.pixel_fifo = state.pixel_fifo;
        self.window_triggered_this_frame = state.window_triggered_this_frame;
        self.previous_stat_conditions = state.previous_stat_conditions;
        self.x_render_counter = state.x_render_counter;
        self.window_line_counter_incremented_this_scanline = state.window_line_counter_incremented_this_scanline;
        self.new_frame = state.new_frame;
    }

    pub fn toggle_sprite_debug_mode(&mut self, enabled: bool)
        ensures
            final(self)@ == (PPUView {
                debug_config: DebugConfig { sprite_debug_enabled: enabled, ..old(self).debug_config },
                ..old(self)@
            }),
            final(self).wf() == old(self).wf(),
    {
        self.debug_config.sprite_debug_enabled = enabled;
    }

    pub fn toggle_window_debug_mode(&mut self, enabled: bool)
        ensures
            final(self)@ == (PPUView {
                debug_config: DebugConfig { window_debug_enabled: enabled, ..old(self).debug_config },
                ..old(self)@
            }),
            final(self).wf() == old(self).wf(),
    {
        self.debug_config.window_debug_enabled = enabled;
    }

    fn get_io_register<M: MemoryInterface>(&self, memory: &M, register: IoRegister) -> (r: u8)
        requires
            memory.mem_wf(),
        ensures
            r == spec_reg(*memory, register),
    {
        memory.read_byte(register.address())
    }

    fn set_io_register<M: MemoryInterface>(&self, memory: &mut M, register: IoRegister, value: u8)
        requires
            old(memory).mem_wf(),
        ensures
            *final(memory) == old(memory).spec_write_byte(register.spec_address(), value),
            final(memory).mem_wf(),
    {
        memory.write_byte(register.address(), value);
    }

    fn check_window<M: MemoryInterface>(&mut self, memory: &M) -> (r: bool)
        requires
            memory.mem_wf(),
        ensures
            (final(self)@, r) == spec_check_window(old(self)@, *memory),
            *final(self) == (PPU { window_triggered_this_frame: final(self).window_triggered_this_frame, ..*old(self) }),
    {
        if !self.debug_config.window_debug_enabled {
            return false;
        }
        if memory.gb_mode() == GameboyMode::DMG {
            let lcdc = self.get_io_register(memory, IoRegister::Lcdc);
            if lcdc & 0b0010_0000 == 0 {
                return false;
            }
        }
        let wy = self.get_io_register(memory, IoRegister::Wy);
        let wx = self.get_io_register(memory, IoRegister::Wx);
        let ly = self.get_io_register(memory, IoRegister::Ly);
        if ly == wy {
            if !self.window_triggered_this_frame {
                self.window_triggered_this_frame = true;
            }
        }
        self.window_triggered_this_frame && self.x_render_counter >= (wx.wrapping_sub(7)) as i16
    }

    /// The frame buffer, 160 x 144 colours row by row.
    pub fn get_frame_buffer(&self) -> (r: &[u32])
        ensures
            r@ == self.buffer@,
    {
        self.buffer.as_slice()
    }

    /// Starts a new line of the pipeline.
    pub fn reset_scanline(&mut self)
        requires
            old(self).wf(),
        ensures
            final(self)@ == spec_reset_scanline(old(self)@),
            final(self).wf(),
    {
        self.mode_cycles = 0;
        self.pixel_fifo.reset();
        self.sprite_buffer.clear();
        self.fetcher.scanline_reset();
        self.sprite_fetcher.scanline_reset();
        self.x_render_counter = -8;
        if self.window_line_counter_incremented_this_scanline {
            self.fetcher.window_line_counter = self.fetcher.window_line_counter.wrapping_add(1);
        }
        self.window_line_counter_incremented_this_scanline = false;
    }

    fn reset_frame<M: MemoryInterface>(&mut self, memory: &mut M)
        requires
            old(self).wf(),
            old(memory).mem_wf(),
        ensures
            (final(self)@, *final(memory)) == spec_reset_frame(old(self)@, *old(memory)),
            final(self).wf(),
            final(memory).mem_wf(),
    {
        self.new_frame = false;
        self.reset_scanline();
        self.mode = PPUMode::OAM_SCAN;
        self.window_triggered_this_frame = false;
        self.fetcher.window_line_counter = 0;
        self.set_io_register(memory, IoRegister::Ly, 0);
    }

    fn read_sprite<M: MemoryInterface>(&self, memory: &M, address: u16) -> (r: Sprite)
        requires
            memory.mem_wf(),
            address <= 0xFFFC,
        ensures
            r == spec_read_sprite(*memory, address),
    {
        Sprite {
            y_pos: memory.read_byte(address),
            x_pos: memory.read_byte(address + 1),
            tile_number: memory.read_byte(address + 2),
            flags: memory.read_byte(address + 3),
        }
    }

    fn handle_oam<M: MemoryInterface>(&mut self, memory: &M)
        requires
            old(self).wf(),
            old(self).mode == PPUMode::OAM_SCAN,
            memory.mem_wf(),
        ensures
            final(self)@ == spec_handle_oam(old(self)@, *memory),
            final(self).wf(),
    {
        if self.mode_cycles % 2 != 0 {
            let current_entry = self.mode_cycles / 2;
            let sprite = self.read_sprite(memory, 0xFE00 + (current_entry as u16 * 4));
            let ly = self.get_io_register(memory, IoRegister::Ly);
            let lcdc = self.get_io_register(memory, IoRegister::Lcdc);
            if should_add_sprite(&sprite, ly, lcdc, self.sprite_buffer.len()) {
                self.sprite_buffer.push(sprite);
            }
        }
        if self.mode_cycles >= 80 {
            self.mode = PPUMode::DRAWING;
            sort_sprites(&mut self.sprite_buffer);
            proof { lemma_sort_len(old(self).sprite_buffer@.push(spec_read_sprite(*memory, (0xFE00 + (old(self).mode_cycles / 2) * 4) as u16))); }
            proof { lemma_sort_len(old(self).sprite_buffer@); }
        }
    }

    fn shift_pixel<M: MemoryInterface>(&mut self, memory: &M)
        requires
            old(self).wf(),
            old(self).x_render_counter < 160,
            memory.mem_wf(),
        ensures
            final(self)@ == spec_shift(old(self)@, *memory),
            final(self).wf(),
            final(self).mode == old(self).mode,
            final(self).mode_cycles == old(self).mode_cycles,
    {
        if !self.pixel_fifo.is_paused(self.sprite_fetcher.active, self.fetcher.pause) {
            let scx = self.get_io_register(memory, IoRegister::Scx);
            let lcdc = self.get_io_register(memory, IoRegister::Lcdc);
            let bgp = self.get_io_register(memory, IoRegister::Bgp);
            let obp0 = self.get_io_register(memory, IoRegister::Obp0);
            let obp1 = self.get_io_register(memory, IoRegister::Obp1);
            let gb_mode = memory.gb_mode();
            if let Some(color_value) = self.pixel_fifo.pop_pixel(&mut self.fetcher, scx, gb_mode, lcdc, bgp, obp0, obp1) {
                let ly = self.get_io_register(memory, IoRegister::Ly);
                if self.x_render_counter >= 0 && self.x_render_counter < 160 && (ly as usize) < 144 {
                    let buffer_index = ly as usize * 160 + self.x_render_counter as usize;
                    let final_color = match color_value {
                        ColorValue::Dmg(color_index) => {
                            proof { assert(color_index & 0x03 < 4) by { crate::bits::lemma_byte_bits(); crate::bits::lemma_word_bits(); } }
                            self.palette[(color_index & 0x03) as usize]
                        },
                        ColorValue::Cgb(rgb) => rgb | 0xFF00_0000,
                    };
                    self.buffer[buffer_index] = final_color;
                }
                self.fetcher.x_pos_counter = self.fetcher.x_pos_counter.wrapping_add(1);
                self.x_render_counter = self.x_render_counter + 1;
            }
        }
    }

    fn window_stage<M: MemoryInterface>(&mut self, memory: &M)
        requires
            old(self).wf(),
            memory.mem_wf(),
        ensures
            final(self)@ == spec_window_stage(old(self)@, *memory),
            final(self).wf(),
            final(self).mode == old(self).mode,
            final(self).mode_cycles == old(self).mode_cycles,
    {
        if !self.fetcher.is_window_fetch {
            if self.check_window(memory) {
                self.fetcher.window_trigger(&mut self.pixel_fifo);
                if !self.window_line_counter_incremented_this_scanline {
                    self.window_line_counter_incremented_this_scanline = true;
                }
            }
        }
    }

    fn sprite_stage(&mut self)
        requires
            old(self).wf(),
        ensures
            final(self)@ == spec_sprite_stage(old(self)@),
            final(self).wf(),
            final(self).mode == old(self).mode,
            final(self).mode_cycles == old(self).mode_cycles,
    {
        proof { lemma_first_fetchable_bound(self.sprite_buffer@, self.x_render_counter); }
        if !self.sprite_fetcher.active && self.debug_config.sprite_debug_enabled {
            if let Some(sprite) = should_fetch_sprite(self.x_render_counter, &mut self.sprite_buffer) {
                self.sprite_fetcher.start_fetch(&sprite);
            }
        }
    }

    fn fetch_stage<M: MemoryInterface>(&mut self, memory: &M)
        requires
            old(self).wf(),
            memory.mem_wf(),
        ensures
            final(self)@ == spec_fetch_stage(old(self)@, *memory),
            final(self).wf(),
            final(self).mode == old(self).mode,
            final(self).mode_cycles == old(self).mode_cycles,
    {
        if self.mode_cycles % 2 == 0 {
            let lcdc = self.get_io_register(memory, IoRegister::Lcdc);
            let scy = self.get_io_register(memory, IoRegister::Scy);
            let scx = self.get_io_register(memory, IoRegister::Scx);
            let ly = self.get_io_register(memory, IoRegister::Ly);
            let wx = self.get_io_register(memory, IoRegister::Wx);
            let bgp = self.get_io_register(memory, IoRegister::Bgp);
            let gb_mode = memory.gb_mode();
            self.fetcher.step(lcdc, scy, scx, ly, wx, bgp, gb_mode, memory, &mut self.pixel_fifo);
            if self.sprite_fetcher.active {
                self.fetcher.pause();
                self.sprite_fetcher.step(&mut self.pixel_fifo, ly, lcdc, gb_mode, memory);
            } else {
                self.fetcher.unpause();
            }
        }
    }

    fn handle_drawing<M: MemoryInterface>(&mut self, memory: &M)
        requires
            old(self).wf(),
            old(self).mode == PPUMode::DRAWING,
            memory.mem_wf(),
        ensures
            final(self)@ == spec_handle_drawing(old(self)@, *memory),
            final(self).wf(),
    {
        if self.x_render_counter >= X_POSITION_COUNTER_MAX as i16 {
            self.mode = PPUMode::HBLANK;
            return;
        }
        self.shift_pixel(memory);
        self.window_stage(memory);
        self.sprite_stage();
        self.fetch_stage(memory);
    }

    /// H-blank pads the line to 456 dots; nothing happens.
    fn handle_hblank(&mut self)
        ensures
            *final(self) == *old(self),
    {
    }

    fn handle_vblank<M: MemoryInterface>(&mut self, memory: &mut M)
        requires
            old(memory).mem_wf(),
        ensures
            (final(self)@, *final(memory)) == spec_handle_vblank(old(self)@, *old(memory)),
            *final(self) == (PPU { new_frame: true, ..*old(self) }),
            final(memory).mem_wf(),
    {
        let if_register = self.get_io_register(memory, IoRegister::If);
        self.set_io_register(memory, IoRegister::If, if_register | 0b0000_0001);
        self.new_frame = true;
    }

    fn update_stat<M: MemoryInterface>(&mut self, memory: &mut M)
        requires
            old(memory).mem_wf(),
        ensures
            (final(self)@, *final(memory)) == spec_update_stat(old(self)@, *old(memory)),
            *final(self) == (PPU { previous_stat_conditions: final(self).previous_stat_conditions, ..*old(self) }),
            final(memory).mem_wf(),
    {
        let ppu_mode: u8 = match self.mode {
            PPUMode::HBLANK => 0b00,
            PPUMode::VBLANK => 0b01,
            PPUMode::OAM_SCAN => 0b10,
            PPUMode::DRAWING => 0b11,
        };
        let mut stat = (self.get_io_register(memory, IoRegister::Stat) & 0b11111100) | ppu_mode;
        let ly = self.get_io_register(memory, IoRegister::Ly);
        let lyc = self.get_io_register(memory, IoRegister::Lyc);
        let coincidence = ly == lyc;
        stat = (stat & 0b11111011) | if coincidence { 0b100 } else { 0 };
        let lyc_condition: u8 = if coincidence && (stat & 0b01000000 != 0) { 0b0001 } else { 0 };
        let mode_condition: u8 = if ppu_mode == 0b00 && stat & 0b00001000 != 0 {
            0b0010
        } else if ppu_mode == 0b01 && stat & 0b00010000 != 0 {
            0b0100
        } else if ppu_mode == 0b10 && stat & 0b00100000 != 0 {
            0b1000
        } else {
            0
        };
        let current_conditions = lyc_condition | mode_condition;
        if current_conditions != 0 && self.previous_stat_conditions == 0 {
            let if_reg = self.get_io_register(memory, IoRegister::If);
            self.set_io_register(memory, IoRegister::If, if_reg | 0b0000_0010);
        }
        self.previous_stat_conditions = current_conditions;
        stat |= 0b1000_0000;
        self.set_io_register(memory, IoRegister::Stat, stat);
    }

    fn line_end<M: MemoryInterface>(&mut self, memory: &mut M, ly: u8)
        requires
            old(self).wf(),
            old(memory).mem_wf(),
        ensures
            (final(self)@, *final(memory)) == spec_line_end(old(self)@, *old(memory), ly),
            final(self).wf(),
            final(self).mode_cycles == 0,
            final(memory).mem_wf(),
    {
        self.reset_scanline();
        if ly < VBLANK_START_SCANLINE {
            self.set_io_register(memory, IoRegister::Ly, ly + 1);
            self.mode = PPUMode::OAM_SCAN;
        } else if ly == VBLANK_START_SCANLINE {
            self.mode = PPUMode::VBLANK;
            self.handle_vblank(memory);
            self.set_io_register(memory, IoRegister::Ly, ly + 1);
        } else if ly >= SCANLINE_Y_COUNTER_MAX {
            self.reset_frame(memory);
        } else {
            self.set_io_register(memory, IoRegister::Ly, ly + 1);
        }
    }

    fn mode_step<M: MemoryInterface>(&mut self, memory: &M)
        requires
            old(self).wf(),
            memory.mem_wf(),
        ensures
            final(self)@ == spec_mode_step(old(self)@, *memory),
            final(self).wf(),
    {
        match self.mode {
            PPUMode::OAM_SCAN => self.handle_oam(memory),
            PPUMode::DRAWING => self.handle_drawing(memory),
            PPUMode::HBLANK => self.handle_hblank(),
            PPUMode::VBLANK => {},
        }
    }

    /// One dot of the PPU.
    pub fn tick<M: MemoryInterface>(&mut self, memory: &mut M)
        requires
            old(self).wf(),
            old(memory).mem_wf(),
        ensures
            (final(self)@, *final(memory)) == spec_ppu_tick(old(self)@, *old(memory)),
            final(self).wf(),
            final(memory).mem_wf(),
    {
        if memory.gb_mode() == GameboyMode::DMG {
            let lcdc = self.get_io_register(memory, IoRegister::Lcdc);
            if (lcdc & 0x80) == 0 {
                return;
            }
        }
        let ly = self.get_io_register(memory, IoRegister::Ly);
        self.mode_step(memory);
        if self.mode_cycles >= CYCLES_PER_SCANLINE {
            self.line_end(memory, ly);
        }
        self.update_stat(memory);
        self.mode_cycles = self.mode_cycles + 1;
    }
}


/// Restoring a PPU's pipeline from its own save gives the pipeline back (frame buffer,
/// palette and debug switches untouched).
pub proof fn lemma_ppu_save_load_roundtrip(p: PPU, st: PPUState, r: PPU)
    requires
        p.spec_saved_as(st),
        r.spec_saved_as(PPUState { debug_config: p.debug_config, ..st }),
        r.buffer@ == p.buffer@,
        r.palette == p.palette,
    ensures
        r@ == p@,
{
}

/// The sorted line buffer is in `sprite_before` order: no sprite goes before one ahead of it.
pub proof fn lemma_sort_sprites_ordered(s: Seq<Sprite>)
    ensures
        forall|i: int, j: int|
            0 <= i < j < spec_sort_sprites(s).len() ==> !sprite_before(
                #[trigger] spec_sort_sprites(s)[j],
                #[trigger] spec_sort_sprites(s)[i],
            ),
    decreases s.len(),
{
    if s.len() > 0 {
        let t = spec_sort_sprites(s.drop_last());
        let x = s.last();
        lemma_sort_sprites_ordered(s.drop_last());
        lemma_insert_position_bound(t, x);
        lemma_insert_position_facts(t, x);
        let p = spec_insert_position(t, x);
        let u = t.insert(p, x);
        assert forall|i: int, j: int| 0 <= i < j < u.len() implies !sprite_before(#[trigger] u[j], #[trigger] u[i]) by {
            if j < p {
                assert(u[i] == t[i] && u[j] == t[j]);
            } else if j == p {
                assert(u[i] == t[i]);
            } else if i < p {
                assert(u[i] == t[i] && u[j] == t[j - 1]);
                if i < j - 1 {
                } 
            } else if i == p {
                assert(u[j] == t[j - 1]);
            } else {
                assert(u[i] == t[i - 1] && u[j] == t[j - 1]);
            }
        }
    }
}

/// Sorting keeps the line buffer's sprites: the result holds the same sprites, each as
/// often.
pub proof fn lemma_sort_sprites_permutation(s: Seq<Sprite>)
    ensures
        spec_sort_sprites(s).to_multiset() == s.to_multiset(),
    decreases s.len(),
{
    if s.len() > 0 {
        let t = spec_sort_sprites(s.drop_last());
        let x = s.last();
        lemma_sort_sprites_permutation(s.drop_last());
        lemma_insert_position_bound(t, x);
        vstd::seq_lib::lemma_multiset_commutative(s.drop_last(), seq![x]);
        assert(s =~= s.drop_last() + seq![x]);
        let p = spec_insert_position(t, x);
        assert(t.insert(p, x) =~= t.subrange(0, p) + seq![x] + t.subrange(p, t.len() as int));
        assert(t =~= t.subrange(0, p) + t.subrange(p, t.len() as int));
        vstd::seq_lib::lemma_multiset_commutative(t.subrange(0, p), seq![x]);
        vstd::seq_lib::lemma_multiset_commutative(t.subrange(0, p) + seq![x], t.subrange(p, t.len() as int));
        vstd::seq_lib::lemma_multiset_commutative(t.subrange(0, p), t.subrange(p, t.len() as int));
        vstd::seq_lib::lemma_multiset_commutative(t, seq![x]);
    }
}

/// What the insert position is: everything before it does not follow `x`, and the sprite at
/// it (if any) follows `x`.
proof fn lemma_insert_position_facts(s: Seq<Sprite>, x: Sprite)
    ensures
        forall|j: int| 0 <= j < spec_insert_position(s, x) ==> !sprite_before(x, #[trigger] s[j]),
        spec_insert_position(s, x) < s.len() ==> sprite_before(x, s[spec_insert_position(s, x)]),
    decreases s.len(),
{
    lemma_insert_position_bound(s, x);
    if s.len() > 0 && !sprite_before(x, s[0]) {
        let t = s.drop_first();
        lemma_insert_position_facts(t, x);
        lemma_insert_position_bound(t, x);
        assert forall|j: int| 0 <= j < spec_insert_position(s, x) implies !sprite_before(x, #[trigger] s[j]) by {
            if j > 0 {
                assert(s[j] == t[j - 1]);
            }
        }
        if spec_insert_position(s, x) < s.len() {
            assert(s[spec_insert_position(s, x)] == t[spec_insert_position(t, x)]);
        }
    }
}

} // verus!
