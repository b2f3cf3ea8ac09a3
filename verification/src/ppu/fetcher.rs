use vstd::prelude::*;
use crate::bus::{GameboyMode, MemoryInterface};
use crate::ppu::pixelfifo::{colors_ok, Pixel, PixelFifo};
use crate::cpu::block0::signed8;

verus! {

/// What the background fetcher keeps while a sprite fetch holds it.
#[derive(Clone, Copy, Debug, PartialEq, Eq, Structural)]
pub struct FetcherState {
    pub step: u8,
    pub tile_number: u8,
    pub tile_data_low: u8,
    pub tile_data_high: u8,
    pub tile_attrs: u8,
}

/// The background/window tile fetcher of the pixel pipeline.
#[derive(Clone, Copy, Debug, PartialEq, Eq, Structural)]
pub struct Fetcher {
    pub step: u8,
    pub tile_number: u8,
    pub tile_data_low: u8,
    pub tile_data_high: u8,
    pub is_window_fetch: bool,
    pub x_pos_counter: u16,
    pub window_line_counter: u16,
    pub pause: bool,
    pub delay: usize,
    /// CGB tile attributes (0 in DMG mode).
    pub tile_attrs: u8,
    pub saved_state: Option<FetcherState>,
}

/// Bit `i` (0 = least significant) of a byte.
pub open spec fn spec_bit(x: u8, i: int) -> u8 {
    ((x >> (i as u8)) & 1) as u8
}

/// The colour number of pixel `i` (0 = leftmost) of a tile row with the given data bytes:
/// bit 7 - i of the high byte, then of the low byte.
pub open spec fn spec_tile_color(low: u8, high: u8, i: int) -> u8 {
    (spec_bit(high, 7 - i) * 2 + spec_bit(low, 7 - i)) as u8
}

pub fn tile_color(low: u8, high: u8, i: u8) -> (r: u8)
    requires
        i < 8,
    ensures
        r == spec_tile_color(low, high, i as int),
        r <= 3,
{
    let low_bit = (low >> (7 - i)) & 0x1;
    let high_bit = (high >> (7 - i)) & 0x1;
    proof {
        assert(((high >> (7 - i) as u8) & 1) << 1u8 | ((low >> (7 - i) as u8) & 1)
            == ((high >> (7 - i) as u8) & 1) * 2 + ((low >> (7 - i) as u8) & 1)) by (bit_vector);
        assert((high >> (7 - i) as u8) & 1 <= 1) by { crate::bits::lemma_byte_bits(); crate::bits::lemma_word_bits(); }
        assert((low >> (7 - i) as u8) & 1 <= 1) by { crate::bits::lemma_byte_bits(); crate::bits::lemma_word_bits(); }
    }
    (high_bit << 1) | low_bit
}

/// The tile map the fetcher reads: LCDC bit 6 (window) or bit 3 (background) selects
/// 0x9C00 over 0x9800.
pub open spec fn spec_tile_map_base(is_window: bool, lcdc: u8) -> u16 {
    if is_window {
        if lcdc & 0x40 != 0 { 0x9C00 } else { 0x9800 }
    } else {
        if lcdc & 0x08 != 0 { 0x9C00 } else { 0x9800 }
    }
}

/// The address of a tile's data: 0x8000 + 16 * tile with LCDC bit 4 set, else
/// 0x9000 + 16 * tile with the tile number signed.
pub open spec fn spec_tile_data_base(lcdc: u8, tile: u8) -> u16 {
    if lcdc & 0x10 != 0 {
        (0x8000 + tile * 16) as u16
    } else if tile < 128 {
        (0x9000 + tile * 16) as u16
    } else {
        (0x9000 - (256 - tile) * 16) as u16
    }
}

impl Fetcher {
    pub open spec fn spec_new() -> Fetcher {
        Fetcher {
            step: 0,
            tile_number: 0,
            tile_data_low: 0,
            tile_data_high: 0,
            is_window_fetch: false,
            x_pos_counter: 0,
            window_line_counter: 0,
            pause: false,
            delay: 0,
            tile_attrs: 0,
            saved_state: None,
        }
    }

    pub fn new() -> (r: Fetcher)
        ensures
            r == Fetcher::spec_new(),
    {
        Fetcher {
            step: 0,
            tile_number: 0,
            tile_data_low: 0,
            tile_data_high: 0,
            is_window_fetch: false,
            x_pos_counter: 0,
            window_line_counter: 0,
            pause: false,
            delay: 0,
            tile_attrs: 0,
            saved_state: None,
        }
    }

    pub open spec fn spec_scanline_reset(self) -> Fetcher {
        Fetcher { step: 0, is_window_fetch: false, x_pos_counter: 0, pause: false, ..self }
    }

    pub fn scanline_reset(&mut self)
        ensures
            *final(self) == old(self).spec_scanline_reset(),
    {
        self.step = 0;
        self.is_window_fetch = false;
        self.x_pos_counter = 0;
        self.pause = false;
    }

    /// Switches to fetching the window: restarts the fetch at window column 7 and empties
    /// the pixel FIFOs.
    pub fn window_trigger(&mut self, pixel_fifo: &mut PixelFifo)
        ensures
            *final(self) == (Fetcher { step: 0, is_window_fetch: true, x_pos_counter: 7, ..*old(self) }),
            final(pixel_fifo).bg_fifo@ == Seq::<Pixel>::empty(),
            final(pixel_fifo).sprite_fifo@ == Seq::<Pixel>::empty(),
            !final(pixel_fifo).fine_scroll_applied,
            final(pixel_fifo).wf(),
    {
        self.step = 0;
        self.is_window_fetch = true;
        self.x_pos_counter = 7;
        pixel_fifo.reset();
    }

    fn get_tile_map_base(&self, lcdc: u8) -> (r: u16)
        ensures
            r == spec_tile_map_base(self.is_window_fetch, lcdc),
    {
        if self.is_window_fetch {
            if (lcdc & 0x40) != 0 { 0x9C00 } else { 0x9800 }
        } else {
            if (lcdc & 0x08) != 0 { 0x9C00 } else { 0x9800 }
        }
    }

    /// The tile-map address of the tile under the fetcher (arithmetic modulo 2^16).
    pub open spec fn spec_tile_address(&self, lcdc: u8, scy: u8, scx: u8, ly: u8) -> u16 {
        let (tile_y, tile_x) = if self.is_window_fetch {
            (self.window_line_counter / 8, self.x_pos_counter / 8)
        } else {
            ((ly.wrapping_add(scy) as u16) / 8, (scx as u16).wrapping_add(self.x_pos_counter) / 8)
        };
        ((spec_tile_map_base(self.is_window_fetch, lcdc) + tile_y * 32 + tile_x) % 0x10000) as u16
    }

    pub open spec fn spec_fetch_tile_number<M: MemoryInterface>(
        self,
        lcdc: u8,
        scy: u8,
        scx: u8,
        ly: u8,
        gb_mode: GameboyMode,
        memory: M,
    ) -> Fetcher {
        let a = self.spec_tile_address(lcdc, scy, scx, ly);
        Fetcher {
            tile_number: memory.spec_read_vram_bank(a, 0),
            tile_attrs: if gb_mode == GameboyMode::CGB { memory.spec_read_vram_bank(a, 1) } else { 0 },
            ..self
        }
    }

    fn fetch_tile_number<M: MemoryInterface>(
        &mut self,
        lcdc: u8,
        scy: u8,
        scx: u8,
        ly: u8,
        gb_mode: GameboyMode,
        memory: &M,
    )
        requires
            memory.mem_wf(),
        ensures
            *final(self) == old(self).spec_fetch_tile_number(lcdc, scy, scx, ly, gb_mode, *memory),
    {
        let tile_map_base = self.get_tile_map_base(lcdc);
        let (tile_y, tile_x) = if self.is_window_fetch {
            (self.window_line_counter / 8, self.x_pos_counter / 8)
        } else {
            let y_pos = ly.wrapping_add(scy) as u16;
            let x_pos = (scx as u16).wrapping_add(self.x_pos_counter);
            (y_pos / 8, x_pos / 8)
        };
        let tile_address = tile_map_base.wrapping_add(tile_y.wrapping_mul(32)).wrapping_add(tile_x);
        proof {
            assert(tile_y.wrapping_mul(32) == (tile_y * 32) % 0x10000) by { crate::bits::lemma_byte_bits(); crate::bits::lemma_word_bits(); }
        }
        self.tile_number = memory.read_byte_vram_bank(tile_address, 0);
        if gb_mode == GameboyMode::CGB {
            self.tile_attrs = memory.read_byte_vram_bank(tile_address, 1);
        } else {
            self.tile_attrs = 0;
        }
    }

    /// The row offset (2 bytes per row) of the line being drawn within the tile, flipped
    /// vertically by CGB attribute bit 6.
    pub open spec fn spec_y_offset(&self, ly: u8, scy: u8, gb_mode: GameboyMode) -> u16 {
        let y = if self.is_window_fetch {
            (self.window_line_counter % 8) * 2
        } else {
            ((ly as u16 + scy as u16) % 8) * 2
        };
        (if gb_mode == GameboyMode::CGB && self.tile_attrs & 0x40 != 0 { 14 - y } else { y }) as u16
    }

    pub open spec fn spec_tile_data<M: MemoryInterface>(
        &self,
        lcdc: u8,
        ly: u8,
        scy: u8,
        gb_mode: GameboyMode,
        memory: M,
        is_high_byte: bool,
    ) -> u8 {
        let address = (spec_tile_data_base(lcdc, self.tile_number) + self.spec_y_offset(ly, scy, gb_mode)
            + if is_high_byte { 1int } else { 0int }) as u16;
        let bank: usize = if gb_mode == GameboyMode::CGB { ((self.tile_attrs >> 3) & 1) as usize } else { 0 };
        memory.spec_read_vram_bank(address, bank)
    }

    fn fetch_tile_data<M: MemoryInterface>(
        &self,
        lcdc: u8,
        ly: u8,
        scy: u8,
        gb_mode: GameboyMode,
        memory: &M,
        is_high_byte: bool,
    ) -> (r: u8)
        requires
            memory.mem_wf(),
        ensures
            r == self.spec_tile_data(lcdc, ly, scy, gb_mode, *memory, is_high_byte),
    {
        let mut y_offset: u16 = if self.is_window_fetch {
            (self.window_line_counter % 8) * 2
        } else {
            ((ly as u16 + scy as u16) % 8) * 2
        };
        if gb_mode == GameboyMode::CGB && (self.tile_attrs & 0x40) != 0 {
            y_offset = 14 - y_offset;
        }
        let tile = self.tile_number;
        let base_address: u16 = if (lcdc & 0x10) != 0 {
            0x8000 + (tile as u16) * 16
        } else if tile < 128 {
            0x9000 + (tile as u16) * 16
        } else {
            0x9000 - (256 - tile as u16) * 16
        };
        let address = base_address + y_offset + if is_high_byte { 1 } else { 0 };
        let attrs = self.tile_attrs;
        proof { assert((attrs >> 3) & 1 <= 1) by { crate::bits::lemma_byte_bits(); crate::bits::lemma_word_bits(); } }
        let bank: usize = if gb_mode == GameboyMode::CGB { ((self.tile_attrs >> 3) & 0x01) as usize } else { 0 };
        memory.read_byte_vram_bank(address, bank)
    }

    /// The row of eight background pixels the fetched tile data gives, mirrored by CGB
    /// attribute bit 5.
    pub open spec fn spec_row(&self, gb_mode: GameboyMode) -> Seq<Pixel> {
        let flip = gb_mode == GameboyMode::CGB && self.tile_attrs & 0x20 != 0;
        Seq::new(
            8,
            |i: int|
                Pixel::spec_new_bg(
                    spec_tile_color(self.tile_data_low, self.tile_data_high, if flip { 7 - i } else { i }),
                    self.tile_attrs,
                    gb_mode,
                ),
        )
    }

    /// Pushes the fetched row into the background FIFO when it is empty and the fetcher is
    /// not held, and restarts the fetch.
    fn push_to_fifo(&mut self, gb_mode: GameboyMode, pixel_fifo: &mut PixelFifo)
        requires
            old(pixel_fifo).wf(),
        ensures
            final(pixel_fifo).wf(),
            final(pixel_fifo).sprite_fifo@ == old(pixel_fifo).sprite_fifo@,
            final(pixel_fifo).fine_scroll_applied == old(pixel_fifo).fine_scroll_applied,
            (old(pixel_fifo).bg_fifo@.len() != 0 || old(self).pause) ==> *final(self) == *old(self)
                && final(pixel_fifo).bg_fifo@ == old(pixel_fifo).bg_fifo@,
            !(old(pixel_fifo).bg_fifo@.len() != 0 || old(self).pause) ==> *final(self) == (Fetcher {
                step: 0,
                ..*old(self)
            }) && final(pixel_fifo).bg_fifo@ == old(self).spec_row(gb_mode),
    {
        if pixel_fifo.bg_pixel_count() != 0 || self.pause {
            return;
        }
        let flip = gb_mode == GameboyMode::CGB && (self.tile_attrs & 0x20) != 0;
        let mut bit: u8 = 0;
        while bit < 8
            invariant
                bit <= 8,
                flip == (gb_mode == GameboyMode::CGB && self.tile_attrs & 0x20 != 0),
                *self == *old(self),
                pixel_fifo.bg_fifo@ == old(self).spec_row(gb_mode).take(bit as int),
                pixel_fifo.sprite_fifo@ == old(pixel_fifo).sprite_fifo@,
                pixel_fifo.fine_scroll_applied == old(pixel_fifo).fine_scroll_applied,
            decreases 8 - bit,
        {
            let index = if flip { 7 - bit } else { bit };
            let color = tile_color(self.tile_data_low, self.tile_data_high, index);
            let pixel = Pixel::new_bg(color, self.tile_attrs, gb_mode);
            pixel_fifo.bg_fifo.push_back(pixel);
            proof {
                assert(pixel_fifo.bg_fifo@ =~= old(self).spec_row(gb_mode).take(bit as int + 1));
            }
            bit += 1;
        }
        proof {
            assert(old(self).spec_row(gb_mode).take(8) =~= old(self).spec_row(gb_mode));
            assert forall|i: int| 0 <= i < 8 implies #[trigger] pixel_fifo.bg_fifo@[i].color <= 3 by {
                let c = pixel_fifo.bg_fifo@[i].color;
                let j = if flip { 7 - i } else { i };
                let lo = self.tile_data_low;
                let hi = self.tile_data_high;
                assert(c == spec_tile_color(lo, hi, j));
                assert(spec_bit(hi, 7 - j) <= 1 && spec_bit(lo, 7 - j) <= 1) by {
                    assert(forall|x: u8, k: u8| #[trigger] ((x >> k) & 1) <= 1) by (bit_vector);
                }
            }
            assert(colors_ok(pixel_fifo.bg_fifo@));
        }
        self.step = 0;
    }

    pub open spec fn spec_pause(self) -> Fetcher {
        if !self.pause {
            Fetcher {
                saved_state: Some(FetcherState {
                    step: self.step,
                    tile_number: self.tile_number,
                    tile_data_low: self.tile_data_low,
                    tile_data_high: self.tile_data_high,
                    tile_attrs: self.tile_attrs,
                }),
                pause: true,
                ..self
            }
        } else {
            self
        }
    }

    /// Holds the fetcher during a sprite fetch, keeping its progress.
    pub fn pause(&mut self)
        ensures
            *final(self) == old(self).spec_pause(),
    {
        if !self.pause {
            self.saved_state = Some(FetcherState {
                step: self.step,
                tile_number: self.tile_number,
                tile_data_low: self.tile_data_low,
                tile_data_high: self.tile_data_high,
                tile_attrs: self.tile_attrs,
            });
            self.pause = true;
        }
    }

    pub open spec fn spec_unpause(self) -> Fetcher {
        if self.pause {
            match self.saved_state {
                Some(s) => Fetcher {
                    step: s.step,
                    tile_number: s.tile_number,
                    tile_data_low: s.tile_data_low,
                    tile_data_high: s.tile_data_high,
                    tile_attrs: s.tile_attrs,
                    saved_state: None,
                    pause: false,
                    ..self
                },
                None => Fetcher { pause: false, ..self },
            }
        } else {
            self
        }
    }

    /// Releases the fetcher, restoring the progress kept by `pause`.
    pub fn unpause(&mut self)
        ensures
            *final(self) == old(self).spec_unpause(),
    {
        if self.pause {
            if let Some(saved) = self.saved_state {
                self.step = saved.step;
                self.tile_number = saved.tile_number;
                self.tile_data_low = saved.tile_data_low;
                self.tile_data_high = saved.tile_data_high;
                self.tile_attrs = saved.tile_attrs;
                self.saved_state = None;
            }
            self.pause = false;
        }
    }

    /// Whether a step pushes the fetched row: at step 3, not held, with the FIFO empty.
    pub open spec fn spec_step_pushes(&self, bg_len: nat) -> bool {
        !self.pause && self.step == 3 && bg_len == 0
    }

    /// The fetcher after one step: step 0 reads the tile number, 1 the low and 2 the high data
    /// byte, each moving on to the next step; step 3 pushes the row when the FIFO is empty and
    /// restarts at step 0, or waits at step 3 while the FIFO still holds pixels. Any other
    /// step value restarts at 0. Nothing happens while the fetcher is held.
    pub open spec fn spec_step<M: MemoryInterface>(
        self,
        lcdc: u8,
        scy: u8,
        scx: u8,
        ly: u8,
        gb_mode: GameboyMode,
        memory: M,
        bg_len: nat,
    ) -> Fetcher {
        if self.pause {
            self
        } else if self.step == 0 {
            Fetcher { step: 1, ..self.spec_fetch_tile_number(lcdc, scy, scx, ly, gb_mode, memory) }
        } else if self.step == 1 {
            Fetcher { step: 2, tile_data_low: self.spec_tile_data(lcdc, ly, scy, gb_mode, memory, false), ..self }
        } else if self.step == 2 {
            Fetcher { step: 3, tile_data_high: self.spec_tile_data(lcdc, ly, scy, gb_mode, memory, true), ..self }
        } else if self.step == 3 {
            Fetcher { step: if bg_len == 0 { 0 } else { 3 }, ..self }
        } else {
            Fetcher { step: 0, ..self }
        }
    }

    /// One fetcher step (every other dot).
    pub fn step<M: MemoryInterface>(
        &mut self,
        lcdc: u8,
        scy: u8,
        scx: u8,
        ly: u8,
        wx: u8,
        bgp: u8,
        gb_mode: GameboyMode,
        memory: &M,
        pixel_fifo: &mut PixelFifo,
    )
        requires
            memory.mem_wf(),
            old(pixel_fifo).wf(),
        ensures
            final(pixel_fifo).wf(),
            *final(self) == old(self).spec_step(lcdc, scy, scx, ly, gb_mode, *memory, old(pixel_fifo).bg_fifo@.len()),
            final(pixel_fifo).bg_fifo@ == (if old(self).spec_step_pushes(old(pixel_fifo).bg_fifo@.len()) {
                old(self).spec_row(gb_mode)
            } else {
                old(pixel_fifo).bg_fifo@
            }),
            final(pixel_fifo).sprite_fifo@ == old(pixel_fifo).sprite_fifo@,
            final(pixel_fifo).fine_scroll_applied == old(pixel_fifo).fine_scroll_applied,
    {
        if self.pause {
            return;
        }
        match self.step {
            0 => {
                self.fetch_tile_number(lcdc, scy, scx, ly, gb_mode, memory);
                self.step = 1;
            },
            1 => {
                self.tile_data_low = self.fetch_tile_data(lcdc, ly, scy, gb_mode, memory, false);
                self.step = 2;
            },
            2 => {
                self.tile_data_high = self.fetch_tile_data(lcdc, ly, scy, gb_mode, memory, true);
                self.step = 3;
            },
            3 => {
                self.push_to_fifo(gb_mode, pixel_fifo);
            },
            _ => self.step = 0,
        }
    }
}

/// Where a background row's tile data is read: with LCDC bit 4 set, tile `t` starts at
/// 0x8000 + 16 * t; with it clear, the tile number is signed and tile `t` starts at
/// 0x9000 + 16 * t, so tiles 0-127 lie in 0x9000-0x97FF and tiles 128-255 in 0x8800-0x8FFF.
/// The byte read is the row's low byte (high byte one further) at 2 * ((LY + SCY) % 8).
pub proof fn lemma_background_tile_data_address<M: MemoryInterface>(
    f: Fetcher,
    lcdc: u8,
    ly: u8,
    scy: u8,
    memory: M,
    is_high_byte: bool,
)
    requires
        !f.is_window_fetch,
    ensures
        ({
            let t = f.tile_number;
            let start: int = if lcdc & 0x10 != 0 { 0x8000 + 16 * t } else { 0x9000 + 16 * signed8(t) };
            let row = (ly + scy) % 8;
            &&& f.spec_tile_data(lcdc, ly, scy, GameboyMode::DMG, memory, is_high_byte)
                == memory.spec_read_vram_bank((start + 2 * row + if is_high_byte { 1int } else { 0int }) as u16, 0)
            &&& lcdc & 0x10 == 0 && t < 128 ==> 0x9000 <= start && start + 15 <= 0x97FF
            &&& lcdc & 0x10 == 0 && t >= 128 ==> 0x8800 <= start && start + 15 <= 0x8FFF
            &&& lcdc & 0x10 != 0 ==> 0x8000 <= start && start + 15 <= 0x8FFF
        }),
{
    assert(((ly as u16 + scy as u16) % 8) * 2 == 2 * ((ly + scy) % 8));
}

} // verus!
