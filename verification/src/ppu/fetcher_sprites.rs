use vstd::prelude::*;
use crate::bus::{GameboyMode, MemoryInterface};
use crate::ppu::fetcher::{spec_bit, spec_tile_color, tile_color};
use crate::ppu::pixelfifo::{colors_ok, Pixel, PixelFifo};
use crate::ppu::Sprite;

verus! {

/// The sprite tile fetcher: it reads a sprite's tile row and merges it into the sprite FIFO.
#[derive(Clone, Copy, Debug, PartialEq, Eq, Structural)]
pub struct SpriteFetcher {
    pub step: u8,
    pub tile_number: u8,
    pub tile_data_low: u8,
    pub tile_data_high: u8,
    pub active: bool,
    pub remaining_pixels: u8,
    pub sprite: Sprite,
}

/// A byte with its bits in reverse order.
pub open spec fn spec_reverse_bits(x: u8) -> u8 {
    (spec_bit(x, 0) * 128 + spec_bit(x, 1) * 64 + spec_bit(x, 2) * 32 + spec_bit(x, 3) * 16
        + spec_bit(x, 4) * 8 + spec_bit(x, 5) * 4 + spec_bit(x, 6) * 2 + spec_bit(x, 7)) as u8
}

pub fn reverse_bits(x: u8) -> (r: u8)
    ensures
        r == spec_reverse_bits(x),
{
    let r = ((x & 1) << 7) | ((x & 2) << 5) | ((x & 4) << 3) | ((x & 8) << 1) | ((x & 16) >> 1)
        | ((x & 32) >> 3) | ((x & 64) >> 5) | ((x & 128) >> 7);
    proof {
        assert(((x & 1) << 7u8) | ((x & 2) << 5u8) | ((x & 4) << 3u8) | ((x & 8) << 1u8) | ((x & 16) >> 1u8)
            | ((x & 32) >> 3u8) | ((x & 64) >> 5u8) | ((x & 128) >> 7u8)
            == (((x >> 0u8) & 1) * 128 + ((x >> 1u8) & 1) * 64 + ((x >> 2u8) & 1) * 32 + ((x >> 3u8) & 1) * 16
            + ((x >> 4u8) & 1) * 8 + ((x >> 5u8) & 1) * 4 + ((x >> 6u8) & 1) * 2 + ((x >> 7u8) & 1)) as u8)
            by (bit_vector);
    }
    r
}

/// A transparent sprite pixel, as the FIFO is padded with.
pub open spec fn spec_transparent(gb_mode: GameboyMode) -> Pixel {
    Pixel::spec_new_sprite(0, 0, gb_mode)
}

impl SpriteFetcher {
    pub open spec fn spec_new() -> SpriteFetcher {
        SpriteFetcher {
            step: 0,
            tile_number: 0,
            tile_data_low: 0,
            tile_data_high: 0,
            active: false,
            remaining_pixels: 0,
            sprite: Sprite { y_pos: 0, x_pos: 0, tile_number: 0, flags: 0 },
        }
    }

    pub fn new() -> (r: SpriteFetcher)
        ensures
            r == SpriteFetcher::spec_new(),
    {
        SpriteFetcher {
            step: 0,
            tile_number: 0,
            tile_data_low: 0,
            tile_data_high: 0,
            active: false,
            remaining_pixels: 0,
            sprite: Sprite::new(),
        }
    }

    pub open spec fn spec_scanline_reset(self) -> SpriteFetcher {
        SpriteFetcher { step: 0, active: false, remaining_pixels: 0, ..self }
    }

    pub fn scanline_reset(&mut self)
        ensures
            *final(self) == old(self).spec_scanline_reset(),
    {
        self.step = 0;
        self.active = false;
        self.remaining_pixels = 0;
    }

    pub open spec fn spec_start_fetch(self, sprite: Sprite) -> SpriteFetcher {
        SpriteFetcher {
            step: 0,
            sprite,
            active: true,
            remaining_pixels: if sprite.x_pos >= 8 { 8 } else { sprite.x_pos },
            tile_number: sprite.tile_number,
            ..self
        }
    }

    /// Starts fetching a sprite's tile row.
    pub fn start_fetch(&mut self, sprite: &Sprite)
        ensures
            *final(self) == old(self).spec_start_fetch(*sprite),
    {
        self.step = 0;
        self.sprite = *sprite;
        self.active = true;
        self.remaining_pixels = if sprite.x_pos >= 8 { 8 } else { sprite.x_pos };
        self.fetch_tile_number(sprite);
    }

    fn fetch_tile_number(&mut self, sprite: &Sprite)
        ensures
            *final(self) == (SpriteFetcher { tile_number: sprite.tile_number, ..*old(self) }),
    {
        self.tile_number = sprite.tile_number;
    }

    /// The address of the requested byte of the sprite's tile row for line `ly`: the row is
    /// `ly - Y` (modulo 256), flipped by flag bit 6, within a tile of the LCDC height (for
    /// 8x16 sprites the tile number's bit 0 is ignored); tiles are at 0x8000 + 16 * tile.
    pub open spec fn spec_data_address(&self, is_high_byte: bool, ly: u8, lcdc: u8) -> u16 {
        let size: u8 = if lcdc & 0x04 != 0 { 16 } else { 8 };
        let rel = ly.wrapping_sub(self.sprite.y_pos);
        let y_line = if self.sprite.flags & 0x40 != 0 { ((size - 1) as u8).wrapping_sub(rel) } else { rel };
        let tile = if size == 16 { self.tile_number & 0b11111110 } else { self.tile_number };
        (0x8000 + tile * 16 + 2 * (y_line % size) + if is_high_byte { 1int } else { 0int }) as u16
    }

    /// The byte read for the row (bank from flag bit 3 in colour mode), mirrored by flag
    /// bit 5.
    pub open spec fn spec_tile_data<M: MemoryInterface>(
        &self,
        is_high_byte: bool,
        ly: u8,
        lcdc: u8,
        gb_mode: GameboyMode,
        memory: M,
    ) -> u8 {
        let bank: usize = if gb_mode == GameboyMode::CGB { ((self.sprite.flags >> 3) & 1) as usize } else { 0 };
        let data = memory.spec_read_vram_bank(self.spec_data_address(is_high_byte, ly, lcdc), bank);
        if self.sprite.flags & 0x20 != 0 { spec_reverse_bits(data) } else { data }
    }

    fn fetch_tile_data<M: MemoryInterface>(
        &self,
        is_high_byte: bool,
        ly: u8,
        lcdc: u8,
        gb_mode: GameboyMode,
        memory: &M,
    ) -> (r: u8)
        requires
            memory.mem_wf(),
        ensures
            r == self.spec_tile_data(is_high_byte, ly, lcdc, gb_mode, *memory),
    {
        let y_flip = self.sprite.flags & 0x40 != 0;
        let x_flip = self.sprite.flags & 0x20 != 0;
        let sprite_size: u8 = if lcdc & 0x04 != 0 { 16 } else { 8 };
        let relative_y = ly.wrapping_sub(self.sprite.y_pos);
        let y_line = if y_flip { (sprite_size - 1).wrapping_sub(relative_y) } else { relative_y };
        let actual_tile = if sprite_size == 16 { self.tile_number & 0b11111110 } else { self.tile_number };
        let y_offset = 2 * (y_line % sprite_size) as u16;
        let base_address = 0x8000 + (actual_tile as u16 * 16);
        let address = base_address + y_offset + if is_high_byte { 1 } else { 0 };
        let flags = self.sprite.flags;
        proof { assert((flags >> 3) & 1 <= 1) by { crate::bits::lemma_byte_bits(); crate::bits::lemma_word_bits(); } }
        let mut data = match gb_mode {
            GameboyMode::DMG => memory.read_byte_vram_bank(address, 0),
            GameboyMode::CGB => {
                let selected_bank = (self.sprite.flags >> 3) & 0b1;
                memory.read_byte_vram_bank(address, selected_bank as usize)
            },
        };
        if x_flip {
            data = reverse_bits(data);
        }
        data
    }

    /// The sprite FIFO after merging this sprite's row into the first `k` slots: the FIFO is
    /// padded with transparent pixels to at least `k`; an opaque sprite pixel replaces the
    /// slot's pixel in colour mode, and only a transparent one in DMG mode.
    pub open spec fn spec_merge_upto(&self, fifo: Seq<Pixel>, gb_mode: GameboyMode, k: int) -> Seq<Pixel> {
        let n = if fifo.len() >= k { fifo.len() as int } else { k };
        Seq::new(
            n as nat,
            |i: int| {
                let base = if i < fifo.len() { fifo[i] } else { spec_transparent(gb_mode) };
                let c = spec_tile_color(self.tile_data_low, self.tile_data_high, i);
                if i < k && c != 0 && (gb_mode == GameboyMode::CGB || base.color == 0) {
                    Pixel::spec_new_sprite(c, self.sprite.flags, gb_mode)
                } else {
                    base
                }
            },
        )
    }

    fn push_to_fifo(&self, pixel_fifo: &mut PixelFifo, gb_mode: GameboyMode)
        requires
            old(pixel_fifo).wf(),
        ensures
            final(pixel_fifo).wf(),
            final(pixel_fifo).sprite_fifo@ == self.spec_merge_upto(old(pixel_fifo).sprite_fifo@, gb_mode, 8),
            final(pixel_fifo).bg_fifo@ == old(pixel_fifo).bg_fifo@,
            final(pixel_fifo).fine_scroll_applied == old(pixel_fifo).fine_scroll_applied,
    {
        let ghost start = pixel_fifo.sprite_fifo@;
        let mut bit: u8 = 0;
        while bit < 8
            invariant
                bit <= 8,
                start == old(pixel_fifo).sprite_fifo@,
                start.len() <= 8,
                colors_ok(start),
                pixel_fifo.sprite_fifo@ == self.spec_merge_upto(start, gb_mode, bit as int),
                pixel_fifo.bg_fifo@ == old(pixel_fifo).bg_fifo@,
                pixel_fifo.fine_scroll_applied == old(pixel_fifo).fine_scroll_applied,
            decreases 8 - bit,
        {
            let color = tile_color(self.tile_data_low, self.tile_data_high, bit);
            if pixel_fifo.sprite_fifo.len() <= bit as usize {
                pixel_fifo.sprite_fifo.push_back(Pixel::new_sprite(0, 0, gb_mode));
            }
            assert(pixel_fifo.sprite_fifo@.len() > bit);
            if color != 0 {
                let existing = pixel_fifo.sprite_fifo[bit as usize];
                let new_pixel = Pixel::new_sprite(color, self.sprite.flags, gb_mode);
                let replace = match gb_mode {
                    GameboyMode::DMG => existing.color == 0,
                    GameboyMode::CGB => true,
                };
                if replace {
                    let _ = pixel_fifo.sprite_fifo.remove(bit as usize);
                    pixel_fifo.sprite_fifo.insert(bit as usize, new_pixel);
                }
            }
            proof {
                assert(pixel_fifo.sprite_fifo@ =~= self.spec_merge_upto(start, gb_mode, bit as int + 1));
            }
            bit += 1;
        }
        proof {
            let s = pixel_fifo.sprite_fifo@;
            assert forall|i: int| 0 <= i < s.len() implies #[trigger] s[i].color <= 3 by {
                let c = spec_tile_color(self.tile_data_low, self.tile_data_high, i);
                assert(spec_bit(self.tile_data_high, 7 - i) <= 1 && spec_bit(self.tile_data_low, 7 - i) <= 1) by {
                    assert(forall|x: u8, k: u8| #[trigger] ((x >> k) & 1) <= 1) by (bit_vector);
                }
            }
        }
    }

    /// The sprite fetcher after one step: step 0 reads the low and step 1 the high data byte,
    /// step 2 merges the row into the sprite FIFO and ends the fetch.
    pub open spec fn spec_step<M: MemoryInterface>(self, ly: u8, lcdc: u8, gb_mode: GameboyMode, memory: M) -> SpriteFetcher {
        if self.step == 0 {
            SpriteFetcher { step: 1, tile_data_low: self.spec_tile_data(false, ly, lcdc, gb_mode, memory), ..self }
        } else if self.step == 1 {
            SpriteFetcher { step: 2, tile_data_high: self.spec_tile_data(true, ly, lcdc, gb_mode, memory), ..self }
        } else if self.step == 2 {
            self.spec_scanline_reset()
        } else {
            SpriteFetcher { step: 0, ..self }
        }
    }

    /// One sprite-fetcher step.
    pub fn step<M: MemoryInterface>(
        &mut self,
        pixel_fifo: &mut PixelFifo,
        ly: u8,
        lcdc: u8,
        gb_mode: GameboyMode,
        memory: &M,
    )
        requires
            memory.mem_wf(),
            old(pixel_fifo).wf(),
        ensures
            final(pixel_fifo).wf(),
            *final(self) == old(self).spec_step(ly, lcdc, gb_mode, *memory),
            final(pixel_fifo).sprite_fifo@ == (if old(self).step == 2 {
                old(self).spec_merge_upto(old(pixel_fifo).sprite_fifo@, gb_mode, 8)
            } else {
                old(pixel_fifo).sprite_fifo@
            }),
            final(pixel_fifo).bg_fifo@ == old(pixel_fifo).bg_fifo@,
            final(pixel_fifo).fine_scroll_applied == old(pixel_fifo).fine_scroll_applied,
    {
        match self.step {
            0 => {
                self.tile_data_low = self.fetch_tile_data(false, ly, lcdc, gb_mode, memory);
                self.step = self.step + 1;
            },
            1 => {
                self.tile_data_high = self.fetch_tile_data(true, ly, lcdc, gb_mode, memory);
                self.step = self.step + 1;
            },
            2 => {
                self.push_to_fifo(pixel_fifo, gb_mode);
                self.scanline_reset();
            },
            _ => {
                self.step = 0;
            },
        }
    }
}

} // verus!
