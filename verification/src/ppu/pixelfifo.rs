use vstd::prelude::*;
use std::collections::VecDeque;
use crate::bus::GameboyMode;
use crate::ppu::fetcher::{spec_tile_color, tile_color, Fetcher};

verus! {

#[derive(Clone, Copy, Debug, PartialEq, Eq, Structural)]
pub struct CgbAttributes {
    pub sprite_priority: bool,
}

/// A pixel in one of the FIFOs: its 2-bit colour number and attributes.
#[derive(Clone, Copy, Debug, PartialEq, Eq, Structural)]
pub struct Pixel {
    pub color: u8,
    pub bg_priority: bool,
    /// CGB: palette 0-7. DMG sprites: 0 = OBP0, 1 = OBP1.
    pub palette: u8,
    pub cgb_attrs: Option<CgbAttributes>,
}

/// The colour the pixel FIFO hands out: a DMG shade (0-3) or a CGB RGB value.
#[derive(Clone, Copy, Debug, PartialEq, Eq, Structural)]
pub enum ColorValue {
    Dmg(u8),
    Cgb(u32),
}

impl Pixel {
    pub open spec fn spec_new_bg_sprite(color: u8) -> Pixel {
        Pixel { color, bg_priority: false, palette: 0, cgb_attrs: None }
    }

    /// A plain pixel of the monochrome pipeline: a colour number and nothing else.
    pub fn new_bg_sprite(color: u8) -> (r: Pixel)
        ensures
            r == Pixel::spec_new_bg_sprite(color),
    {
        Pixel { color, bg_priority: false, palette: 0, cgb_attrs: None }
    }

    /// A monochrome sprite pixel with its priority and palette (OBP1 when `palette`).
    pub open spec fn spec_dmg_sprite(color: u8, bg_priority: bool, palette: bool) -> Pixel {
        Pixel { color, bg_priority, palette: if palette { 1 } else { 0 }, cgb_attrs: None }
    }

    pub open spec fn spec_new_bg(color: u8, attrs: u8, gb_mode: GameboyMode) -> Pixel {
        match gb_mode {
            GameboyMode::DMG => Pixel { color, bg_priority: false, palette: 0, cgb_attrs: None },
            GameboyMode::CGB => Pixel {
                color,
                bg_priority: attrs & 0x80 != 0,
                palette: attrs & 0x07,
                cgb_attrs: Some(CgbAttributes { sprite_priority: false }),
            },
        }
    }

    /// A background pixel; in colour mode the tile attributes give priority (bit 7) and
    /// palette (bits 0-2).
    pub fn new_bg(color: u8, attrs: u8, gb_mode: GameboyMode) -> (r: Pixel)
        ensures
            r == Pixel::spec_new_bg(color, attrs, gb_mode),
    {
        match gb_mode {
            GameboyMode::DMG => Pixel { color, bg_priority: false, palette: 0, cgb_attrs: None },
            GameboyMode::CGB => Pixel {
                color,
                bg_priority: attrs & 0x80 != 0,
                palette: attrs & 0x07,
                cgb_attrs: Some(CgbAttributes { sprite_priority: false }),
            },
        }
    }

    pub open spec fn spec_new_sprite(color: u8, attrs: u8, gb_mode: GameboyMode) -> Pixel {
        match gb_mode {
            GameboyMode::DMG => Pixel {
                color,
                bg_priority: attrs & 0x80 != 0,
                palette: if attrs & 0x10 != 0 { 1 } else { 0 },
                cgb_attrs: None,
            },
            GameboyMode::CGB => Pixel {
                color,
                bg_priority: attrs & 0x80 != 0,
                palette: attrs & 0x07,
                cgb_attrs: Some(CgbAttributes { sprite_priority: attrs & 0x80 != 0 }),
            },
        }
    }

    /// A sprite pixel: priority from flag bit 7; palette from bit 4 (DMG) or bits 0-2 (CGB).
    pub fn new_sprite(color: u8, attrs: u8, gb_mode: GameboyMode) -> (r: Pixel)
        ensures
            r == Pixel::spec_new_sprite(color, attrs, gb_mode),
    {
        match gb_mode {
            GameboyMode::DMG => Pixel {
                color,
                bg_priority: attrs & 0x80 != 0,
                palette: if (attrs & 0x10) != 0 { 1 } else { 0 },
                cgb_attrs: None,
            },
            GameboyMode::CGB => Pixel {
                color,
                bg_priority: attrs & 0x80 != 0,
                palette: attrs & 0x07,
                cgb_attrs: Some(CgbAttributes { sprite_priority: attrs & 0x80 != 0 }),
            },
        }
    }
}

/// The shade (0-3) a 2-bit colour number has in a DMG palette register.
pub open spec fn spec_shade(palette: u8, color: u8) -> u8 {
    (palette >> (color * 2)) & 0x03
}

/// The DMG shade of a screen pixel: the background colour number (0 while LCDC bit 0 is
/// clear) through BGP, unless an opaque sprite pixel (with sprites on, LCDC bit 1) wins: it
/// wins when it has no background priority or the background colour number is 0, and is
/// shown through OBP0 or OBP1.
pub open spec fn spec_mix_dmg(bg: Pixel, sprite: Option<Pixel>, lcdc: u8, bgp: u8, obp0: u8, obp1: u8) -> u8 {
    let bg_color: u8 = if lcdc & 0x01 == 0 { 0 } else { bg.color };
    let bg_shade = spec_shade(bgp, bg_color);
    match sprite {
        Some(s) => if lcdc & 0x02 != 0 && s.color != 0 && (!s.bg_priority || bg_color == 0) {
            spec_shade(if s.palette > 0 { obp1 } else { obp0 }, s.color)
        } else {
            bg_shade
        },
        None => bg_shade,
    }
}

/// The number of pixels the fine scroll drops from a background FIFO of `len` pixels:
/// SCX mod 8 (as far as there are pixels), unless already applied this line or fetching the
/// window.
pub open spec fn spec_scroll_drop_count(applied: bool, is_window_fetch: bool, scx: u8, len: nat) -> int {
    if applied || is_window_fetch {
        0
    } else {
        let k = (scx % 8) as int;
        if k < len { k } else { len as int }
    }
}

/// The background and sprite pixel FIFOs of the pixel pipeline.
#[derive(Clone, Debug)]
pub struct PixelFifo {
    pub bg_fifo: VecDeque<Pixel>,
    pub sprite_fifo: VecDeque<Pixel>,
    pub fine_scroll_applied: bool,
}

/// All pixels hold 2-bit colour numbers.
pub open spec fn colors_ok(s: Seq<Pixel>) -> bool {
    forall|i: int| 0 <= i < s.len() ==> #[trigger] s[i].color <= 3
}

impl PixelFifo {
    /// Colours are 2-bit, each FIFO holds at most one tile row, and before the line's fine
    /// scroll is applied the background FIFO is empty or holds a whole row.
    pub open spec fn wf(&self) -> bool {
        &&& colors_ok(self.bg_fifo@)
        &&& colors_ok(self.sprite_fifo@)
        &&& self.bg_fifo@.len() <= 8
        &&& self.sprite_fifo@.len() <= 8
        &&& (!self.fine_scroll_applied && self.bg_fifo@.len() > 0 ==> self.bg_fifo@.len() == 8)
    }

    pub fn new() -> (r: PixelFifo)
        ensures
            r.bg_fifo@ == Seq::<Pixel>::empty(),
            r.sprite_fifo@ == Seq::<Pixel>::empty(),
            !r.fine_scroll_applied,
            r.wf(),
    {
        PixelFifo { bg_fifo: VecDeque::new(), sprite_fifo: VecDeque::new(), fine_scroll_applied: false }
    }

    pub fn reset(&mut self)
        ensures
            final(self).bg_fifo@ == Seq::<Pixel>::empty(),
            final(self).sprite_fifo@ == Seq::<Pixel>::empty(),
            !final(self).fine_scroll_applied,
            final(self).wf(),
    {
        self.bg_fifo.clear();
        self.sprite_fifo.clear();
        self.fine_scroll_applied = false;
    }

    /// The number of pixels the fine scroll drops at the next pop: SCX mod 8 (as far as the
    /// FIFO holds them), once per line and never for the window.
    pub open spec fn spec_scroll_drop(&self, scx: u8, is_window_fetch: bool) -> int {
        spec_scroll_drop_count(self.fine_scroll_applied, is_window_fetch, scx, self.bg_fifo@.len())
    }

    fn apply_fine_scroll(&mut self, scx: u8, fetcher: &mut Fetcher)
        requires
            old(self).wf(),
        ensures
            final(self).wf(),
            final(self).fine_scroll_applied,
            final(self).bg_fifo@ == old(self).bg_fifo@.skip(
                old(self).spec_scroll_drop(scx, old(fetcher).is_window_fetch),
            ),
            final(self).sprite_fifo@ == old(self).sprite_fifo@,
            *final(fetcher) == (Fetcher {
                x_pos_counter: ((old(fetcher).x_pos_counter + old(self).spec_scroll_drop(
                    scx,
                    old(fetcher).is_window_fetch,
                )) % 0x10000) as u16,
                ..*old(fetcher)
            }),
            old(self).bg_fifo@.len() > 0 ==> final(self).bg_fifo@.len() > 0,
    {
        if !self.fine_scroll_applied {
            if fetcher.is_window_fetch {
                self.fine_scroll_applied = true;
                return;
            }
            proof { assert(scx & 0x07 == scx % 8) by { crate::bits::lemma_byte_bits(); crate::bits::lemma_word_bits(); } }
            let fine_scroll_offset = (scx & 0x07) as usize;
            let ghost start = self.bg_fifo@;
            let ghost x0 = fetcher.x_pos_counter;
            let mut i: usize = 0;
            while i < fine_scroll_offset
                invariant
                    i <= fine_scroll_offset <= 7,
                    start.len() <= 8,
                    colors_ok(start),
                    start == old(self).bg_fifo@,
                    self.sprite_fifo@ == old(self).sprite_fifo@,
                    !self.fine_scroll_applied,
                    old(fetcher).x_pos_counter == x0,
                    ({
                        let d = if i < start.len() { i as int } else { start.len() as int };
                        &&& self.bg_fifo@ == start.skip(d)
                        &&& *fetcher == (Fetcher { x_pos_counter: ((x0 + d) % 0x10000) as u16, ..*old(fetcher) })
                    }),
                decreases fine_scroll_offset - i,
            {
                if self.bg_fifo.len() > 0 {
                    let _ = self.bg_fifo.pop_front();
                    fetcher.x_pos_counter = fetcher.x_pos_counter.wrapping_add(1);
                }
                i += 1;
            }
            self.fine_scroll_applied = true;
            proof {
                let d = if fine_scroll_offset < start.len() { fine_scroll_offset as int } else { start.len() as int };
                assert forall|j: int| 0 <= j < self.bg_fifo@.len() implies #[trigger] self.bg_fifo@[j].color <= 3 by {
                    assert(self.bg_fifo@[j] == start[j + d]);
                }
            }
        }
    }

    /// Hands out the next screen pixel: nothing while the background FIFO is empty; otherwise
    /// the fine scroll is applied (once per line), one background and one sprite pixel leave
    /// their FIFOs, and the mixed colour comes out (colour mode gives RGB 0).
    pub fn pop_pixel(
        &mut self,
        fetcher: &mut Fetcher,
        scx: u8,
        gb_mode: GameboyMode,
        lcdc: u8,
        bgp: u8,
        obp0: u8,
        obp1: u8,
    ) -> (r: Option<ColorValue>)
        requires
            old(self).wf(),
        ensures
            final(self).wf(),
            old(self).bg_fifo@.len() == 0 ==> r is None && *final(self) == *old(self)
                && *final(fetcher) == *old(fetcher),
            old(self).bg_fifo@.len() > 0 ==> {
                let d = old(self).spec_scroll_drop(scx, old(fetcher).is_window_fetch);
                let bg = old(self).bg_fifo@[d];
                let sp = if old(self).sprite_fifo@.len() > 0 {
                    Some(old(self).sprite_fifo@[0])
                } else {
                    None::<Pixel>
                };
                &&& final(self).bg_fifo@ == old(self).bg_fifo@.skip(d + 1)
                &&& final(self).sprite_fifo@ == (if old(self).sprite_fifo@.len() > 0 {
                    old(self).sprite_fifo@.skip(1)
                } else {
                    old(self).sprite_fifo@
                })
                &&& final(self).fine_scroll_applied
                &&& *final(fetcher) == (Fetcher {
                    x_pos_counter: ((old(fetcher).x_pos_counter + d) % 0x10000) as u16,
                    ..*old(fetcher)
                })
                &&& r == Some(match gb_mode {
                    GameboyMode::DMG => ColorValue::Dmg(spec_mix_dmg(bg, sp, lcdc, bgp, obp0, obp1)),
                    GameboyMode::CGB => ColorValue::Cgb(0),
                })
            },
    {
        if self.bg_fifo.len() == 0 {
            return None;
        }
        let ghost d = self.spec_scroll_drop(scx, fetcher.is_window_fetch);
        let ghost old_bg = self.bg_fifo@;
        self.apply_fine_scroll(scx, fetcher);
        let bg_pixel = match self.bg_fifo.pop_front() {
            Some(p) => p,
            None => {
                return None;
            },
        };
        assert(bg_pixel == old_bg[d]);
        assert(self.bg_fifo@ =~= old_bg.skip(d + 1));
        let sprite_pixel = self.sprite_fifo.pop_front();
        match gb_mode {
            GameboyMode::DMG => {
                let shade = Self::mix_dmg_pixels(bg_pixel, sprite_pixel, lcdc, bgp, obp0, obp1);
                match shade {
                    Some(c) => Some(ColorValue::Dmg(c)),
                    None => None,
                }
            },
            GameboyMode::CGB => {
                let rgb: u32 = 0;
                Some(ColorValue::Cgb(rgb))
            },
        }
    }

    fn mix_dmg_pixels(
        bg_pixel: Pixel,
        sprite_pixel: Option<Pixel>,
        lcdc: u8,
        bgp: u8,
        obp0: u8,
        obp1: u8,
    ) -> (r: Option<u8>)
        requires
            bg_pixel.color <= 3,
            sprite_pixel matches Some(s) ==> s.color <= 3,
        ensures
            r == Some(spec_mix_dmg(bg_pixel, sprite_pixel, lcdc, bgp, obp0, obp1)),
    {
        let bg_color = if lcdc & 0x01 == 0 { 0 } else { bg_pixel.color };
        let mut final_color = (bgp >> (bg_color * 2)) & 0x03;
        if let Some(sprite) = sprite_pixel {
            if lcdc & 0x02 != 0 && sprite.color != 0 {
                if !sprite.bg_priority || bg_color == 0 {
                    let obp = if sprite.palette > 0 { obp1 } else { obp0 };
                    final_color = (obp >> (sprite.color * 2)) & 0x03;
                }
            }
        }
        Some(final_color)
    }

    /// The eight pixels of a tile row (low and high data bytes), left to right.
    pub open spec fn spec_row(tile_data: [u8; 2]) -> Seq<Pixel> {
        Seq::new(8, |i: int| Pixel::spec_new_bg_sprite(spec_tile_color(tile_data@[0], tile_data@[1], i)))
    }

    /// Appends a tile row's eight pixels to the background FIFO.
    pub fn push_bg_pixels(&mut self, tile_data: [u8; 2]) -> (r: bool)
        ensures
            r,
            final(self).bg_fifo@ == old(self).bg_fifo@ + PixelFifo::spec_row(tile_data),
            final(self).sprite_fifo@ == old(self).sprite_fifo@,
            final(self).fine_scroll_applied == old(self).fine_scroll_applied,
    {
        let mut bit: u8 = 0;
        while bit < 8
            invariant
                bit <= 8,
                self.bg_fifo@ == old(self).bg_fifo@ + PixelFifo::spec_row(tile_data).take(bit as int),
                self.sprite_fifo@ == old(self).sprite_fifo@,
                self.fine_scroll_applied == old(self).fine_scroll_applied,
            decreases 8 - bit,
        {
            let color = tile_color(tile_data[0], tile_data[1], bit);
            self.bg_fifo.push_back(Pixel::new_bg_sprite(color));
            proof {
                assert(PixelFifo::spec_row(tile_data).take(bit as int + 1)
                    =~= PixelFifo::spec_row(tile_data).take(bit as int).push(Pixel::spec_new_bg_sprite(color)));
            }
            bit += 1;
        }
        assert(PixelFifo::spec_row(tile_data).take(8) =~= PixelFifo::spec_row(tile_data));
        true
    }

    /// The sprite pixels a row adds to a sprite FIFO of `len` pixels: those of the row from
    /// `start + len` up to `start + remaining` (at most the row's end), the ones before being
    /// already covered.
    pub open spec fn spec_sprite_row(tile_data: [u8; 2], start: int, remaining: int, len: int, palette: bool, bg_priority: bool) -> Seq<Pixel> {
        let end = if start + remaining < 8 { start + remaining } else { 8 };
        let first = start + len;
        Seq::new(if first < end { (end - first) as nat } else { 0 }, |i: int|
            Pixel::spec_dmg_sprite(spec_tile_color(tile_data@[0], tile_data@[1], first + i), bg_priority, palette))
    }

    /// Mixes a sprite's tile row into the sprite FIFO from pixel `start_pixel` on, for
    /// `remaining_pixels` pixels: pixels already in the FIFO stay, the rest are appended.
    /// Nothing happens, and the result is false, when `start_pixel` is past the row or no
    /// pixel remains.
    pub fn push_sprite_pixels(
        &mut self,
        tile_data: [u8; 2],
        start_pixel: u8,
        remaining_pixels: u8,
        palette: bool,
        bg_priority: bool,
    ) -> (r: bool)
        requires
            start_pixel + remaining_pixels <= u8::MAX,
        ensures
            r == (start_pixel < 8 && remaining_pixels != 0),
            final(self).bg_fifo@ == old(self).bg_fifo@,
            final(self).fine_scroll_applied == old(self).fine_scroll_applied,
            final(self).sprite_fifo@ == if r {
                old(self).sprite_fifo@ + PixelFifo::spec_sprite_row(
                    tile_data, start_pixel as int, remaining_pixels as int,
                    old(self).sprite_fifo@.len() as int, palette, bg_priority)
            } else {
                old(self).sprite_fifo@
            },
    {
        if start_pixel >= 8 || remaining_pixels == 0 {
            return false;
        }
        let end: u8 = if start_pixel + remaining_pixels < 8 { start_pixel + remaining_pixels } else { 8 };
        let ghost len0 = old(self).sprite_fifo@.len() as int;
        let ghost row = PixelFifo::spec_sprite_row(tile_data, start_pixel as int, remaining_pixels as int, len0, palette, bg_priority);
        let mut bit: u8 = start_pixel;
        while bit < end
            invariant
                start_pixel <= bit <= end <= 8,
                end == (if start_pixel + remaining_pixels < 8 { start_pixel + remaining_pixels } else { 8 }),
                len0 == old(self).sprite_fifo@.len(),
                row == PixelFifo::spec_sprite_row(tile_data, start_pixel as int, remaining_pixels as int, len0, palette, bg_priority),
                self.bg_fifo@ == old(self).bg_fifo@,
                self.fine_scroll_applied == old(self).fine_scroll_applied,
                self.sprite_fifo@ == old(self).sprite_fifo@ + row.take(
                    if bit - start_pixel > len0 { bit - start_pixel - len0 } else { 0 }),
            decreases end - bit,
        {
            let color = tile_color(tile_data[0], tile_data[1], bit);
            if self.sprite_fifo.len() <= (bit - start_pixel) as usize {
                let pixel = Pixel { color, bg_priority, palette: if palette { 1 } else { 0 }, cgb_attrs: None };
                self.sprite_fifo.push_back(pixel);
                proof {
                    let k = bit - start_pixel - len0;
                    assert(row.take(k + 1) =~= row.take(k).push(pixel));
                }
            }
            bit += 1;
        }
        proof {
            let k = if end - start_pixel > len0 { end - start_pixel - len0 } else { 0 };
            assert(row.take(k) =~= row);
        }
        true
    }

    pub fn bg_pixel_count(&self) -> (r: usize)
        ensures
            r == self.bg_fifo@.len(),
    {
        self.bg_fifo.len()
    }

    pub fn sprite_pixel_count(&self) -> (r: usize)
        ensures
            r == self.sprite_fifo@.len(),
    {
        self.sprite_fifo.len()
    }

    /// Pixels stop leaving the FIFO while it is empty or a fetcher holds it.
    pub fn is_paused(&self, sprite_fetcher_active: bool, fetcher_active: bool) -> (r: bool)
        ensures
            r == (self.bg_fifo@.len() == 0 || sprite_fetcher_active || fetcher_active),
    {
        self.bg_fifo.len() == 0 || sprite_fetcher_active || fetcher_active
    }
}

} // verus!
