use vstd::prelude::*;
use crate::ppu::Sprite;

verus! {

pub const SPRITE_HEIGHT_TALL: u8 = 16;

pub const SPRITE_HEIGHT_NORMAL: u8 = 8;

/// At most this many sprites are drawn on one line.
pub const MAX_SPRITES_IN_BUFFER: usize = 10;

/// The sprite height LCDC bit 2 selects.
pub open spec fn spec_sprite_height(lcdc: u8) -> u8 {
    if lcdc & 0b0000_0100 == 0 { SPRITE_HEIGHT_NORMAL } else { SPRITE_HEIGHT_TALL }
}

/// Whether OAM scan keeps a sprite for line `ly`: its X is not 0, line `ly` + 16 falls within
/// its rows (Y to Y + height, both taken modulo 256), and the line buffer has room.
pub open spec fn spec_should_add_sprite(sprite: Sprite, ly: u8, lcdc: u8, buffer_count: usize) -> bool {
    let line = ly.wrapping_add(16);
    &&& sprite.x_pos > 0
    &&& line >= sprite.y_pos
    &&& line < sprite.y_pos.wrapping_add(spec_sprite_height(lcdc))
    &&& buffer_count < MAX_SPRITES_IN_BUFFER
}

pub fn should_add_sprite(sprite: &Sprite, ly: u8, lcdc: u8, buffer_count: usize) -> (r: bool)
    ensures
        r == spec_should_add_sprite(*sprite, ly, lcdc, buffer_count),
{
    let sprite_size = if lcdc & 0b0000_0100 == 0 { SPRITE_HEIGHT_NORMAL } else { SPRITE_HEIGHT_TALL };
    let line = ly.wrapping_add(16);
    sprite.x_pos > 0 && line >= sprite.y_pos && line < sprite.y_pos.wrapping_add(sprite_size)
        && buffer_count < MAX_SPRITES_IN_BUFFER
}

/// Whether a sprite starts at or before the pixel after `x`: its X <= x + 8.
pub open spec fn spec_fetchable(sprite: Sprite, x: i16) -> bool {
    sprite.x_pos as int <= x + 8
}

/// The index of the first sprite in `s` that starts at or before the pixel after `x`
/// (the length of `s` if there is none).
pub open spec fn spec_first_fetchable(s: Seq<Sprite>, x: i16) -> int
    decreases s.len(),
{
    if s.len() == 0 {
        0
    } else if spec_fetchable(s[0], x) {
        0
    } else {
        1 + spec_first_fetchable(s.drop_first(), x)
    }
}

pub proof fn lemma_first_fetchable_bound(s: Seq<Sprite>, x: i16)
    ensures
        0 <= spec_first_fetchable(s, x) <= s.len(),
    decreases s.len(),
{
    if s.len() > 0 {
        lemma_first_fetchable_bound(s.drop_first(), x);
    }
}

/// An index is the first fetchable one when nothing before it is fetchable and it is
/// fetchable or the end.
pub proof fn lemma_first_fetchable(s: Seq<Sprite>, x: i16, i: int)
    requires
        0 <= i <= s.len(),
        forall|j: int| 0 <= j < i ==> !spec_fetchable(#[trigger] s[j], x),
        i == s.len() || spec_fetchable(s[i], x),
    ensures
        spec_first_fetchable(s, x) == i,
    decreases i,
{
    if i > 0 {
        assert(!spec_fetchable(s[0], x));
        let t = s.drop_first();
        assert forall|j: int| 0 <= j < i - 1 implies !spec_fetchable(#[trigger] t[j], x) by {
            assert(t[j] == s[j + 1]);
        }
        lemma_first_fetchable(t, x, i - 1);
    }
}

/// Takes from the line buffer the first sprite that starts at or before the pixel being
/// drawn, if there is one.
pub fn should_fetch_sprite(pixel_x_position: i16, buffer: &mut Vec<Sprite>) -> (r: Option<Sprite>)
    requires
        pixel_x_position <= i16::MAX - 8,
    ensures
        ({
            let i = spec_first_fetchable(old(buffer)@, pixel_x_position);
            if i < old(buffer)@.len() {
                r == Some(old(buffer)@[i]) && final(buffer)@ == old(buffer)@.remove(i)
            } else {
                r is None && final(buffer)@ == old(buffer)@
            }
        }),
{
    let mut i: usize = 0;
    while i < buffer.len()
        invariant
            i <= buffer@.len(),
            buffer@ == old(buffer)@,
            pixel_x_position <= i16::MAX - 8,
            forall|j: int| 0 <= j < i ==> !spec_fetchable(#[trigger] buffer@[j], pixel_x_position),
        decreases buffer@.len() - i,
    {
        if buffer[i].x_pos as i16 <= pixel_x_position + 8 {
            proof { lemma_first_fetchable(old(buffer)@, pixel_x_position, i as int); }
            let s = buffer.remove(i);
            return Some(s);
        }
        i += 1;
    }
    proof { lemma_first_fetchable(old(buffer)@, pixel_x_position, i as int); }
    None
}

} // verus!
