use vstd::prelude::*;

verus! {

/// Masking and shifting a byte, stated arithmetically.
pub proof fn lemma_byte_bits()
    by (bit_vector)
    ensures
        forall|x: u8| #[trigger] (x & 0x01) == x % 2,
        forall|x: u8| #[trigger] (x & 0x03) == x % 4,
        forall|x: u8| #[trigger] (x & 0x07) == x % 8,
        forall|x: u8| #[trigger] (x & 0x0F) == x % 16,
        forall|x: u8| #[trigger] (x & 0x1F) == x % 32,
        forall|x: u8| #[trigger] (x & 0x3F) == x % 64,
        forall|x: u8| #[trigger] (x & 0x7F) == x % 128,
        forall|x: u8| #[trigger] (x & 0xFF) == x,
        forall|x: u8| #[trigger] (x & 0x40) != 1,
        forall|x: u8| #[trigger] (x >> 1u8) == x / 2,
        forall|x: u8| #[trigger] (x >> 4u8) == x / 16,
        forall|x: u8| #[trigger] ((x & 0xF0) >> 4u8) == x / 16,
        forall|x: u8| #[trigger] ((x & 0x70) >> 4u8) == (x / 16) % 8,
        forall|x: u8| #[trigger] ((x & 0x60) >> 5u8) == (x / 32) % 4,
        forall|x: u8| #[trigger] ((x & 0xC0) >> 6u8) == x / 64,
        forall|x: u8| #[trigger] ((x >> 3u8) & 7) == (x / 8) % 8,
        forall|x: u8, k: u8| #[trigger] ((x >> k) & 1) <= 1,
{
}

/// Masking and shifting a 16-bit word, stated arithmetically; and a word made of two bytes.
pub proof fn lemma_word_bits()
    by (bit_vector)
    ensures
        forall|x: u16| #[trigger] (x & 0x0F) == x % 16,
        forall|x: u16| #[trigger] (x & 0xFF) == x % 256,
        forall|x: u16| #[trigger] (x & 0xFFF) == x % 4096,
        forall|x: u16| #[trigger] (x & 0x1FFF) == x % 0x2000,
        forall|x: u16| #[trigger] (x >> 4u16) == x / 16,
        forall|x: u16| #[trigger] (x >> 8u16) == x / 256,
        forall|h: u8, l: u8| #[trigger] (((h as u16) << 8u16) | (l as u16)) == h as u16 * 256 + l as u16,
{
}


/// Shifting a byte left by one, and rotating it right, stated arithmetically.
pub proof fn lemma_shift_left_bits()
    by (bit_vector)
    ensures
        forall|x: u8| #[trigger] (x << 1u8) == ((x * 2) % 256) as u8,
        forall|x: u8| #[trigger] ((x >> 1u8) | (x << 7u8)) == (x / 2 + (x % 2) * 128) as u8,
{
}

/// Shifting a byte left by one with bit 0 set, and rotating it left, stated arithmetically.
pub proof fn lemma_rotate_left_bits()
    by (bit_vector)
    ensures
        forall|x: u8| #[trigger] ((x << 1u8) | 0x01) == ((x * 2) % 256 + 1) as u8,
        forall|x: u8| #[trigger] ((x << 1u8) | (x >> 7u8)) == ((x * 2) % 256 + x / 128) as u8,
{
}

/// Shifting a byte right with bit 7 set, the nibble swap, the top and bottom bits and the
/// complement, stated arithmetically.
pub proof fn lemma_shift_bits()
    by (bit_vector)
    ensures
        forall|x: u8| #[trigger] ((x >> 1u8) | 0x80) == (x / 2 + 128) as u8,
        forall|x: u8| #[trigger] (((x & 0xF0) >> 4u8) | ((x & 0x0F) << 4u8)) == ((x % 16) * 16 + x / 16) as u8,
        forall|x: u8| #[trigger] (x & 0x80) != 0 <==> x >= 128,
        forall|x: u8| #[trigger] (x & 0x01) != 0 <==> x % 2 == 1,
        forall|x: u8| #[trigger] !x == (255 - x) as u8,
{
}

} // verus!
