use vstd::prelude::*;

verus! {

/// Facts about byte fields that the bit-vector solver proves once.
pub proof fn lemma_byte_fields(x: u8)
    by (bit_vector)
    ensures
        x & 0x0F <= 15,
        x >> 4u8 <= 15,
        x & 0x07 <= 7,
        x & 0x07 == x % 8,
        (x >> 3u8) & 0x1F <= 31,
        x & 0x03 <= 3,
        x & 0x01 <= 1,
        x & 0x3F <= 63,
        x & 0x1F <= 31,
        x & 0xF0 <= 0xF0,
        x >> 6u8 <= 3,
        x >> 3u8 <= 31,
        (x >> 3u8) & 7 <= 7,
        (x >> 4u8) & 3 <= 3,
        (x >> 3u8) & 3 <= 3,
        (x & 0x10) >> 4u8 <= 1,
        x & 0xFE <= 0xFE,
        (x as usize) & 0xFE == (x & 0xFE) as usize,
        x & 0xFE <= x,
        x & 0x7F <= 0x7F,
        x & 0x7E <= 0x7E,
        x & 0x7C <= 0x7C,
        (x >> 2u8) & 0x03 <= 3,
        (x >> 4u8) & 0x03 <= 3,
        (x >> 6u8) & 0x03 <= 3,
        (x >> 6u8) & 0x03 == x >> 6u8,
        ((x | 0x0C) >> 2u8) & 3 == 3,
        (x | 0x04) & 0x04 != 0,
        ((x as u16) << 8u16) & 0xFF == 0,
        (x & 0x30 == 0x30) ==> (x & 0x10 != 0 && x & 0x20 != 0),
{
}

pub proof fn lemma_word_fields(w: u16)
    by (bit_vector)
    ensures
        w >> 8u16 <= 255,
        w & 0xFF <= 255,
        w & 0x0FFF <= 0x0FFF,
        w & 0x1FFF <= 0x1FFF,
        w & 0x3FFF <= 0x3FFF,
        w & 0x7FFF <= 0x7FFF,
        w & 0x03FF <= 0x03FF,
        w & 0x0F <= 15,
        w & 0x001F <= 31,
        w & 0x01FF <= 0x01FF,
        (w & 0x0FFF) % 0x0400 == w & 0x03FF,
        (w & 0x3FFF) & 0x1FFF == w & 0x1FFF,
        (w >> 13u16) & 3 <= 3,
        (w & 0xFF) as u8 == w % 256,
        (w >> 8u16) as u8 == w / 256,
        w & 0xFF == 0 ==> w <= 0xFF00,
        w & 0xFF != 0xFF ==> w < 0xFFFF,
        (w & 0x0400 == 0) ==> (((w | 0x0400) & 0x0FFF) == (w & 0x0FFF) + 0x0400 && (w & 0x0FFF) % 0x0800 < 0x0400),
        (w & 0x0800 == 0) ==> (((w | 0x0800) & 0x0FFF) == (w & 0x0FFF) + 0x0800 && (w & 0x0FFF) < 0x0800),
        (w.wrapping_sub(0x2000) as usize) & 0x0FFF == (w & 0x0FFF) as usize,
        1u16 << 9u16 == 0x0200 && 1u16 << 3u16 == 0x0008 && 1u16 << 5u16 == 0x0020 && 1u16 << 7u16 == 0x0080,
{
}

/// Facts about two bytes masked together.
pub proof fn lemma_byte_pair(x: u8, y: u8)
    by (bit_vector)
    ensures
        x & y <= x,
        x & y <= y,
        x <= 0x0F ==> x & y <= y & 0x0F,
        (x as u16) & 0x0F == (x & 0x0F) as u16,
        (0x01u8 | x) & 0x01 == 1,
        (x >> y) & 0x01 <= 1,
        (x >> y) & 0x03 <= 3,
        x <= 1 && y <= 1 ==> ((x << 1u8) | y) <= 3,
        (x as u16 | ((y as u16) << 8u16)) & 0x1F <= 0x1F,
        ((x as u16 | ((y as u16) << 8u16)) >> 5u16) & 0x1F <= 0x1F,
        ((x as u16 | ((y as u16) << 8u16)) >> 10u16) & 0x1F <= 0x1F,
{
}

/// Facts about masks of machine words.
pub proof fn lemma_usize_fields(v: usize, m: usize)
    by (bit_vector)
    ensures
        v & m <= v,
        v & m <= m,
        v & 0x0FFF < 0x1000,
        v < 0x1000 ==> v & 0x0FFF == v,
        v & 0x1FFF < 0x2000,
        v & 0x3F == v % 64,
        v < 0x1000 ==> (((v >> 1usize) & 0x0400) | (v & 0x03FF) < 0x1000 && v & 0x07FF < 0x1000),
        v <= 0x03FF ==> (v & 0x0FFF == v && ((0x0400 + v) as usize) & 0x0FFF == 0x0400 + v && v & 0x03FF == v),
{
}

/// A step of one up or down, as the byte that is added.
pub proof fn lemma_unit_step(by: i8)
    by (bit_vector)
    ensures
        by == 1 ==> by as u8 == 1,
        by == -1 ==> by as u8 == 255,
{
}

/// A 16-bit pair packs its high and low bytes, and splits back into them.
pub proof fn lemma_pair(hi: u8, lo: u8)
    by (bit_vector)
    ensures
        (((hi as u16) << 8u16) | (lo as u16)) == hi as u16 * 256 + lo as u16,
        ((((hi as u16) << 8u16) | (lo as u16)) >> 8u16) as u8 == hi,
        (((hi as u16) << 8u16) | (lo as u16)) as u8 == lo,
{
}

pub proof fn lemma_split(v: u16)
    by (bit_vector)
    ensures
        ((((v >> 8u16) as u8) as u16) << 8u16) | ((v as u8) as u16) == v,
{
}

/// A 16-bit value's low byte is its remainder by 256.
pub proof fn lemma_u16_low_byte(x: u16)
    by (bit_vector)
    ensures
        (x as u8) == x % 256,
{
}

} // verus!
