//! The small per-frame uniform describing the viewport: its pixel size and
//! a scroll offset. It changes only on resize and is packed field by field
//! into the fixed 16-byte layout the GPU program expects.

use vstd::prelude::*;

verus! {

/// The four little-endian bytes of a 32-bit value.
pub open spec fn u32_le_bytes(v: u32) -> Seq<u8> {
    seq![
        (v % 256) as u8,
        ((v / 256) % 256) as u8,
        ((v / 65536) % 256) as u8,
        ((v / 16777216) % 256) as u8,
    ]
}

/// A signed 32-bit value as its unsigned two's-complement bit pattern.
pub open spec fn i32_bit_pattern(v: i32) -> u32 {
    if v >= 0 {
        v as u32
    } else {
        (v + 0x1_0000_0000) as u32
    }
}

/// The 16-byte uniform encoding: width, height, then the two scroll
/// components, each 32 bits little-endian.
pub open spec fn screen_details_bytes(d: ScreenDetails) -> Seq<u8> {
    u32_le_bytes(d.width) + u32_le_bytes(d.height) + u32_le_bytes(i32_bit_pattern(d.scroll_x))
        + u32_le_bytes(i32_bit_pattern(d.scroll_y))
}

/// The viewport uniform: pixel dimensions and a scroll offset, read by the
/// GPU program every frame and mutated only on resize.
#[derive(Clone, Copy, Debug, PartialEq, Eq, Structural)]
pub struct ScreenDetails {
    pub width: u32,
    pub height: u32,
    pub scroll_x: i32,
    pub scroll_y: i32,
}

/// Push the four little-endian bytes of `v` onto `out`.
fn push_u32_le(out: &mut Vec<u8>, v: u32)
    ensures
        final(out)@ == old(out)@ + u32_le_bytes(v),
{
    out.push((v % 256) as u8);
    out.push((v / 256 % 256) as u8);
    out.push((v / 65536 % 256) as u8);
    out.push((v / 16777216 % 256) as u8);
    proof {
        assert(final(out)@ =~= old(out)@ + u32_le_bytes(v));
    }
}

/// The unsigned bit pattern of a signed 32-bit value.
fn i32_bits(v: i32) -> (r: u32)
    ensures
        r == i32_bit_pattern(v),
{
    if v >= 0 {
        v as u32
    } else {
        ((v as i64) + 0x1_0000_0000i64) as u32
    }
}

impl ScreenDetails {
    /// A fresh uniform for a surface of the given size, with no scroll.
    pub fn new(width: u32, height: u32) -> (d: ScreenDetails)
        ensures
            d == (ScreenDetails { width, height, scroll_x: 0i32, scroll_y: 0i32 }),
    {
        ScreenDetails { width, height, scroll_x: 0, scroll_y: 0 }
    }

    /// The uniform packed field by field into its 16-byte GPU layout.
    pub fn to_bytes(&self) -> (r: Vec<u8>)
        ensures
            r@ == screen_details_bytes(*self),
            r@.len() == 16,
    {
        let mut r: Vec<u8> = Vec::new();
        push_u32_le(&mut r, self.width);
        push_u32_le(&mut r, self.height);
        push_u32_le(&mut r, i32_bits(self.scroll_x));
        push_u32_le(&mut r, i32_bits(self.scroll_y));
        r
    }
}

} // verus!
