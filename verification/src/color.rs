//! A solid RGBA color and its byte-level encodings.
//!
//! Channels are stored as bytes, 0 through 255, the form in which a color
//! is uploaded as a one-pixel RGBA8 texture.

use vstd::prelude::*;
use crate::texture::TextureData;

verus! {

/// An RGBA color with one byte per channel.
#[derive(Clone, Copy, Debug, PartialEq, Eq, Structural)]
pub struct Color {
    pub red: u8,
    pub green: u8,
    pub blue: u8,
    pub alpha: u8,
}

/// The four texel bytes of a color, in RGBA order.
pub open spec fn color_bytes(c: Color) -> Seq<u8> {
    seq![c.red, c.green, c.blue, c.alpha]
}

impl Color {
    /// A color from its four channels.
    pub fn new(red: u8, green: u8, blue: u8, alpha: u8) -> (c: Color)
        ensures
            c == (Color { red, green, blue, alpha }),
    {
        Color { red, green, blue, alpha }
    }

    /// The color packed field by field into bytes, RGBA order.
    pub fn as_bytes(&self) -> (r: Vec<u8>)
        ensures
            r@ == color_bytes(*self),
    {
        let mut r: Vec<u8> = Vec::new();
        r.push(self.red);
        r.push(self.green);
        r.push(self.blue);
        r.push(self.alpha);
        proof {
            assert(r@ =~= color_bytes(*self));
        }
        r
    }

    /// The color's bytes followed by two bytes of padding, matching the
    /// buffer stride the color uniform is uploaded with.
    pub fn match_buffer(&self) -> (r: Vec<u8>)
        ensures
            r@ == color_bytes(*self) + seq![0u8, 0u8],
    {
        let mut r = self.as_bytes();
        r.push(0);
        r.push(0);
        proof {
            assert(r@ =~= color_bytes(*self) + seq![0u8, 0u8]);
        }
        r
    }

    /// A one-pixel texture of this color: the single RGBA8 texel holds the
    /// color's bytes.
    pub fn as_texture(&self) -> (t: TextureData)
        ensures
            t.width == 1,
            t.height == 1,
            t.rgba@ == color_bytes(*self),
            t.wf(),
    {
        let pixel = self.as_bytes();
        TextureData::from_rgba(1, 1, pixel)
    }
}

} // verus!
