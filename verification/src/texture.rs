//! Texture pixel data as the registry stores it: explicit dimensions and a
//! tightly packed RGBA8 buffer, decoded from an encoded image where needed.

use vstd::prelude::*;
use crate::color::Color;

verus! {

/// How a texture is described before it reaches the registry: either a
/// solid color, one texel wide, or full pixel data.
#[derive(Debug)]
pub enum TextureType {
    /// The same color across the whole texture.
    Color(Color),
    /// Explicit pixel data.
    Texture(TextureData),
}

impl TextureType {
    /// The pixel data this description stands for: a solid color becomes
    /// its one-texel texture, pixel data is handed through unchanged.
    pub fn resolve(self) -> (t: TextureData)
        requires
            self matches TextureType::Texture(d) ==> d.wf(),
        ensures
            self matches TextureType::Color(c) ==> {
                &&& t.width == 1
                &&& t.height == 1
                &&& t.rgba@ == crate::color::color_bytes(c)
            },
            self matches TextureType::Texture(d) ==> t == d,
            t.wf(),
    {
        match self {
            TextureType::Color(color) => color.as_texture(),
            TextureType::Texture(data) => data,
        }
    }
}

/// What decoding an encoded image (PNG, JPEG, ...) yields: `None` when the
/// bytes are not a decodable image, otherwise the width, the height, and
/// the tightly packed RGBA8 pixels. The result depends on the bytes alone.
pub uninterp spec fn decode_rgba(data: Seq<u8>) -> Option<(u32, u32, Seq<u8>)>;

/// Relies on image::load_from_memory and DynamicImage::to_rgba8: whether the
/// bytes decode, and to which image, depends on the bytes alone; the RGBA8
/// buffer of a decoded image holds exactly four bytes per pixel.
#[verifier::external_body]
fn decode_image(data: &[u8]) -> (r: Option<(u32, u32, Vec<u8>)>)
    ensures
        r is Some <==> decode_rgba(data@) is Some,
        r matches Some(t) ==> {
            &&& decode_rgba(data@) matches Some(d)
            &&& t.0 == d.0
            &&& t.1 == d.1
            &&& t.2@ == d.2
            &&& t.2@.len() == 4 * t.0 * t.1
        },
{
    match image::load_from_memory(data) {
        Ok(img) => {
            let rgba = img.to_rgba8();
            Some((rgba.width(), rgba.height(), rgba.into_raw()))
        },
        Err(_) => None,
    }
}

/// Why a texture could not be built.
#[derive(Clone, Copy, Debug, PartialEq, Eq, Structural)]
pub enum TextureError {
    /// The bytes are not a decodable image.
    DecodeFailed,
}

/// The pixel data of one texture: dimensions plus a tightly packed RGBA8
/// buffer, four bytes per pixel.
#[derive(Debug)]
pub struct TextureData {
    pub width: u32,
    pub height: u32,
    pub rgba: Vec<u8>,
}

impl TextureData {
    /// The buffer holds exactly four bytes for each of the
    /// `width * height` pixels.
    pub open spec fn wf(&self) -> bool {
        self.rgba@.len() == 4 * (self.width as int) * (self.height as int)
    }

    /// A texture from raw RGBA8 pixels with explicit dimensions.
    pub fn from_rgba(width: u32, height: u32, rgba: Vec<u8>) -> (t: TextureData)
        requires
            rgba@.len() == 4 * (width as int) * (height as int),
        ensures
            t == (TextureData { width, height, rgba }),
            t.wf(),
    {
        TextureData { width, height, rgba }
    }

    /// A texture decoded from an encoded image. Returns an error exactly
    /// when the bytes do not decode; on success the fields are the decoded
    /// dimensions and pixels.
    pub fn new(img_data: &[u8]) -> (r: Result<TextureData, TextureError>)
        ensures
            r is Ok <==> decode_rgba(img_data@) is Some,
            r matches Ok(t) ==> {
                &&& decode_rgba(img_data@) matches Some(d)
                &&& t.width == d.0
                &&& t.height == d.1
                &&& t.rgba@ == d.2
                &&& t.wf()
            },
            r matches Err(e) ==> e == TextureError::DecodeFailed,
    {
        match decode_image(img_data) {
            Some((width, height, rgba)) => Ok(TextureData { width, height, rgba }),
            None => Err(TextureError::DecodeFailed),
        }
    }
}

} // verus!
