//! Decoding the PNG files of an archive into 8-bit pixels.
use vstd::prelude::*;

verus! {

/// What the `png` decoder gives for a file, with every sample normalized to 8 bits: the
/// image's width and height and its pixels, row after row; `None` when it cannot decode
/// the bytes.
pub uninterp spec fn png_image(data: Seq<u8>) -> Option<(u32, u32, Seq<u8>)>;

/// `png::Decoder::new` over the bytes, with `Transformations::normalize_to_color8`, then
/// `read_info`, a buffer of `output_buffer_size` bytes and `next_frame` into it: the first
/// frame's width, height and pixels; `None` when any of these fails.
#[verifier::external_body]
pub(crate) fn decode_png(data: &[u8]) -> (image: Option<(u32, u32, Vec<u8>)>)
    ensures
        match image {
            Some((width, height, pixels)) => png_image(data@) == Some((width, height, pixels@)),
            None => png_image(data@) is None,
        },
{
    let mut decoder = png::Decoder::new(std::io::Cursor::new(data));
    decoder.set_transformations(png::Transformations::normalize_to_color8());
    let mut reader = decoder.read_info().ok()?;
    let mut pixels = vec![0u8; reader.output_buffer_size()?];
    let info = reader.next_frame(&mut pixels).ok()?;
    Some((info.width, info.height, pixels))
}

/// A decoded image: its size in pixels and its 8-bit samples, row after row.
pub struct DecodedImage {
    pub width: u32,
    pub height: u32,
    pub pixels: Vec<u8>,
}

/// Decodes the bytes of a PNG file; `None` when they are no PNG image.
pub fn decode_texture(data: &[u8]) -> (image: Option<DecodedImage>)
    ensures
        match image {
            Some(image) => png_image(data@) == Some((image.width, image.height, image.pixels@)),
            None => png_image(data@) is None,
        },
{
    match decode_png(data) {
        Some((width, height, pixels)) => Some(DecodedImage { width, height, pixels }),
        None => None,
    }
}

} // verus!
