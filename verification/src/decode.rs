//! Decoding a PNG byte stream into a raster, through the `png` crate.

use vstd::prelude::*;
use crate::color::ColorType;
use crate::error::TpngError;
use crate::image::{Image, raster_len};

verus! {

/// What the `png` decoder yields for a byte stream: the raw raster bytes,
/// width, height and color layout of its first frame, or nothing when the
/// stream is not a decodable PNG. Decoding consults nothing but the bytes,
/// so its outcome carries a name that the wrapper's contract and the
/// constructor's share; what the name stands for on given bytes is never
/// assumed, only that it is one fixed outcome per byte stream.
pub uninterp spec fn decode_of(bytes: Seq<u8>) -> Option<(Seq<u8>, u32, u32, ColorType)>;

/// The error the `png` crate reports when a byte stream cannot be decoded.
#[verifier::external_type_specification]
#[verifier::external_body]
pub struct ExDecodingError(png::DecodingError);

/// Relies on png::Decoder, png::Reader::read_info and png::Reader::next_frame:
/// decodes the first frame of a PNG byte stream into its raw bytes, reporting
/// the frame's dimensions and color layout, or the decoder's error on an
/// invalid stream. The raw bytes are kept exactly as decoded; whether they
/// fill a raster of the reported dimensions is checked by the caller.
#[verifier::external_body]
fn decode_png(bytes: &[u8]) -> (r: Result<(Vec<u8>, u32, u32, ColorType), png::DecodingError>)
    ensures
        match r {
            Ok(t) => decode_of(bytes@) == Some((t.0@, t.1, t.2, t.3)),
            Err(_) => decode_of(bytes@) is None,
        },
{
    let decoder = png::Decoder::new(bytes);
    let mut reader = decoder.read_info()?;
    let mut data = vec![0u8; reader.output_buffer_size()];
    let info = reader.next_frame(&mut data)?;
    let ct = match info.color_type {
        png::ColorType::Grayscale => ColorType::Grayscale,
        png::ColorType::Rgb => ColorType::Rgb,
        png::ColorType::Indexed => ColorType::Indexed,
        png::ColorType::GrayscaleAlpha => ColorType::GrayscaleAlpha,
        png::ColorType::Rgba => ColorType::Rgba,
    };
    Ok((data, info.width, info.height, ct))
}

impl Image {
    /// Builds a raster from a PNG byte stream. An undecodable stream fails
    /// with `Decode`; a decoded frame with the indexed layout fails with
    /// `UnsupportedLayout`; a decoded buffer that does not fill a raster of
    /// the reported dimensions — a frame with a channel depth other than
    /// eight bits — fails with `Decode`; everything else yields the decoded
    /// raster, well formed, exactly as the decoder handed it back.
    pub fn new(bytes: &[u8]) -> (r: Result<Image, TpngError>)
        ensures
            match decode_of(bytes@) {
                Some(t) => {
                    if t.3 == ColorType::Indexed {
                        r == Err::<Image, TpngError>(TpngError::UnsupportedLayout)
                    } else if t.0.len() == raster_len(t.1 as int, t.2 as int, t.3) {
                        &&& r matches Ok(img)
                        &&& img.wf()
                        &&& img.data@ == t.0
                        &&& img.width == t.1
                        &&& img.height == t.2
                        &&& img.color_type == t.3
                    } else {
                        r == Err::<Image, TpngError>(TpngError::Decode)
                    }
                },
                None => r == Err::<Image, TpngError>(TpngError::Decode),
            },
    {
        match decode_png(bytes) {
            Err(_) => Err(TpngError::Decode),
            Ok((data, width, height, color_type)) => Image::from_raster(
                data,
                width,
                height,
                color_type,
            ),
        }
    }
}

} // verus!
