//! The decoded raster and its pixel lookup.

use vstd::prelude::*;
use crate::color::{ColorType, stride_of};
use crate::error::TpngError;

verus! {

/// A decoded raster: a flat byte buffer together with its dimensions and
/// color layout. Constructed once, immutable thereafter.
pub struct Image {
    pub data: Vec<u8>,
    pub color_type: ColorType,
    pub width: u32,
    pub height: u32,
}

/// The exact number of bytes a raster of these dimensions and layout holds.
pub open spec fn raster_len(width: int, height: int, ct: ColorType) -> int {
    width * height * stride_of(ct)
}

/// The byte offset of the pixel at (x, y) in the flat buffer.
pub open spec fn pixel_offset(width: int, ct: ColorType, x: int, y: int) -> int {
    (y * width + x) * stride_of(ct)
}

/// The (red, green, blue, alpha) sample of the pixel at (x, y). Layouts
/// without an alpha channel sample as fully opaque (alpha 255); grayscale
/// layouts repeat their single luminance byte across red, green and blue.
pub open spec fn pixel_of(data: Seq<u8>, width: int, ct: ColorType, x: int, y: int) -> (u8,
    u8,
    u8,
    u8,
) {
    let p = pixel_offset(width, ct, x, y);
    match ct {
        ColorType::Rgba => (data[p], data[p + 1], data[p + 2], data[p + 3]),
        ColorType::Rgb => (data[p], data[p + 1], data[p + 2], 255u8),
        ColorType::GrayscaleAlpha => (data[p], data[p], data[p], data[p + 1]),
        ColorType::Grayscale => (data[p], data[p], data[p], 255u8),
        ColorType::Indexed => (0u8, 0u8, 0u8, 0u8),
    }
}

/// An in-bounds pixel lookup touches only bytes below the buffer's length:
/// on a well-sized buffer it never reads out of bounds.
pub proof fn lemma_pixel_bytes_in_bounds(
    data: Seq<u8>,
    width: int,
    height: int,
    ct: ColorType,
    x: int,
    y: int,
)
    requires
        ct != ColorType::Indexed,
        data.len() == raster_len(width, height, ct),
        0 <= x < width,
        0 <= y < height,
    ensures
        0 <= pixel_offset(width, ct, x, y),
        pixel_offset(width, ct, x, y) + stride_of(ct) <= data.len(),
{
    let s = stride_of(ct) as int;
    assert(0 <= y * width + x && (y * width + x) * s + s <= width * height * s)
        by (nonlinear_arith)
        requires
            0 <= x < width,
            0 <= y < height,
            1 <= s,
    ;
}

/// Layouts without an alpha channel always sample as fully opaque.
pub proof fn lemma_opaque_alpha(data: Seq<u8>, width: int, ct: ColorType, x: int, y: int)
    requires
        ct == ColorType::Rgb || ct == ColorType::Grayscale,
    ensures
        pixel_of(data, width, ct, x, y).3 == 255,
{
}

impl Image {
    /// The length invariant alone: wherever the layout is a supported one,
    /// the buffer holds exactly width * height * stride bytes. The indexed
    /// layout constrains nothing, since no pixel of it is ever read.
    pub open spec fn len_wf(self) -> bool {
        self.color_type != ColorType::Indexed ==> self.data.len() == raster_len(
            self.width as int,
            self.height as int,
            self.color_type,
        )
    }

    /// A well-formed raster: a supported (non-indexed) layout, and a buffer
    /// of exactly width * height * stride bytes.
    pub open spec fn wf(self) -> bool {
        &&& self.color_type != ColorType::Indexed
        &&& self.len_wf()
    }

    /// Builds a raster from already-decoded bytes. Fails with
    /// `UnsupportedLayout` on the indexed layout, and with `Decode` when the
    /// buffer does not hold exactly width * height * stride bytes.
    pub fn from_raster(data: Vec<u8>, width: u32, height: u32, color_type: ColorType) -> (r:
        Result<Image, TpngError>)
        ensures
            match r {
                Ok(img) => {
                    &&& color_type != ColorType::Indexed
                    &&& data@.len() == raster_len(width as int, height as int, color_type)
                    &&& img.wf()
                    &&& img.data@ == data@
                    &&& img.width == width
                    &&& img.height == height
                    &&& img.color_type == color_type
                },
                Err(TpngError::UnsupportedLayout) => color_type == ColorType::Indexed,
                Err(TpngError::Decode) => {
                    &&& color_type != ColorType::Indexed
                    &&& data@.len() != raster_len(width as int, height as int, color_type)
                },
                Err(_) => false,
            },
    {
        if color_type == ColorType::Indexed {
            return Err(TpngError::UnsupportedLayout);
        }
        let stride = color_type.stride();
        assert((width as u64) * (height as u64) <= u64::MAX) by (nonlinear_arith)
            requires
                width <= u32::MAX,
                height <= u32::MAX,
        ;
        let pixels: u64 = (width as u64) * (height as u64);
        let expected: Option<u64> = pixels.checked_mul(stride as u64);
        let n: usize = data.len();
        let ok: bool = match expected {
            Some(e) => n as u64 == e,
            None => false,
        };
        proof {
            assert((width as int) * (height as int) * (stride as int) == (pixels as int) * (
            stride as int)) by (nonlinear_arith)
                requires
                    pixels == (width as u64) * (height as u64),
            ;
            assert(n <= u64::MAX);
            if expected is None {
                assert((pixels as int) * (stride as u64 as int) > u64::MAX);
            }
        }
        if ok {
            Ok(Image { data, color_type, width, height })
        } else {
            Err(TpngError::Decode)
        }
    }

    /// The width of the raster, in pixels.
    pub fn width(&self) -> (r: u32)
        ensures
            r == self.width,
    {
        self.width
    }

    /// The height of the raster, in pixels.
    pub fn height(&self) -> (r: u32)
        ensures
            r == self.height,
    {
        self.height
    }

    /// Whether this raster satisfies its structural invariant; callers that
    /// did not obtain the raster from a constructor of this library can test
    /// it before asking for pixels or text.
    pub fn check_well_formed(&self) -> (r: bool)
        ensures
            r == self.wf(),
    {
        if self.color_type == ColorType::Indexed {
            return false;
        }
        let stride = self.color_type.stride();
        assert((self.width as u64) * (self.height as u64) <= u64::MAX) by (nonlinear_arith)
            requires
                self.width <= u32::MAX,
                self.height <= u32::MAX,
        ;
        let pixels: u64 = (self.width as u64) * (self.height as u64);
        let expected: Option<u64> = pixels.checked_mul(stride as u64);
        let r: bool = match expected {
            Some(e) => self.data.len() as u64 == e,
            None => false,
        };
        proof {
            assert((self.width as int) * (self.height as int) * (stride as int) == (pixels as int)
                * (stride as int)) by (nonlinear_arith)
                requires
                    pixels == (self.width as u64) * (self.height as u64),
            ;
        }
        r
    }

    /// The (red, green, blue, alpha) sample of the pixel at (x, y), with
    /// (0, 0) the top left of the image. Coordinates at or beyond the
    /// raster's extent fail with `CoordinateOutOfRange`; in-range lookups on
    /// the indexed layout fail with `UnsupportedLayout`, reading no byte of
    /// the buffer; nothing else fails.
    pub fn get_pixel(&self, x: u32, y: u32) -> (r: Result<(u8, u8, u8, u8), TpngError>)
        requires
            self.len_wf(),
        ensures
            match r {
                Ok(p) => {
                    &&& x < self.width
                    &&& y < self.height
                    &&& self.color_type != ColorType::Indexed
                    &&& p == pixel_of(
                        self.data@,
                        self.width as int,
                        self.color_type,
                        x as int,
                        y as int,
                    )
                },
                Err(e) => {
                    if x >= self.width || y >= self.height {
                        e == (TpngError::CoordinateOutOfRange {
                            x,
                            y,
                            width: self.width,
                            height: self.height,
                        })
                    } else {
                        &&& self.color_type == ColorType::Indexed
                        &&& e == TpngError::UnsupportedLayout
                    }
                },
            },
    {
        if x >= self.width || y >= self.height {
            return Err(
                TpngError::CoordinateOutOfRange { x, y, width: self.width, height: self.height },
            );
        }
        if self.color_type == ColorType::Indexed {
            return Err(TpngError::UnsupportedLayout);
        }
        let stride = self.color_type.stride() as usize;
        let n: usize = self.data.len();
        proof {
            lemma_pixel_bytes_in_bounds(
                self.data@,
                self.width as int,
                self.height as int,
                self.color_type,
                x as int,
                y as int,
            );
            assert((y as int) * (self.width as int) + (x as int) <= ((y as int) * (
            self.width as int) + (x as int)) * (stride as int)) by (nonlinear_arith)
                requires
                    stride >= 1,
                    (y as int) * (self.width as int) + (x as int) >= 0,
            ;
        }
        let p: usize = (y as usize * self.width as usize + x as usize) * stride;
        match self.color_type {
            ColorType::Rgba => Ok((self.data[p], self.data[p + 1], self.data[p + 2], self.data[p
                + 3])),
            ColorType::Rgb => Ok((self.data[p], self.data[p + 1], self.data[p + 2], 255)),
            ColorType::GrayscaleAlpha => Ok((self.data[p], self.data[p], self.data[p], self.data[p
                + 1])),
            ColorType::Grayscale => Ok((self.data[p], self.data[p], self.data[p], 255)),
            ColorType::Indexed => {
                proof {
                    assert(false);
                }
                vstd::pervasive::unreached()
            },
        }
    }
}

} // verus!
