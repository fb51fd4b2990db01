//! Color layouts of a decoded raster.

use vstd::prelude::*;

verus! {

/// The color layout of a decoded raster. The indexed (palette) layout is
/// carried only so that it can be rejected explicitly: no raster with it is
/// ever constructed.
#[derive(Clone, Copy, PartialEq, Eq, Structural, Debug)]
pub enum ColorType {
    Grayscale,
    Rgb,
    Indexed,
    GrayscaleAlpha,
    Rgba,
}

/// Bytes per pixel of a layout: the stride used to address the flat buffer.
pub open spec fn stride_of(ct: ColorType) -> nat {
    match ct {
        ColorType::Rgba => 4,
        ColorType::Rgb => 3,
        ColorType::GrayscaleAlpha => 2,
        ColorType::Grayscale => 1,
        ColorType::Indexed => 0,
    }
}

impl ColorType {
    /// Executable stride: bytes per pixel of a supported layout.
    pub fn stride(self) -> (r: u8)
        ensures
            r as nat == stride_of(self),
    {
        match self {
            ColorType::Rgba => 4,
            ColorType::Rgb => 3,
            ColorType::GrayscaleAlpha => 2,
            ColorType::Grayscale => 1,
            ColorType::Indexed => 0,
        }
    }
}

} // verus!
