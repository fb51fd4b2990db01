//! The closed set of failures this library reports.

use vstd::prelude::*;

verus! {

/// Everything that can go wrong while constructing a raster or looking up a
/// pixel. Reading the file from disk is the caller's business, so an I/O
/// failure never reaches these variants.
#[derive(Clone, Copy, PartialEq, Eq, Structural, Debug)]
pub enum TpngError {
    /// The byte stream is not a valid image, or the decoded buffer does not
    /// match the advertised dimensions and layout.
    Decode,
    /// The image uses the indexed (palette) color layout, which is not
    /// supported.
    UnsupportedLayout,
    /// A pixel lookup named a coordinate outside the raster, together with
    /// the bounds that were in force.
    CoordinateOutOfRange { x: u32, y: u32, width: u32, height: u32 },
}

} // verus!
