//! The part of the portal backend that is not I/O: which pixel format a
//! decoded screenshot maps to.
use vstd::prelude::*;

use crate::backend::{DisplayError, DisplayResult, PixelFormat, PixelKind};

verus! {

/// Backend that captures through the desktop portal's screenshot request.
pub struct WaylandBackend;

impl WaylandBackend {
    /// Creates the backend; it holds no state, so this always succeeds.
    pub fn new() -> (r: DisplayResult<Self>)
        ensures
            r is Ok,
    {
        Ok(WaylandBackend)
    }
}

/// Colour layout of a decoded image.
#[derive(Debug, Clone, Copy, PartialEq, Eq, Structural)]
pub enum ColorKind {
    L8,
    La8,
    Rgb8,
    Rgba8,
    L16,
    La16,
    Rgb16,
    Rgba16,
    Rgb32F,
    Rgba32F,
}

/// Maps the colour layout of a decoded screenshot to a pixel format:
/// RGB8 and RGBA8 to their formats, grayscale is refused, and any other
/// layout is read as RGB24.
pub fn pixel_format_from_color_type(color: ColorKind) -> (r: Result<PixelFormat, DisplayError>)
    ensures
        color == ColorKind::Rgba8 ==> (r matches Ok(f) && f == PixelKind::Rgba32.spec_format()),
        color == ColorKind::L8 ==> (r matches Err(DisplayError::UnsupportedBackend(m)) && m@
            == "Grayscale images not supported"@),
        color != ColorKind::Rgba8 && color != ColorKind::L8 ==> (r matches Ok(f) && f
            == PixelKind::Rgb24.spec_format()),
{
    match color {
        ColorKind::Rgb8 => Ok(PixelFormat::RGB24()),
        ColorKind::Rgba8 => Ok(PixelFormat::RGBA32()),
        ColorKind::L8 => Err(DisplayError::UnsupportedBackend(String::from_str("Grayscale images not supported"))),
        _ => Ok(PixelFormat::RGB24()),
    }
}

} // verus!
