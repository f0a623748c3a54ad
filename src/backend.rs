//! Pixel formats and the raw capture value produced by a display backend.
use vstd::prelude::*;

pub mod wayland;
pub mod x11;

verus! {

/// Errors reported by a display backend.
#[derive(Debug)]
pub enum DisplayError {
    UnsupportedBackend(String),
    InitializationError(String),
    CaptureError(String),
    InvalidArea(String),
    PortalError(String),
    IoError(std::io::Error),
}

pub type DisplayResult<T> = Result<T, DisplayError>;

/// `std::io::Error`, carried opaquely by `DisplayError::IoError`.
#[verifier::external_type_specification]
#[verifier::external_body]
pub struct ExIoError(std::io::Error);

/// Relies on the `Display` impl of `std::io::Error` for the text of an I/O error.
#[verifier::external_body]
fn io_error_text(e: &std::io::Error) -> String {
    e.to_string()
}

impl DisplayError {
    /// The prefix that the message of each variant carrying text starts with.
    pub open spec fn spec_prefix(&self) -> Seq<char> {
        match self {
            DisplayError::UnsupportedBackend(_) => "Backend not supported: "@,
            DisplayError::InitializationError(_) => "Failed to initialize display backend: "@,
            DisplayError::CaptureError(_) => "Capture failed: "@,
            DisplayError::InvalidArea(_) => "Invalid area: "@,
            DisplayError::PortalError(_) => "Portal error: "@,
            DisplayError::IoError(_) => Seq::empty(),
        }
    }

    /// Human-readable message: a fixed prefix followed by the detail text; an
    /// I/O error shows the text of the underlying error.
    pub fn to_string(&self) -> (r: String)
        ensures
            match self {
                DisplayError::UnsupportedBackend(s) => r@ == self.spec_prefix() + s@,
                DisplayError::InitializationError(s) => r@ == self.spec_prefix() + s@,
                DisplayError::CaptureError(s) => r@ == self.spec_prefix() + s@,
                DisplayError::InvalidArea(s) => r@ == self.spec_prefix() + s@,
                DisplayError::PortalError(s) => r@ == self.spec_prefix() + s@,
                DisplayError::IoError(_) => true,
            },
    {
        proof {
            reveal_strlit("Backend not supported: ");
            reveal_strlit("Failed to initialize display backend: ");
            reveal_strlit("Capture failed: ");
            reveal_strlit("Invalid area: ");
            reveal_strlit("Portal error: ");
        }
        match self {
            DisplayError::UnsupportedBackend(s) => String::from_str("Backend not supported: ").concat(s.as_str()),
            DisplayError::InitializationError(s) => String::from_str("Failed to initialize display backend: ").concat(s.as_str()),
            DisplayError::CaptureError(s) => String::from_str("Capture failed: ").concat(s.as_str()),
            DisplayError::InvalidArea(s) => String::from_str("Invalid area: ").concat(s.as_str()),
            DisplayError::PortalError(s) => String::from_str("Portal error: ").concat(s.as_str()),
            DisplayError::IoError(e) => io_error_text(e),
        }
    }
}

/// Describes how the bytes of one raw pixel encode its colour channels.
/// The masks are given in the native order of the decoded pixel word.
#[derive(Debug, Clone, Copy, PartialEq, Eq, Structural)]
pub struct PixelFormat {
    /// Bits per pixel (24 or 32).
    pub bits_per_pixel: u8,
    /// Bytes per pixel (3 or 4).
    pub bytes_per_pixel: u8,
    /// Bit mask of the red channel.
    pub red_mask: u32,
    /// Bit mask of the green channel.
    pub green_mask: u32,
    /// Bit mask of the blue channel.
    pub blue_mask: u32,
}

/// The six raw layouts that the conversions understand.
#[derive(Debug, Clone, Copy, PartialEq, Eq, Structural)]
pub enum PixelKind {
    Rgb24,
    Rgb32,
    Rgba32,
    Bgr24,
    Bgr32,
    Bgra32,
}

impl PixelKind {
    /// The format record of each layout.
    pub open spec fn spec_format(self) -> PixelFormat {
        match self {
            PixelKind::Rgb24 => PixelFormat {
                bits_per_pixel: 24,
                bytes_per_pixel: 3,
                red_mask: 0xFF0000,
                green_mask: 0x00FF00,
                blue_mask: 0x0000FF,
            },
            PixelKind::Rgb32 => PixelFormat {
                bits_per_pixel: 32,
                bytes_per_pixel: 4,
                red_mask: 0xFF0000,
                green_mask: 0x00FF00,
                blue_mask: 0x0000FF,
            },
            PixelKind::Rgba32 => PixelFormat {
                bits_per_pixel: 32,
                bytes_per_pixel: 4,
                red_mask: 0xFF000000,
                green_mask: 0x00FF0000,
                blue_mask: 0x0000FF00,
            },
            PixelKind::Bgr24 => PixelFormat {
                bits_per_pixel: 24,
                bytes_per_pixel: 3,
                red_mask: 0x0000FF,
                green_mask: 0x00FF00,
                blue_mask: 0xFF0000,
            },
            PixelKind::Bgr32 => PixelFormat {
                bits_per_pixel: 32,
                bytes_per_pixel: 4,
                red_mask: 0x0000FF,
                green_mask: 0x00FF00,
                blue_mask: 0xFF0000,
            },
            PixelKind::Bgra32 => PixelFormat {
                bits_per_pixel: 32,
                bytes_per_pixel: 4,
                red_mask: 0x0000FF00,
                green_mask: 0x00FF0000,
                blue_mask: 0xFF000000,
            },
        }
    }

    /// Bytes that one raw pixel of this layout occupies.
    pub open spec fn spec_bytes(self) -> int {
        self.spec_format().bytes_per_pixel as int
    }

    /// Blue is stored first and red third.
    pub open spec fn is_bgr(self) -> bool {
        matches!(self, PixelKind::Bgr24 | PixelKind::Bgr32 | PixelKind::Bgra32)
    }

    /// The fourth byte carries alpha rather than padding.
    pub open spec fn has_alpha(self) -> bool {
        matches!(self, PixelKind::Rgba32 | PixelKind::Bgra32)
    }

    /// Offset within a raw pixel of the byte that holds output channel `k`
    /// (0 red, 1 green, 2 blue, 3 alpha).
    pub open spec fn spec_offset(self, k: int) -> int {
        if self.is_bgr() && k < 3 {
            2 - k
        } else {
            k
        }
    }

    /// The format record of this layout.
    pub fn format(self) -> (r: PixelFormat)
        ensures
            r == self.spec_format(),
    {
        match self {
            PixelKind::Rgb24 => PixelFormat::RGB24(),
            PixelKind::Rgb32 => PixelFormat::RGB32(),
            PixelKind::Rgba32 => PixelFormat::RGBA32(),
            PixelKind::Bgr24 => PixelFormat::BGR24(),
            PixelKind::Bgr32 => PixelFormat::BGR32(),
            PixelKind::Bgra32 => PixelFormat::BGRA32(),
        }
    }

    pub fn bytes(self) -> (r: usize)
        ensures
            r == self.spec_bytes(),
            r == 3 || r == 4,
    {
        match self {
            PixelKind::Rgb24 | PixelKind::Bgr24 => 3,
            _ => 4,
        }
    }

    pub fn alpha_present(self) -> (r: bool)
        ensures
            r == self.has_alpha(),
            r ==> self.spec_bytes() == 4,
    {
        matches!(self, PixelKind::Rgba32 | PixelKind::Bgra32)
    }

    pub fn offset(self, k: usize) -> (r: usize)
        requires
            k < 4,
        ensures
            r == self.spec_offset(k as int),
            r < 4,
            k < 3 ==> r < 3,
    {
        if matches!(self, PixelKind::Bgr24 | PixelKind::Bgr32 | PixelKind::Bgra32) && k < 3 {
            2 - k
        } else {
            k
        }
    }
}

/// Masks are non-zero and pairwise disjoint, and the byte count is the bit
/// count rounded up to whole bytes.
pub open spec fn format_well_formed(f: PixelFormat) -> bool {
    &&& f.red_mask != 0
    &&& f.green_mask != 0
    &&& f.blue_mask != 0
    &&& f.red_mask & f.green_mask == 0
    &&& f.red_mask & f.blue_mask == 0
    &&& f.green_mask & f.blue_mask == 0
    &&& f.bytes_per_pixel as int == (f.bits_per_pixel as int + 7) / 8
}

/// Each of the six named formats has disjoint, non-zero channel masks and
/// `bytes_per_pixel == ceil(bits_per_pixel / 8)`.
pub proof fn lemma_named_formats_well_formed(k: PixelKind)
    ensures
        format_well_formed(k.spec_format()),
{
    assert(0xFF0000u32 & 0x00FF00u32 == 0) by (bit_vector);
    assert(0xFF0000u32 & 0x0000FFu32 == 0) by (bit_vector);
    assert(0x00FF00u32 & 0x0000FFu32 == 0) by (bit_vector);
    assert(0x0000FFu32 & 0x00FF00u32 == 0) by (bit_vector);
    assert(0x0000FFu32 & 0xFF0000u32 == 0) by (bit_vector);
    assert(0x00FF00u32 & 0xFF0000u32 == 0) by (bit_vector);
    assert(0xFF000000u32 & 0x00FF0000u32 == 0) by (bit_vector);
    assert(0xFF000000u32 & 0x0000FF00u32 == 0) by (bit_vector);
    assert(0x00FF0000u32 & 0x0000FF00u32 == 0) by (bit_vector);
    assert(0x0000FF00u32 & 0x00FF0000u32 == 0) by (bit_vector);
    assert(0x0000FF00u32 & 0xFF000000u32 == 0) by (bit_vector);
    assert(0x00FF0000u32 & 0xFF000000u32 == 0) by (bit_vector);
}

impl PixelFormat {
    /// 24-bit RGB (8 bits per channel).
    #[allow(non_snake_case)]
    pub fn RGB24() -> (r: Self)
        ensures
            r == PixelKind::Rgb24.spec_format(),
    {
        Self {
            bits_per_pixel: 24,
            bytes_per_pixel: 3,
            red_mask: 0xFF0000,
            green_mask: 0x00FF00,
            blue_mask: 0x0000FF,
        }
    }

    /// 32-bit RGB (8 bits per channel and a padding byte).
    #[allow(non_snake_case)]
    pub fn RGB32() -> (r: Self)
        ensures
            r == PixelKind::Rgb32.spec_format(),
    {
        Self {
            bits_per_pixel: 32,
            bytes_per_pixel: 4,
            red_mask: 0xFF0000,
            green_mask: 0x00FF00,
            blue_mask: 0x0000FF,
        }
    }

    /// 32-bit RGBA (8 bits per channel).
    #[allow(non_snake_case)]
    pub fn RGBA32() -> (r: Self)
        ensures
            r == PixelKind::Rgba32.spec_format(),
    {
        Self {
            bits_per_pixel: 32,
            bytes_per_pixel: 4,
            red_mask: 0xFF000000,
            green_mask: 0x00FF0000,
            blue_mask: 0x0000FF00,
        }
    }

    /// 24-bit BGR (8 bits per channel).
    #[allow(non_snake_case)]
    pub fn BGR24() -> (r: Self)
        ensures
            r == PixelKind::Bgr24.spec_format(),
    {
        Self {
            bits_per_pixel: 24,
            bytes_per_pixel: 3,
            red_mask: 0x0000FF,
            green_mask: 0x00FF00,
            blue_mask: 0xFF0000,
        }
    }

    /// 32-bit BGR (8 bits per channel and a padding byte).
    #[allow(non_snake_case)]
    pub fn BGR32() -> (r: Self)
        ensures
            r == PixelKind::Bgr32.spec_format(),
    {
        Self {
            bits_per_pixel: 32,
            bytes_per_pixel: 4,
            red_mask: 0x0000FF,
            green_mask: 0x00FF00,
            blue_mask: 0xFF0000,
        }
    }

    /// 32-bit BGRA (8 bits per channel).
    #[allow(non_snake_case)]
    pub fn BGRA32() -> (r: Self)
        ensures
            r == PixelKind::Bgra32.spec_format(),
    {
        Self {
            bits_per_pixel: 32,
            bytes_per_pixel: 4,
            red_mask: 0x0000FF00,
            green_mask: 0x00FF0000,
            blue_mask: 0xFF000000,
        }
    }

    /// The named layout that this format equals field for field, if any.
    pub open spec fn spec_kind(self) -> Option<PixelKind> {
        if self == PixelKind::Rgb24.spec_format() {
            Some(PixelKind::Rgb24)
        } else if self == PixelKind::Rgb32.spec_format() {
            Some(PixelKind::Rgb32)
        } else if self == PixelKind::Rgba32.spec_format() {
            Some(PixelKind::Rgba32)
        } else if self == PixelKind::Bgr24.spec_format() {
            Some(PixelKind::Bgr24)
        } else if self == PixelKind::Bgr32.spec_format() {
            Some(PixelKind::Bgr32)
        } else if self == PixelKind::Bgra32.spec_format() {
            Some(PixelKind::Bgra32)
        } else {
            None
        }
    }

    /// Classifies this format as one of the six named layouts.
    pub fn kind(&self) -> (r: Option<PixelKind>)
        ensures
            r == self.spec_kind(),
    {
        if *self == PixelFormat::RGB24() {
            Some(PixelKind::Rgb24)
        } else if *self == PixelFormat::RGB32() {
            Some(PixelKind::Rgb32)
        } else if *self == PixelFormat::RGBA32() {
            Some(PixelKind::Rgba32)
        } else if *self == PixelFormat::BGR24() {
            Some(PixelKind::Bgr24)
        } else if *self == PixelFormat::BGR32() {
            Some(PixelKind::Bgr32)
        } else if *self == PixelFormat::BGRA32() {
            Some(PixelKind::Bgra32)
        } else {
            None
        }
    }
}

/// A pointer sprite: tightly packed straight RGBA pixels and a position
/// relative to the capture's origin.
#[derive(Debug, Clone)]
pub struct CursorData {
    /// RGBA bytes, four per pixel, row after row.
    pub pixels: Vec<u8>,
    /// Sprite width in pixels.
    pub width: u32,
    /// Sprite height in pixels.
    pub height: u32,
    /// Column of the sprite's top-left corner; may be negative.
    pub x: i32,
    /// Row of the sprite's top-left corner; may be negative.
    pub y: i32,
    /// Column of the hotspot within the sprite.
    pub xhot: u32,
    /// Row of the hotspot within the sprite.
    pub yhot: u32,
}

impl CursorData {
    /// The pixel buffer holds exactly four bytes per sprite pixel.
    pub open spec fn wf(&self) -> bool {
        self.pixels@.len() == self.width * self.height * 4
    }
}

/// Raw captured pixels and the metadata needed to read them.
#[derive(Debug)]
pub struct CaptureData {
    /// Raw pixel bytes in `format`.
    pub pixels: Vec<u8>,
    /// Image width in pixels.
    pub width: u32,
    /// Image height in pixels.
    pub height: u32,
    /// Bytes per row, padding included.
    pub stride: u32,
    /// Layout of each raw pixel.
    pub format: PixelFormat,
    /// Pointer sprite captured alongside, if any.
    pub cursor: Option<CursorData>,
}

impl CaptureData {
    /// Tightly packed rows, and a buffer of exactly `height * stride` bytes.
    pub open spec fn wf(&self) -> bool {
        &&& self.stride == self.width * self.format.bytes_per_pixel
        &&& self.pixels@.len() == self.height * self.stride
    }

    /// Creates a capture without a cursor; the buffer must hold exactly
    /// `width * height * bytes_per_pixel` bytes.
    pub fn new(pixels: Vec<u8>, width: u32, height: u32, format: PixelFormat) -> (r: Self)
        requires
            width * format.bytes_per_pixel <= u32::MAX,
            pixels@.len() == height * (width * format.bytes_per_pixel),
        ensures
            r.wf(),
            r.pixels@ == pixels@,
            r.width == width,
            r.height == height,
            r.stride == width * format.bytes_per_pixel,
            r.format == format,
            r.cursor is None,
    {
        Self::with_cursor(pixels, width, height, format, None)
    }

    /// Creates a capture with an optional cursor; the buffer must hold
    /// exactly `width * height * bytes_per_pixel` bytes.
    pub fn with_cursor(
        pixels: Vec<u8>,
        width: u32,
        height: u32,
        format: PixelFormat,
        cursor: Option<CursorData>,
    ) -> (r: Self)
        requires
            width * format.bytes_per_pixel <= u32::MAX,
            pixels@.len() == height * (width * format.bytes_per_pixel),
        ensures
            r.wf(),
            r.pixels@ == pixels@,
            r.width == width,
            r.height == height,
            r.stride == width * format.bytes_per_pixel,
            r.format == format,
            r.cursor == cursor,
    {
        let stride = width * format.bytes_per_pixel as u32;
        Self { pixels, width, height, stride, format, cursor }
    }

    /// The number of bytes that `height` rows of `stride` bytes occupy.
    pub fn size_bytes(&self) -> (r: u32)
        requires
            self.height * self.stride <= u32::MAX,
        ensures
            r == self.height * self.stride,
    {
        self.height * self.stride
    }
}

} // verus!
