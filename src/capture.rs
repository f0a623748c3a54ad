//! Conversion of raw captures into canonical RGB / RGBA buffers, cursor
//! compositing, and the settings used when a capture is saved.
use vstd::prelude::*;
use vstd::arithmetic::div_mod::lemma_fundamental_div_mod;
use vstd::arithmetic::div_mod::lemma_fundamental_div_mod_converse;

use std::fmt::Write;

use crate::backend::{CaptureData, CursorData, PixelFormat, PixelKind};

verus! {

/// Errors of conversion and saving.
#[derive(Debug)]
pub enum SaveError {
    /// The capture's format is none of the six named layouts.
    InvalidPixelFormat(PixelFormat),
    /// The raw buffer ends before the last byte that the pixel grid reads.
    BufferTooShort { required: u128, available: usize },
    /// The output location or file name could not be settled.
    FilenameError(String),
}

pub type SaveResult<T> = Result<T, SaveError>;

// ---------------------------------------------------------------------------
// Packed buffer layout
// ---------------------------------------------------------------------------

/// Index of channel `k` of pixel `(x, y)` in a packed buffer `w` pixels wide
/// with `ch` channels per pixel.
pub open spec fn packed_index(w: int, ch: int, x: int, y: int, k: int) -> int {
    (y * w + x) * ch + k
}

/// Column of the pixel that byte `i` of a packed buffer belongs to.
pub open spec fn col_of(i: int, w: int, ch: int) -> int {
    (i / ch) % w
}

/// Row of the pixel that byte `i` of a packed buffer belongs to.
pub open spec fn row_of(i: int, w: int, ch: int) -> int {
    (i / ch) / w
}

proof fn lemma_packed_index(w: int, ch: int, x: int, y: int, k: int)
    requires
        0 < w,
        0 < ch,
        0 <= x < w,
        0 <= y,
        0 <= k < ch,
    ensures
        packed_index(w, ch, x, y, k) >= 0,
        packed_index(w, ch, x, y, k) % ch == k,
        col_of(packed_index(w, ch, x, y, k), w, ch) == x,
        row_of(packed_index(w, ch, x, y, k), w, ch) == y,
{
    let p = y * w + x;
    assert(y * w >= 0) by (nonlinear_arith)
        requires
            y >= 0,
            w > 0,
    ;
    assert(p * ch >= 0) by (nonlinear_arith)
        requires
            p >= 0,
            ch > 0,
    ;
    lemma_fundamental_div_mod_converse(p * ch + k, ch, p, k);
    lemma_fundamental_div_mod_converse(p, w, y, x);
}

proof fn lemma_row_col(i: int, w: int, ch: int)
    requires
        0 <= i,
        0 < w,
        0 < ch,
    ensures
        i == packed_index(w, ch, col_of(i, w, ch), row_of(i, w, ch), i % ch),
        0 <= col_of(i, w, ch) < w,
        0 <= row_of(i, w, ch),
        0 <= i % ch < ch,
{
    lemma_fundamental_div_mod(i, ch);
    lemma_fundamental_div_mod(i / ch, w);
    assert(ch * (i / ch) == (i / ch) * ch) by (nonlinear_arith);
    assert(w * ((i / ch) / w) == ((i / ch) / w) * w) by (nonlinear_arith);
}

proof fn lemma_packed_bound(w: int, h: int, ch: int, x: int, y: int, k: int)
    requires
        0 <= x < w,
        0 <= y < h,
        0 <= k < ch,
    ensures
        packed_index(w, ch, x, y, k) < w * h * ch,
{
    assert((y * w + x) * ch + k < w * h * ch) by (nonlinear_arith)
        requires
            0 <= x < w,
            0 <= y < h,
            0 <= k < ch,
    ;
}

proof fn lemma_row_bound(i: int, w: int, h: int, ch: int)
    requires
        0 <= i < w * h * ch,
        0 < w,
        0 < ch,
    ensures
        row_of(i, w, ch) < h,
{
    lemma_row_col(i, w, ch);
    let x = col_of(i, w, ch);
    let y = row_of(i, w, ch);
    let k = i % ch;
    assert(y < h) by (nonlinear_arith)
        requires
            i == (y * w + x) * ch + k,
            i < w * h * ch,
            0 <= x,
            0 <= k,
            0 < w,
            0 < ch,
    ;
}

/// `width * height * ch`, computed without overflow.
fn area(width: u32, height: u32, ch: u32) -> (r: u128)
    requires
        ch <= 4,
    ensures
        r == width * height * ch,
{
    assert(width * height * ch <= u32::MAX * u32::MAX * 4) by (nonlinear_arith)
        requires
            width <= u32::MAX,
            height <= u32::MAX,
            ch <= 4,
    ;
    assert(width * height <= u32::MAX * u32::MAX) by (nonlinear_arith)
        requires
            width <= u32::MAX,
            height <= u32::MAX,
    ;
    width as u128 * height as u128 * ch as u128
}

// ---------------------------------------------------------------------------
// Canonical images
// ---------------------------------------------------------------------------

/// A tightly packed 3-channel image: row after row, `R, G, B` per pixel.
#[derive(Debug, Clone)]
pub struct RgbImage {
    pub width: u32,
    pub height: u32,
    pub pixels: Vec<u8>,
}

/// A tightly packed 4-channel image: row after row, `R, G, B, A` per pixel.
#[derive(Debug, Clone)]
pub struct RgbaImage {
    pub width: u32,
    pub height: u32,
    pub pixels: Vec<u8>,
}

impl RgbImage {
    /// The buffer holds exactly three bytes per pixel.
    pub open spec fn wf(&self) -> bool {
        self.pixels@.len() == self.width * self.height * 3
    }

    /// Wraps a packed buffer; `None` unless it holds exactly
    /// `width * height * 3` bytes.
    pub fn from_raw(width: u32, height: u32, pixels: Vec<u8>) -> (r: Option<Self>)
        ensures
            r is Some <==> pixels@.len() == width * height * 3,
            r matches Some(img) ==> img.width == width && img.height == height && img.pixels@
                == pixels@,
    {
        if pixels.len() as u128 == area(width, height, 3) {
            Some(RgbImage { width, height, pixels })
        } else {
            None
        }
    }

    pub fn dimensions(&self) -> (r: (u32, u32))
        ensures
            r == (self.width, self.height),
    {
        (self.width, self.height)
    }
}

impl RgbaImage {
    /// The buffer holds exactly four bytes per pixel.
    pub open spec fn wf(&self) -> bool {
        self.pixels@.len() == self.width * self.height * 4
    }

    /// Wraps a packed buffer; `None` unless it holds exactly
    /// `width * height * 4` bytes.
    pub fn from_raw(width: u32, height: u32, pixels: Vec<u8>) -> (r: Option<Self>)
        ensures
            r is Some <==> pixels@.len() == width * height * 4,
            r matches Some(img) ==> img.width == width && img.height == height && img.pixels@
                == pixels@,
    {
        if pixels.len() as u128 == area(width, height, 4) {
            Some(RgbaImage { width, height, pixels })
        } else {
            None
        }
    }

    pub fn dimensions(&self) -> (r: (u32, u32))
        ensures
            r == (self.width, self.height),
    {
        (self.width, self.height)
    }
}

// ---------------------------------------------------------------------------
// Canonicalisation
// ---------------------------------------------------------------------------

/// Channel `k` (0 red, 1 green, 2 blue, 3 alpha) of the pixel at `(x, y)`
/// of a raw capture whose layout is `kind`; layouts without alpha read as
/// opaque.
pub open spec fn source_channel(c: &CaptureData, kind: PixelKind, x: int, y: int, k: int) -> u8 {
    if k == 3 && !kind.has_alpha() {
        255
    } else {
        c.pixels@[y * c.stride + x * kind.spec_bytes() + kind.spec_offset(k)]
    }
}

/// The canonical `ch`-channel buffer of a raw capture whose layout is `kind`.
pub open spec fn canonical_bytes(c: &CaptureData, kind: PixelKind, ch: int) -> Seq<u8> {
    Seq::new(
        (c.width * c.height * ch) as nat,
        |i: int| source_channel(c, kind, col_of(i, c.width as int, ch), row_of(i, c.width as int, ch), i % ch),
    )
}

/// Bytes that the pixel grid of a capture with layout `kind` spans: up to
/// the end of the last pixel of the last row.
pub open spec fn required_len(c: &CaptureData, kind: PixelKind) -> int {
    if c.width == 0 || c.height == 0 {
        0
    } else {
        (c.height - 1) * c.stride + c.width * kind.spec_bytes()
    }
}

/// The raw buffer holds every byte that the pixel grid reads.
pub open spec fn fits(c: &CaptureData, kind: PixelKind) -> bool {
    required_len(c, kind) <= c.pixels@.len()
}

fn required_length(c: &CaptureData, kind: PixelKind) -> (r: u128)
    ensures
        r == required_len(c, kind),
{
    if c.width == 0 || c.height == 0 {
        0
    } else {
        assert((c.height - 1) * c.stride <= u32::MAX * u32::MAX) by (nonlinear_arith)
            requires
                c.height <= u32::MAX,
                c.stride <= u32::MAX,
                c.height >= 1,
        ;
        assert(c.width * kind.spec_bytes() <= u32::MAX * 4) by (nonlinear_arith)
            requires
                c.width <= u32::MAX,
                kind.spec_bytes() <= 4,
        ;
        (c.height as u128 - 1) * c.stride as u128 + c.width as u128 * kind.bytes() as u128
    }
}

/// Every byte of pixel `(x, y)` lies inside a buffer that fits the grid.
proof fn lemma_pixel_in_buffer(c: &CaptureData, kind: PixelKind, x: int, y: int)
    requires
        fits(c, kind),
        0 <= x < c.width,
        0 <= y < c.height,
    ensures
        y * c.stride + x * kind.spec_bytes() + kind.spec_bytes() <= c.pixels@.len(),
{
    let s = c.stride as int;
    let b = kind.spec_bytes();
    let h = c.height as int;
    let w = c.width as int;
    assert(required_len(c, kind) == (h - 1) * s + w * b);
    assert(y * s + x * b + b <= (h - 1) * s + w * b) by (nonlinear_arith)
        requires
            0 <= x < w,
            0 <= y < h,
            s >= 0,
            b >= 0,
    ;
}

/// Packs the pixels of a capture into `ch` channels per pixel, reading each
/// row from its own start `y * stride`.
fn pack_channels(c: &CaptureData, kind: PixelKind, ch: usize) -> (r: Vec<u8>)
    requires
        ch == 3 || ch == 4,
        fits(c, kind),
        c.width * c.height * ch <= usize::MAX,
    ensures
        r@ == canonical_bytes(c, kind, ch as int),
{
    let ghost w = c.width as int;
    let ghost h = c.height as int;
    let ghost total = c.width * c.height * ch;
    let ghost bpp = kind.spec_bytes();
    let ghost expected = canonical_bytes(c, kind, ch as int);
    let bytes = kind.bytes();
    let alpha = kind.alpha_present();
    let len = c.pixels.len();
    assert(len <= u64::MAX);
    let cap = area(c.width, c.height, ch as u32) as usize;
    let mut out: Vec<u8> = Vec::with_capacity(cap);
    let mut y: u32 = 0;
    while y < c.height
        invariant
            0 <= y <= h,
            w == c.width,
            h == c.height,
            ch == 3 || ch == 4,
            bytes == bpp,
            bpp == kind.spec_bytes(),
            bpp == 3 || bpp == 4,
            alpha == kind.has_alpha(),
            alpha ==> bpp == 4,
            fits(c, kind),
            len == c.pixels@.len(),
            len <= u64::MAX,
            expected == canonical_bytes(c, kind, ch as int),
            expected.len() == w * h * ch,
            out@.len() == y * w * ch,
            forall|i: int| 0 <= i < out@.len() ==> #[trigger] out@[i] == expected[i],
        decreases c.height - y,
    {
        proof {
            assert(y * c.stride <= (h - 1) * c.stride) by (nonlinear_arith)
                requires
                    y <= h - 1,
                    c.stride >= 0,
            ;
            assert((h - 1) * c.stride <= u32::MAX * u32::MAX) by (nonlinear_arith)
                requires
                    1 <= h <= u32::MAX,
                    c.stride <= u32::MAX,
            ;
        }
        let row_start: u64 = y as u64 * c.stride as u64;
        let mut x: u32 = 0;
        while x < c.width
            invariant
                0 <= y < h,
                0 <= x <= w,
                w == c.width,
                h == c.height,
                ch == 3 || ch == 4,
                bytes == bpp,
                bpp == kind.spec_bytes(),
                bpp == 3 || bpp == 4,
                alpha == kind.has_alpha(),
                alpha ==> bpp == 4,
                fits(c, kind),
                len == c.pixels@.len(),
                len <= u64::MAX,
                expected == canonical_bytes(c, kind, ch as int),
                expected.len() == w * h * ch,
                row_start == y * c.stride,
                row_start <= (h - 1) * c.stride,
                out@.len() == (y * w + x) * ch,
                forall|i: int| 0 <= i < out@.len() ==> #[trigger] out@[i] == expected[i],
            decreases c.width - x,
        {
            proof {
                assert(x * bpp + bpp <= w * bpp) by (nonlinear_arith)
                    requires
                        x < w,
                        bpp > 0,
                ;
                assert(x * bpp <= u32::MAX * 4) by (nonlinear_arith)
                    requires
                        x <= u32::MAX,
                        bpp <= 4,
                        bpp >= 0,
                ;
                lemma_pixel_in_buffer(c, kind, x as int, y as int);
            }
            let step: u64 = x as u64 * bytes as u64;
            let base: u64 = row_start + step;
            let mut k: usize = 0;
            while k < ch
                invariant
                    0 <= y < h,
                    0 <= x < w,
                    0 <= k <= ch,
                    w == c.width,
                    h == c.height,
                    ch == 3 || ch == 4,
                    bytes == bpp,
                    bpp == kind.spec_bytes(),
                    bpp == 3 || bpp == 4,
                    alpha == kind.has_alpha(),
                    alpha ==> bpp == 4,
                    fits(c, kind),
                    len == c.pixels@.len(),
                    len <= u64::MAX,
                    expected == canonical_bytes(c, kind, ch as int),
                    expected.len() == w * h * ch,
                    base == y * c.stride + x * bpp,
                    base + bpp <= c.pixels@.len(),
                    out@.len() == (y * w + x) * ch + k,
                    forall|i: int| 0 <= i < out@.len() ==> #[trigger] out@[i] == expected[i],
                decreases ch - k,
            {
                proof {
                    lemma_packed_index(w, ch as int, x as int, y as int, k as int);
                    lemma_packed_bound(w, h, ch as int, x as int, y as int, k as int);
                }
                let byte = if k == 3 && !alpha {
                    255u8
                } else {
                    let off = kind.offset(k);
                    c.pixels[(base + off as u64) as usize]
                };
                out.push(byte);
                k = k + 1;
            }
            assert((y * w + x) * ch + ch == (y * w + x + 1) * ch) by (nonlinear_arith);
            x = x + 1;
        }
        assert((y * w + w) * ch == (y + 1) * w * ch) by (nonlinear_arith);
        y = y + 1;
    }
    assert(h * w * ch == w * h * ch) by (nonlinear_arith);
    assert(out@ =~= expected);
    out
}

/// Converts a capture into a packed RGB image.
///
/// Fails with `InvalidPixelFormat` when the format is none of the six named
/// layouts, and with `BufferTooShort` when the raw buffer ends before the
/// last byte that `width`, `height` and `stride` make it read.
pub fn capture_to_rgb_image(capture: &CaptureData) -> (r: SaveResult<RgbImage>)
    requires
        capture.width * capture.height * 3 <= usize::MAX,
    ensures
        capture.format.spec_kind() is None ==> (r matches Err(SaveError::InvalidPixelFormat(f)) && f
            == capture.format),
        capture.format.spec_kind() matches Some(kind) ==> {
            if fits(capture, kind) {
                r matches Ok(img) && img.width == capture.width && img.height == capture.height
                    && img.pixels@ == canonical_bytes(capture, kind, 3)
            } else {
                r matches Err(SaveError::BufferTooShort { required, available }) && required
                    == required_len(capture, kind) && available == capture.pixels@.len()
            }
        },
{
    match capture.format.kind() {
        None => Err(SaveError::InvalidPixelFormat(capture.format)),
        Some(kind) => {
            let required = required_length(capture, kind);
            if required > capture.pixels.len() as u128 {
                Err(SaveError::BufferTooShort { required, available: capture.pixels.len() })
            } else {
                let pixels = pack_channels(capture, kind, 3);
                Ok(RgbImage { width: capture.width, height: capture.height, pixels })
            }
        },
    }
}

/// Converts a capture into a packed RGBA image; layouts without alpha get
/// an opaque alpha byte.
///
/// Fails with `InvalidPixelFormat` when the format is none of the six named
/// layouts, and with `BufferTooShort` when the raw buffer ends before the
/// last byte that `width`, `height` and `stride` make it read.
pub fn capture_to_rgba_image(capture: &CaptureData) -> (r: SaveResult<RgbaImage>)
    requires
        capture.width * capture.height * 4 <= usize::MAX,
    ensures
        capture.format.spec_kind() is None ==> (r matches Err(SaveError::InvalidPixelFormat(f)) && f
            == capture.format),
        capture.format.spec_kind() matches Some(kind) ==> {
            if fits(capture, kind) {
                r matches Ok(img) && img.width == capture.width && img.height == capture.height
                    && img.pixels@ == canonical_bytes(capture, kind, 4)
            } else {
                r matches Err(SaveError::BufferTooShort { required, available }) && required
                    == required_len(capture, kind) && available == capture.pixels@.len()
            }
        },
{
    match capture.format.kind() {
        None => Err(SaveError::InvalidPixelFormat(capture.format)),
        Some(kind) => {
            let required = required_length(capture, kind);
            if required > capture.pixels.len() as u128 {
                Err(SaveError::BufferTooShort { required, available: capture.pixels.len() })
            } else {
                let pixels = pack_channels(capture, kind, 4);
                Ok(RgbaImage { width: capture.width, height: capture.height, pixels })
            }
        },
    }
}


// ---------------------------------------------------------------------------
// Cursor compositing
// ---------------------------------------------------------------------------

/// Source-over blend of channel value `s` with alpha `a` onto `d`,
/// truncating: `(s * a + d * (255 - a)) / 255`.
pub open spec fn blend(s: u8, d: u8, a: u8) -> u8 {
    ((s * a + d * (255 - a)) / 255) as u8
}

/// The sprite pixel drawn over image pixel `(px, py)`: the sprite's own
/// coordinates are `(px - x, py - y)`, so sprite pixels left of or above the
/// image are clipped away.
pub open spec fn covers(cursor: &CursorData, px: int, py: int) -> bool {
    0 <= px - cursor.x < cursor.width && 0 <= py - cursor.y < cursor.height
}

/// Byte `i` of an RGBA image `w` pixels wide whose bytes were `old`, after
/// `cursor` has been composited onto it.
pub open spec fn composited_byte(old: Seq<u8>, w: int, cursor: &CursorData, i: int) -> u8 {
    let px = col_of(i, w, 4);
    let py = row_of(i, w, 4);
    let k = i % 4;
    if covers(cursor, px, py) {
        let s = packed_index(cursor.width as int, 4, px - cursor.x, py - cursor.y, 0);
        let a = cursor.pixels@[s + 3];
        if a == 0 {
            old[i]
        } else if k == 3 {
            255
        } else {
            blend(cursor.pixels@[s + k], old[i], a)
        }
    } else {
        old[i]
    }
}

/// The bytes of an RGBA image after `cursor` has been composited onto it.
pub open spec fn composited(old: Seq<u8>, w: int, cursor: &CursorData) -> Seq<u8> {
    Seq::new(old.len(), |i: int| composited_byte(old, w, cursor, i))
}

fn blend_channel(s: u8, d: u8, a: u8) -> (r: u8)
    ensures
        r == blend(s, d, a),
{
    assert(s * a + d * (255 - a) <= 255 * 255) by (nonlinear_arith)
        requires
            s <= 255,
            d <= 255,
            a <= 255,
    ;
    assert(s * a + d * (255 - a) >= 0) by (nonlinear_arith)
        requires
            s >= 0,
            d >= 0,
            a <= 255,
    ;
    let num: u32 = s as u32 * a as u32 + d as u32 * (255 - a as u32);
    (num / 255) as u8
}

/// The pixel that byte `i` belongs to has been visited by a row-major sweep
/// that stands at column `cx` of row `cy`.
spec fn swept(i: int, w: int, cx: int, cy: int) -> bool {
    row_of(i, w, 4) < cy || (row_of(i, w, 4) == cy && col_of(i, w, 4) < cx)
}

proof fn lemma_pixel_bytes(w: int, px: int, py: int, i: int)
    requires
        0 < w,
        0 <= px < w,
        0 <= py,
        0 <= i,
    ensures
        (row_of(i, w, 4) == py && col_of(i, w, 4) == px) <==> (packed_index(w, 4, px, py, 0) <= i
            < packed_index(w, 4, px, py, 0) + 4),
{
    lemma_row_col(i, w, 4);
    if packed_index(w, 4, px, py, 0) <= i < packed_index(w, 4, px, py, 0) + 4 {
        lemma_packed_index(w, 4, px, py, i - packed_index(w, 4, px, py, 0));
    }
}

/// Alpha-blends `cursor` onto `image` in place. Sprite pixel `(cx, cy)`
/// lands on image pixel `(cursor.x + cx, cursor.y + cy)`; pixels that fall
/// outside the image are clipped, fully transparent sprite pixels leave the
/// image alone, and every blended pixel becomes opaque.
pub fn composite_cursor(image: &mut RgbaImage, cursor: &CursorData)
    requires
        old(image).wf(),
        cursor.wf(),
    ensures
        final(image).width == old(image).width,
        final(image).height == old(image).height,
        final(image).pixels@ == composited(old(image).pixels@, old(image).width as int, cursor),
{
    let ghost old_pixels = image.pixels@;
    let ghost w = image.width as int;
    let ghost h = image.height as int;
    let iw: i64 = image.width as i64;
    let ih: i64 = image.height as i64;
    let x_start: i64 = if cursor.x < 0 { 0 } else { cursor.x as i64 };
    let y_start: i64 = if cursor.y < 0 { 0 } else { cursor.y as i64 };
    let x_lim: i64 = if cursor.x as i64 + (cursor.width as i64) < iw {
        cursor.x as i64 + cursor.width as i64
    } else {
        iw
    };
    let y_lim: i64 = if cursor.y as i64 + (cursor.height as i64) < ih {
        cursor.y as i64 + cursor.height as i64
    } else {
        ih
    };
    let x_end: i64 = if x_lim < x_start { x_start } else { x_lim };
    let y_end: i64 = if y_lim < y_start { y_start } else { y_lim };
    let clen = cursor.pixels.len();
    let ilen = image.pixels.len();
    if iw == 0 {
        assert(image.pixels@ =~= composited(old_pixels, w, cursor));
        return;
    }
    let mut py: i64 = y_start;
    while py < y_end
        invariant
            image.width == w,
            image.height == h,
            w == iw,
            h == ih,
            0 < w,
            image.pixels@.len() == old_pixels.len(),
            old_pixels.len() == w * h * 4,
            ilen == old_pixels.len(),
            clen == cursor.pixels@.len(),
            cursor.wf(),
            0 <= x_start <= x_end,
            0 <= y_start <= py <= y_end,
            x_start == (if cursor.x < 0 { 0 } else { cursor.x as int }),
            y_start == (if cursor.y < 0 { 0 } else { cursor.y as int }),
            x_end >= cursor.x + cursor.width || x_end >= w,
            y_end >= cursor.y + cursor.height || y_end >= h,
            x_end == x_start || (x_end <= cursor.x + cursor.width && x_end <= w),
            y_end == y_start || (y_end <= cursor.y + cursor.height && y_end <= h),
            forall|i: int|
                0 <= i < old_pixels.len() ==> #[trigger] image.pixels@[i] == if swept(i, w, x_start as int, py as int) {
                    composited_byte(old_pixels, w, cursor, i)
                } else {
                    old_pixels[i]
                },
        decreases y_end - py,
    {
        let mut px: i64 = x_start;
        while px < x_end
            invariant
                image.width == w,
                image.height == h,
                w == iw,
                h == ih,
                0 < w,
                image.pixels@.len() == old_pixels.len(),
                old_pixels.len() == w * h * 4,
                ilen == old_pixels.len(),
                clen == cursor.pixels@.len(),
                cursor.wf(),
                0 <= x_start <= px <= x_end,
                0 <= y_start <= py < y_end,
                x_start == (if cursor.x < 0 { 0 } else { cursor.x as int }),
                y_start == (if cursor.y < 0 { 0 } else { cursor.y as int }),
                x_end >= cursor.x + cursor.width || x_end >= w,
                y_end >= cursor.y + cursor.height || y_end >= h,
                x_end == x_start || (x_end <= cursor.x + cursor.width && x_end <= w),
                y_end == y_start || (y_end <= cursor.y + cursor.height && y_end <= h),
                forall|i: int|
                    0 <= i < old_pixels.len() ==> #[trigger] image.pixels@[i] == if swept(i, w, px as int, py as int) {
                        composited_byte(old_pixels, w, cursor, i)
                    } else {
                        old_pixels[i]
                    },
            decreases x_end - px,
        {
            let cx: i64 = px - cursor.x as i64;
            let cy: i64 = py - cursor.y as i64;
            proof {
                lemma_packed_bound(cursor.width as int, cursor.height as int, 4, cx as int, cy as int, 3);
                lemma_packed_bound(w, h, 4, px as int, py as int, 3);
            }
            let s: usize = ((cy as u64 * cursor.width as u64 + cx as u64) * 4) as usize;
            let a = cursor.pixels[s + 3];
            if a != 0 {
                let base: usize = ((py as u64 * iw as u64 + px as u64) * 4) as usize;
                let r = blend_channel(cursor.pixels[s], image.pixels[base], a);
                let g = blend_channel(cursor.pixels[s + 1], image.pixels[base + 1], a);
                let b = blend_channel(cursor.pixels[s + 2], image.pixels[base + 2], a);
                image.pixels.set(base, r);
                image.pixels.set(base + 1, g);
                image.pixels.set(base + 2, b);
                image.pixels.set(base + 3, 255);
            }
            proof {
                assert forall|i: int| 0 <= i < old_pixels.len() implies #[trigger] image.pixels@[i] == if swept(i, w, px + 1, py as int) {
                    composited_byte(old_pixels, w, cursor, i)
                } else {
                    old_pixels[i]
                } by {
                    lemma_pixel_bytes(w, px as int, py as int, i);
                    lemma_row_col(i, w, 4);
                    if row_of(i, w, 4) == py && col_of(i, w, 4) == px {
                        lemma_packed_index(w, 4, px as int, py as int, i % 4);
                    }
                }
            }
            px = px + 1;
        }
        proof {
            assert forall|i: int| 0 <= i < old_pixels.len() implies #[trigger] image.pixels@[i] == if swept(i, w, x_start as int, py + 1) {
                composited_byte(old_pixels, w, cursor, i)
            } else {
                old_pixels[i]
            } by {
                lemma_row_col(i, w, 4);
            }
        }
        py = py + 1;
    }
    proof {
        assert forall|i: int| 0 <= i < old_pixels.len() implies #[trigger] image.pixels@[i] == composited_byte(old_pixels, w, cursor, i) by {
            lemma_row_col(i, w, 4);
            lemma_row_bound(i, w, h, 4);
        }
    }
    assert(image.pixels@ =~= composited(old_pixels, w, cursor));
}

/// The RGBA image that a capture is saved as: the canonical RGBA buffer,
/// with the capture's sprite composited onto it when `with_cursor` is set
/// and a sprite is present. Fails as `capture_to_rgba_image` does.
pub fn render_rgba(capture: &CaptureData, with_cursor: bool) -> (r: SaveResult<RgbaImage>)
    requires
        capture.width * capture.height * 4 <= usize::MAX,
        with_cursor && capture.cursor is Some ==> capture.cursor->0.wf(),
    ensures
        capture.format.spec_kind() is None ==> (r matches Err(SaveError::InvalidPixelFormat(f)) && f
            == capture.format),
        capture.format.spec_kind() matches Some(kind) ==> {
            if fits(capture, kind) {
                r matches Ok(img) && img.width == capture.width && img.height == capture.height
                    && img.pixels@ == if with_cursor && capture.cursor is Some {
                    composited(canonical_bytes(capture, kind, 4), capture.width as int, &capture.cursor->0)
                } else {
                    canonical_bytes(capture, kind, 4)
                }
            } else {
                r matches Err(SaveError::BufferTooShort { required, available }) && required
                    == required_len(capture, kind) && available == capture.pixels@.len()
            }
        },
{
    let mut image = capture_to_rgba_image(capture)?;
    if with_cursor {
        if let Some(cursor) = &capture.cursor {
            composite_cursor(&mut image, cursor);
        }
    }
    Ok(image)
}

/// Compositing a sprite whose every pixel has alpha 0 leaves every byte of
/// the image as it was.
pub proof fn lemma_transparent_cursor_keeps_image(old: Seq<u8>, w: int, cursor: &CursorData)
    requires
        cursor.wf(),
        forall|j: int| 0 <= j < cursor.width * cursor.height ==> #[trigger] cursor.pixels@[4 * j + 3] == 0,
    ensures
        composited(old, w, cursor) == old,
{
    assert forall|i: int| 0 <= i < old.len() implies #[trigger] composited(old, w, cursor)[i] == old[i] by {
        let px = col_of(i, w, 4);
        let py = row_of(i, w, 4);
        if covers(cursor, px, py) {
            let cx = px - cursor.x;
            let cy = py - cursor.y;
            let j = cy * cursor.width + cx;
            assert(j < cursor.width * cursor.height) by (nonlinear_arith)
                requires
                    0 <= cx < cursor.width,
                    0 <= cy < cursor.height,
                    j == cy * cursor.width + cx,
            ;
            assert(0 <= j) by (nonlinear_arith)
                requires
                    0 <= cx,
                    0 <= cy,
                    0 <= cursor.width,
                    j == cy * cursor.width + cx,
            ;
            assert(cursor.pixels@[4 * j + 3] == 0);
            assert(packed_index(cursor.width as int, 4, cx, cy, 0) + 3 == 4 * j + 3);
        }
    }
    assert(composited(old, w, cursor) =~= old);
}

// ---------------------------------------------------------------------------
// Save settings
// ---------------------------------------------------------------------------

/// Encoding of a saved image.
#[derive(Debug, Clone, Copy, PartialEq, Eq, Structural)]
pub enum ImageFormat {
    Png,
    Jpeg { quality: u8 },
}

impl ImageFormat {
    pub open spec fn spec_extension(&self) -> Seq<char> {
        match self {
            ImageFormat::Png => "png"@,
            ImageFormat::Jpeg { .. } => "jpg"@,
        }
    }

    /// The file extension for this encoding.
    pub fn extension(&self) -> (r: &'static str)
        ensures
            r@ == self.spec_extension(),
    {
        proof {
            reveal_strlit("png");
            reveal_strlit("jpg");
        }
        match self {
            ImageFormat::Png => "png",
            ImageFormat::Jpeg { .. } => "jpg",
        }
    }

    /// Accepts a JPEG quality from 1 to 100.
    pub fn validate_jpeg_quality(quality: u8) -> (r: SaveResult<()>)
        ensures
            r is Ok <==> 1 <= quality <= 100,
            r matches Err(e) ==> (e matches SaveError::FilenameError(m) && m@
                == "JPEG quality must be between 1 and 100"@),
    {
        if quality < 1 || quality > 100 {
            return Err(SaveError::FilenameError(String::from_str("JPEG quality must be between 1 and 100")));
        }
        Ok(())
    }
}

/// Settings for saving a capture.
#[derive(Debug, Clone)]
pub struct SaveConfig {
    /// Output directory; the user's pictures directory when absent.
    pub output_dir: Option<String>,
    /// Encoding of the saved file.
    pub format: ImageFormat,
    /// Whether the pointer sprite is drawn onto the saved image.
    pub include_cursor: bool,
    /// File name prefix; `screenshot` when absent.
    pub filename_prefix: Option<String>,
    /// Custom timestamp pattern.
    pub timestamp_format: Option<String>,
}

impl Default for SaveConfig {
    fn default() -> (r: Self)
        ensures
            r.output_dir is None,
            r.format == ImageFormat::Png,
            r.include_cursor,
            r.filename_prefix is None,
            r.timestamp_format is None,
    {
        SaveConfig {
            output_dir: None,
            format: ImageFormat::Png,
            include_cursor: true,
            filename_prefix: None,
            timestamp_format: None,
        }
    }
}

impl SaveConfig {
    /// Sets the output directory.
    pub fn with_output_dir(self, dir: &str) -> (r: Self)
        ensures
            r.output_dir matches Some(d) && d@ == dir@,
            r.format == self.format,
            r.include_cursor == self.include_cursor,
            r.filename_prefix == self.filename_prefix,
            r.timestamp_format == self.timestamp_format,
    {
        SaveConfig { output_dir: Some(String::from_str(dir)), ..self }
    }

    /// Sets the encoding.
    pub fn with_format(self, format: ImageFormat) -> (r: Self)
        ensures
            r.output_dir == self.output_dir,
            r.format == format,
            r.include_cursor == self.include_cursor,
            r.filename_prefix == self.filename_prefix,
            r.timestamp_format == self.timestamp_format,
    {
        SaveConfig { format, ..self }
    }

    /// Sets whether the pointer sprite is drawn.
    pub fn with_cursor(self, enabled: bool) -> (r: Self)
        ensures
            r.output_dir == self.output_dir,
            r.format == self.format,
            r.include_cursor == enabled,
            r.filename_prefix == self.filename_prefix,
            r.timestamp_format == self.timestamp_format,
    {
        SaveConfig { include_cursor: enabled, ..self }
    }

    /// Sets the file name prefix.
    pub fn with_prefix(self, prefix: &str) -> (r: Self)
        ensures
            r.output_dir == self.output_dir,
            r.format == self.format,
            r.include_cursor == self.include_cursor,
            r.filename_prefix matches Some(p) && p@ == prefix@,
            r.timestamp_format == self.timestamp_format,
    {
        SaveConfig { filename_prefix: Some(String::from_str(prefix)), ..self }
    }

    /// The output directory: the configured one, else `pictures_dir` (the
    /// user's pictures directory, when it is known).
    pub fn get_output_dir(&self, pictures_dir: Option<String>) -> (r: SaveResult<String>)
        ensures
            self.output_dir matches Some(d) ==> (r matches Ok(s) && s@ == d@),
            self.output_dir is None && pictures_dir is Some ==> (r matches Ok(s) && s@
                == pictures_dir->0@),
            self.output_dir is None && pictures_dir is None ==> (r matches Err(
                SaveError::FilenameError(m),
            ) && m@ == "Could not determine Pictures directory"@),
    {
        match &self.output_dir {
            Some(dir) => Ok(dir.clone()),
            None => match pictures_dir {
                Some(p) => Ok(p),
                None => Err(SaveError::FilenameError(String::from_str("Could not determine Pictures directory"))),
            },
        }
    }

    /// The prefix that file names start with.
    pub open spec fn spec_prefix(&self) -> Seq<char> {
        match self.filename_prefix {
            Some(p) => p@,
            None => "screenshot"@,
        }
    }
}

/// Pattern of the default timestamp in file names.
pub const STAMP_PATTERN: &'static str = "%Y-%m-%d_%H-%M-%S";

/// Text of the instant `secs` seconds and `nanos` nanoseconds after the Unix
/// epoch, in UTC, rendered with a strftime-style `pattern`; absent when the
/// instant is out of range or the pattern cannot be rendered.
pub uninterp spec fn utc_stamp_of(secs: i64, nanos: u32, pattern: Seq<char>) -> Option<Seq<char>>;

/// Relies on chrono's `DateTime::from_timestamp` (UTC instant from seconds and
/// nanoseconds since the epoch, `None` when out of range) and on rendering
/// its `format(pattern)`, which depends on the arguments alone.
#[verifier::external_body]
fn utc_stamp(secs: i64, nanos: u32, pattern: &str) -> (r: Option<String>)
    ensures
        match utc_stamp_of(secs, nanos, pattern@) {
            Some(t) => r matches Some(s) && s@ == t,
            None => r is None,
        },
{
    let mut out = String::new();
    let time = chrono::DateTime::from_timestamp(secs, nanos)?;
    write!(out, "{}", time.format(pattern)).ok()?;
    Some(out)
}

/// `<prefix><stamp>.<extension>`.
pub open spec fn file_name_of(config: &SaveConfig, stamp: Seq<char>) -> Seq<char> {
    config.spec_prefix() + stamp + "."@ + config.format.spec_extension()
}

/// The file name for a capture taken at the instant rendered as `stamp`.
pub fn file_name(config: &SaveConfig, stamp: &str) -> (r: String)
    ensures
        r@ == file_name_of(config, stamp@),
{
    proof {
        reveal_strlit("screenshot");
        reveal_strlit(".");
    }
    let mut name = match &config.filename_prefix {
        Some(p) => p.clone(),
        None => String::from_str("screenshot"),
    };
    name.append(stamp);
    name.append(".");
    name.append(config.format.extension());
    name
}

/// The file name for a capture taken `secs` seconds and `nanos` nanoseconds
/// after the Unix epoch: the timestamp is the UTC date and time, or `custom`
/// when the configuration carries its own pattern. `None` when the instant
/// cannot be rendered.
pub fn generate_filename(config: &SaveConfig, secs: i64, nanos: u32) -> (r: Option<String>)
    ensures
        config.timestamp_format is Some ==> (r matches Some(n) && n@ == file_name_of(config, "custom"@)),
        config.timestamp_format is None ==> match utc_stamp_of(secs, nanos, STAMP_PATTERN@) {
            Some(t) => r matches Some(n) && n@ == file_name_of(config, t),
            None => r is None,
        },
{
    proof {
        reveal_strlit("custom");
    }
    if config.timestamp_format.is_some() {
        Some(file_name(config, "custom"))
    } else {
        match utc_stamp(secs, nanos, STAMP_PATTERN) {
            Some(stamp) => Some(file_name(config, stamp.as_str())),
            None => None,
        }
    }
}

} // verus!
