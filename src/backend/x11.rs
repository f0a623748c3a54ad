//! The decisions of the X11 backend, on plain values: which visual to use,
//! the pixel format it implies, where the pointer sprite lies, and which
//! capture areas are acceptable.
use vstd::prelude::*;

use crate::backend::{CursorData, DisplayError, PixelFormat};

verus! {

/// Visual class code of a true-colour visual.
pub const TRUE_COLOR: u8 = 4;

/// What the display server reports about one visual.
#[derive(Debug, Clone, Copy, PartialEq, Eq, Structural)]
pub struct VisualInfo {
    pub visual_id: u32,
    /// Visual class code; `TRUE_COLOR` for direct RGB.
    pub class: u8,
    /// Significant bits per colour channel.
    pub bits_per_rgb_value: u8,
    pub colormap_entries: u16,
    pub red_mask: u32,
    pub green_mask: u32,
    pub blue_mask: u32,
}

/// The visuals that the server offers at one depth.
#[derive(Debug, Clone)]
pub struct DepthInfo {
    pub depth: u8,
    pub visuals: Vec<VisualInfo>,
}

/// Order in which the server stores the bytes of multi-byte pixel words.
#[derive(Debug, Clone, Copy, PartialEq, Eq, Structural)]
pub enum ImageByteOrder {
    LsbFirst,
    MsbFirst,
    /// A code the protocol does not define; read as least significant first.
    Other(u8),
}

impl ImageByteOrder {
    /// Reads the protocol's byte-order code: 0 least, 1 most significant first.
    pub fn from_code(code: u8) -> (r: ImageByteOrder)
        ensures
            code == 0 ==> r == ImageByteOrder::LsbFirst,
            code == 1 ==> r == ImageByteOrder::MsbFirst,
            code > 1 ==> r == ImageByteOrder::Other(code),
    {
        if code == 0 {
            ImageByteOrder::LsbFirst
        } else if code == 1 {
            ImageByteOrder::MsbFirst
        } else {
            ImageByteOrder::Other(code)
        }
    }
}

/// `m` with its four bytes in reverse order.
pub open spec fn byte_swapped(m: u32) -> u32 {
    ((m & 0xff) << 24) | (((m >> 8) & 0xff) << 16) | (((m >> 16) & 0xff) << 8) | ((m >> 24) & 0xff)
}

/// Reverses the four bytes of a 32-bit mask: byte `i` of the result is
/// byte `3 - i` of `mask`.
pub fn swap_bytes(mask: u32) -> (r: u32)
    ensures
        r == byte_swapped(mask),
        r & 0xff == (mask >> 24) & 0xff,
        (r >> 8) & 0xff == (mask >> 16) & 0xff,
        (r >> 16) & 0xff == (mask >> 8) & 0xff,
        (r >> 24) & 0xff == mask & 0xff,
{
    let r = ((mask & 0xff) << 24) | ((mask & 0xff00) << 8) | ((mask >> 8) & 0xff00) | (mask >> 24);
    assert(r == byte_swapped(mask)) by (bit_vector)
        requires
            r == ((mask & 0xff) << 24) | ((mask & 0xff00) << 8) | ((mask >> 8) & 0xff00) | (mask
                >> 24),
    ;
    assert(byte_swapped(mask) & 0xff == (mask >> 24) & 0xff) by (bit_vector);
    assert((byte_swapped(mask) >> 8) & 0xff == (mask >> 16) & 0xff) by (bit_vector);
    assert((byte_swapped(mask) >> 16) & 0xff == (mask >> 8) & 0xff) by (bit_vector);
    assert((byte_swapped(mask) >> 24) & 0xff == mask & 0xff) by (bit_vector);
    r
}

/// Bits per pixel for a visual: 32 when three channels need more than 24
/// bits or have 8 bits each (the fourth byte is padding), else 24.
pub open spec fn spec_bits_per_pixel(visual: VisualInfo) -> u8 {
    if visual.bits_per_rgb_value * 3 > 24 || visual.bits_per_rgb_value == 8 {
        32
    } else {
        24
    }
}

/// A channel mask as stored for the given byte order.
pub open spec fn ordered_mask(m: u32, order: ImageByteOrder) -> u32 {
    match order {
        ImageByteOrder::MsbFirst => byte_swapped(m),
        _ => m,
    }
}

/// Derives the pixel format of images in `visual` stored in byte order
/// `order`. Masks are byte-swapped for most-significant-first storage and
/// kept as they are otherwise.
pub fn detect_pixel_format(visual: &VisualInfo, order: ImageByteOrder) -> (r: PixelFormat)
    ensures
        r.bits_per_pixel == spec_bits_per_pixel(*visual),
        r.bytes_per_pixel == (r.bits_per_pixel + 7) / 8,
        r.red_mask == ordered_mask(visual.red_mask, order),
        r.green_mask == ordered_mask(visual.green_mask, order),
        r.blue_mask == ordered_mask(visual.blue_mask, order),
{
    let rgb_bits: u16 = visual.bits_per_rgb_value as u16 * 3;
    let bits_per_pixel: u8 = if rgb_bits > 24 || visual.bits_per_rgb_value == 8 {
        32
    } else {
        24
    };
    let bytes_per_pixel: u8 = (bits_per_pixel + 7) / 8;
    let (red_mask, green_mask, blue_mask) = match order {
        ImageByteOrder::MsbFirst => (
            swap_bytes(visual.red_mask),
            swap_bytes(visual.green_mask),
            swap_bytes(visual.blue_mask),
        ),
        _ => (visual.red_mask, visual.green_mask, visual.blue_mask),
    };
    PixelFormat { bits_per_pixel, bytes_per_pixel, red_mask, green_mask, blue_mask }
}

/// Depths whose images the capture reads.
pub open spec fn is_capture_depth(depth: u8) -> bool {
    depth == 24 || depth == 32
}

/// A true-colour visual with 8-bit channels and non-zero, distinct masks.
pub open spec fn is_suitable_visual(v: VisualInfo) -> bool {
    &&& v.class == TRUE_COLOR
    &&& v.bits_per_rgb_value == 8
    &&& v.red_mask != 0
    &&& v.green_mask != 0
    &&& v.blue_mask != 0
    &&& v.red_mask != v.green_mask
    &&& v.red_mask != v.blue_mask
    &&& v.green_mask != v.blue_mask
}

/// `j` is the first depth of `depths` that the capture reads.
pub open spec fn is_first_capture_depth(depths: Seq<DepthInfo>, j: int) -> bool {
    &&& 0 <= j < depths.len()
    &&& is_capture_depth(depths[j].depth)
    &&& forall|i: int| 0 <= i < j ==> !is_capture_depth(#[trigger] depths[i].depth)
}

/// `k` is the first suitable visual of `visuals`.
pub open spec fn is_first_suitable(visuals: Seq<VisualInfo>, k: int) -> bool {
    &&& 0 <= k < visuals.len()
    &&& is_suitable_visual(visuals[k])
    &&& forall|i: int| 0 <= i < k ==> !is_suitable_visual(#[trigger] visuals[i])
}

fn suitable(v: &VisualInfo) -> (r: bool)
    ensures
        r == is_suitable_visual(*v),
{
    v.class == TRUE_COLOR && v.bits_per_rgb_value == 8 && v.red_mask != 0 && v.green_mask != 0
        && v.blue_mask != 0 && v.red_mask != v.green_mask && v.red_mask != v.blue_mask
        && v.green_mask != v.blue_mask
}

/// Picks the visual to capture with: the first suitable visual of the first
/// depth of 24 or 32 bits. Later depths are not considered.
pub fn select_visual(depths: &Vec<DepthInfo>) -> (r: Option<VisualInfo>)
    ensures
        r matches Some(v) ==> exists|j: int, k: int|
            is_first_capture_depth(depths@, j) && #[trigger] is_first_suitable(depths@[j].visuals@, k)
                && v == depths@[j].visuals@[k],
        r is None ==> forall|j: int|
            is_first_capture_depth(depths@, j) ==> forall|k: int|
                0 <= k < depths@[j].visuals@.len() ==> !is_suitable_visual(
                    #[trigger] depths@[j].visuals@[k],
                ),
{
    let mut j: usize = 0;
    while j < depths.len()
        invariant
            0 <= j <= depths@.len(),
            forall|i: int| 0 <= i < j ==> !is_capture_depth(#[trigger] depths@[i].depth),
        decreases depths@.len() - j,
    {
        let depth = depths[j].depth;
        if depth == 24 || depth == 32 {
            let visuals = &depths[j].visuals;
            let mut k: usize = 0;
            while k < visuals.len()
                invariant
                    0 <= k <= visuals@.len(),
                    *visuals == depths@[j as int].visuals,
                    is_first_capture_depth(depths@, j as int),
                    forall|i: int| 0 <= i < k ==> !is_suitable_visual(#[trigger] visuals@[i]),
                decreases visuals@.len() - k,
            {
                if suitable(&visuals[k]) {
                    assert(is_first_suitable(depths@[j as int].visuals@, k as int));
                    return Some(visuals[k]);
                }
                k = k + 1;
            }
            assert forall|jj: int| is_first_capture_depth(depths@, jj) implies jj == j by {}
            return None;
        }
        j = j + 1;
    }
    None
}

/// The pointer image as the server reports it: packed ARGB words and a
/// position in root-window coordinates.
#[derive(Debug, Clone)]
pub struct CursorImage {
    pub x: i16,
    pub y: i16,
    pub width: u16,
    pub height: u16,
    pub xhot: u16,
    pub yhot: u16,
    /// One `0xAARRGGBB` word per pixel, row after row.
    pub argb: Vec<u32>,
}

/// Channel `k` (0 red, 1 green, 2 blue, 3 alpha) of an ARGB word.
pub open spec fn argb_channel(p: u32, k: int) -> u8 {
    if k == 0 {
        ((p >> 16) & 0xff) as u8
    } else if k == 1 {
        ((p >> 8) & 0xff) as u8
    } else if k == 2 {
        (p & 0xff) as u8
    } else {
        ((p >> 24) & 0xff) as u8
    }
}

/// The RGBA bytes of a sequence of ARGB words.
pub open spec fn rgba_of_argb(argb: Seq<u32>) -> Seq<u8> {
    Seq::new(4 * argb.len(), |i: int| argb_channel(argb[i / 4], i % 4))
}

/// Some of the sprite, placed at `(cx, cy)` relative to an area of
/// `width` x `height`, overlaps the area.
pub open spec fn overlaps_area(cx: int, cy: int, cw: int, ch: int, width: int, height: int) -> bool {
    !(cx >= width || cy >= height || cx + cw <= 0 || cy + ch <= 0)
}

/// The pointer sprite relative to the capture area at `(x, y)` of
/// `width` x `height`, with its pixels turned from ARGB words into RGBA
/// bytes. `None` when the sprite lies wholly outside the area or its pixel
/// count does not match its size.
pub fn cursor_in_area(image: &CursorImage, x: i32, y: i32, width: i32, height: i32) -> (r: Option<CursorData>)
    ensures
        r is Some <==> overlaps_area(
            image.x - x,
            image.y - y,
            image.width as int,
            image.height as int,
            width as int,
            height as int,
        ) && image.argb@.len() == image.width * image.height,
        r matches Some(c) ==> {
            &&& c.x == image.x - x
            &&& c.y == image.y - y
            &&& c.width == image.width
            &&& c.height == image.height
            &&& c.xhot == image.xhot
            &&& c.yhot == image.yhot
            &&& c.pixels@ == rgba_of_argb(image.argb@)
            &&& c.wf()
        },
{
    let cx: i64 = image.x as i64 - x as i64;
    let cy: i64 = image.y as i64 - y as i64;
    if cx >= width as i64 || cy >= height as i64 || cx + image.width as i64 <= 0 || cy
        + image.height as i64 <= 0 {
        return None;
    }
    assert(image.width * image.height <= 0xffff * 0xffff) by (nonlinear_arith)
        requires
            image.width <= 0xffff,
            image.height <= 0xffff,
    ;
    if image.argb.len() as u64 != image.width as u64 * image.height as u64 {
        return None;
    }
    let mut pixels: Vec<u8> = Vec::new();
    let mut i: usize = 0;
    while i < image.argb.len()
        invariant
            0 <= i <= image.argb@.len(),
            pixels@.len() == 4 * i,
            forall|j: int| 0 <= j < pixels@.len() ==> #[trigger] pixels@[j] == rgba_of_argb(image.argb@)[j],
        decreases image.argb@.len() - i,
    {
        let p = image.argb[i];
        assert((p >> 16) & 0xff <= 255) by (bit_vector);
        assert((p >> 8) & 0xff <= 255) by (bit_vector);
        assert(p & 0xff <= 255) by (bit_vector);
        assert((p >> 24) & 0xff <= 255) by (bit_vector);
        let r = ((p >> 16) & 0xff) as u8;
        let g = ((p >> 8) & 0xff) as u8;
        let b = (p & 0xff) as u8;
        let a = ((p >> 24) & 0xff) as u8;
        pixels.push(r);
        pixels.push(g);
        pixels.push(b);
        pixels.push(a);
        proof {
            assert forall|j: int| 4 * i <= j < 4 * i + 4 implies #[trigger] pixels@[j] == rgba_of_argb(image.argb@)[j] by {
                assert(j / 4 == i);
            }
        }
        i = i + 1;
    }
    assert(pixels@ =~= rgba_of_argb(image.argb@));
    Some(CursorData {
        pixels,
        width: image.width as u32,
        height: image.height as u32,
        x: cx as i32,
        y: cy as i32,
        xhot: image.xhot as u32,
        yhot: image.yhot as u32,
    })
}

/// The origin of an image request: protocol coordinates are 16-bit, so
/// `None` unless both fit.
pub fn image_origin(x: i32, y: i32) -> (r: Option<(i16, i16)>)
    ensures
        r is Some <==> i16::MIN <= x <= i16::MAX && i16::MIN <= y <= i16::MAX,
        r matches Some(p) ==> p.0 == x && p.1 == y,
{
    if x < i16::MIN as i32 || x > i16::MAX as i32 || y < i16::MIN as i32 || y > i16::MAX as i32 {
        None
    } else {
        Some((x as i16, y as i16))
    }
}

/// The decimal digits of `n`.
pub open spec fn digits_of(n: nat) -> Seq<char>
    decreases n,
{
    if n < 10 {
        seq![digit_char(n)]
    } else {
        digits_of(n / 10).push(digit_char(n % 10))
    }
}

pub open spec fn digit_char(d: nat) -> char {
    if d == 0 { '0' }
    else if d == 1 { '1' }
    else if d == 2 { '2' }
    else if d == 3 { '3' }
    else if d == 4 { '4' }
    else if d == 5 { '5' }
    else if d == 6 { '6' }
    else if d == 7 { '7' }
    else if d == 8 { '8' }
    else { '9' }
}

/// Decimal text of `v`, with a leading `-` when negative.
pub open spec fn decimal_of(v: int) -> Seq<char> {
    if v < 0 {
        seq!['-'] + digits_of((-v) as nat)
    } else {
        digits_of(v as nat)
    }
}

fn digit_text(d: u64) -> (r: &'static str)
    requires
        d < 10,
    ensures
        r@ == seq![digit_char(d as nat)],
{
    proof {
        reveal_strlit("0");
        reveal_strlit("1");
        reveal_strlit("2");
        reveal_strlit("3");
        reveal_strlit("4");
        reveal_strlit("5");
        reveal_strlit("6");
        reveal_strlit("7");
        reveal_strlit("8");
        reveal_strlit("9");
    }
    if d == 0 { "0" }
    else if d == 1 { "1" }
    else if d == 2 { "2" }
    else if d == 3 { "3" }
    else if d == 4 { "4" }
    else if d == 5 { "5" }
    else if d == 6 { "6" }
    else if d == 7 { "7" }
    else if d == 8 { "8" }
    else { "9" }
}

fn append_digits(out: &mut String, n: u64)
    ensures
        final(out)@ == old(out)@ + digits_of(n as nat),
    decreases n,
{
    if n >= 10 {
        append_digits(out, n / 10);
    }
    out.append(digit_text(n % 10));
    assert(final(out)@ =~= old(out)@ + digits_of(n as nat));
}

fn append_decimal(out: &mut String, v: i32)
    ensures
        final(out)@ == old(out)@ + decimal_of(v as int),
{
    proof {
        reveal_strlit("-");
    }
    if v < 0 {
        out.append("-");
        append_digits(out, (-(v as i64)) as u64);
    } else {
        append_digits(out, v as u64);
    }
    assert(final(out)@ =~= old(out)@ + decimal_of(v as int));
}

/// Message of a rejected capture area.
pub open spec fn invalid_area_message(width: int, height: int) -> Seq<char> {
    "Invalid dimensions: "@ + decimal_of(width) + "x"@ + decimal_of(height)
}

/// Accepts a capture area with a non-negative origin and a positive size.
pub fn check_capture_area(x: i32, y: i32, width: i32, height: i32) -> (r: Result<(), DisplayError>)
    ensures
        r is Ok <==> (width > 0 && height > 0 && x >= 0 && y >= 0),
        r matches Err(e) ==> (e matches DisplayError::InvalidArea(m) && m@ == invalid_area_message(
            width as int,
            height as int,
        )),
{
    if width <= 0 || height <= 0 || x < 0 || y < 0 {
        proof {
            reveal_strlit("Invalid dimensions: ");
            reveal_strlit("x");
        }
        let mut message = String::from_str("Invalid dimensions: ");
        append_decimal(&mut message, width);
        message.append("x");
        append_decimal(&mut message, height);
        return Err(DisplayError::InvalidArea(message));
    }
    Ok(())
}

} // verus!
