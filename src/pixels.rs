use vstd::prelude::*;

verus! {

/// Background colour, `0x00RRGGBB`: canvas fill and the colour shown for
/// fully transparent pixels.
pub const BACKGROUND: u32 = 0x0033_3333;

/// One premultiplied channel brought back to straight colour:
/// `c * 255 / a`, clamped to 255.
pub open spec fn unpremultiplied(c: int, a: int) -> int {
    if c * 255 / a > 255 {
        255
    } else {
        c * 255 / a
    }
}

/// Three channels packed as `0x00RRGGBB`.
pub open spec fn packed_rgb(r: int, g: int, b: int) -> int {
    r * 65536 + g * 256 + b
}

/// The display value of one premultiplied RGBA pixel.
pub open spec fn display_pixel(r: int, g: int, b: int, a: int) -> int {
    if a == 0 {
        BACKGROUND as int
    } else {
        packed_rgb(unpremultiplied(r, a), unpremultiplied(g, a), unpremultiplied(b, a))
    }
}

/// The display value of the pixel at index `i` of an RGBA byte sequence.
pub open spec fn display_pixel_at(data: Seq<u8>, i: int) -> int {
    display_pixel(
        data[4 * i] as int,
        data[4 * i + 1] as int,
        data[4 * i + 2] as int,
        data[4 * i + 3] as int,
    )
}

fn unpremultiply_channel(c: u8, a: u8) -> (r: u32)
    requires
        a > 0,
    ensures
        r == unpremultiplied(c as int, a as int),
        r <= 255,
{
    let v: u32 = (c as u32) * 255 / (a as u32);
    if v > 255 {
        255
    } else {
        v
    }
}

/// Converts one premultiplied RGBA pixel to an opaque `0x00RRGGBB` value.
pub fn unpremultiply_pixel(r: u8, g: u8, b: u8, a: u8) -> (p: u32)
    ensures
        p == display_pixel(r as int, g as int, b as int, a as int),
{
    if a == 0 {
        BACKGROUND
    } else {
        let rr = unpremultiply_channel(r, a);
        let gg = unpremultiply_channel(g, a);
        let bb = unpremultiply_channel(b, a);
        rr * 65536 + gg * 256 + bb
    }
}

/// Converts a premultiplied RGBA surface, four bytes per pixel, to display
/// values; trailing bytes short of a whole pixel are ignored.
pub fn to_display_buffer(data: &Vec<u8>) -> (out: Vec<u32>)
    ensures
        out@.len() == data@.len() / 4,
        forall|i: int| 0 <= i < out@.len() ==> out@[i] == display_pixel_at(data@, i),
{
    let len: usize = data.len();
    let n: usize = len / 4;
    let mut out: Vec<u32> = Vec::with_capacity(n);
    let mut i: usize = 0;
    while i < n
        invariant
            len == data@.len(),
            n == len / 4,
            i <= n,
            out@.len() == i,
            forall|k: int| 0 <= k < i ==> out@[k] == display_pixel_at(data@, k),
        decreases n - i,
    {
        assert(4 * i + 3 < data@.len()) by (nonlinear_arith)
            requires
                i < n,
                n == data@.len() / 4,
        ;
        let base: usize = 4 * i;
        let p = unpremultiply_pixel(data[base], data[base + 1], data[base + 2], data[base + 3]);
        out.push(p);
        i = i + 1;
    }
    out
}

/// A frame of `len` pixels of background colour.
pub fn blank_frame(len: usize) -> (out: Vec<u32>)
    ensures
        out@.len() == len,
        forall|i: int| 0 <= i < len ==> out@[i] == BACKGROUND,
{
    let mut out: Vec<u32> = Vec::with_capacity(len);
    let mut i: usize = 0;
    while i < len
        invariant
            i <= len,
            out@.len() == i,
            forall|k: int| 0 <= k < i ==> out@[k] == BACKGROUND,
        decreases len - i,
    {
        out.push(BACKGROUND);
        i = i + 1;
    }
    out
}

/// An opaque pixel keeps its colour: with alpha 255 the output is the input
/// RGB unchanged.
pub proof fn lemma_opaque_round_trip(r: u8, g: u8, b: u8)
    ensures
        display_pixel(r as int, g as int, b as int, 255) == packed_rgb(r as int, g as int, b as int),
{
    assert(r as int * 255 / 255 == r as int);
    assert(g as int * 255 / 255 == g as int);
    assert(b as int * 255 / 255 == b as int);
}

/// A fully transparent pixel shows the background, whatever its RGB.
pub proof fn lemma_transparent_is_background(r: u8, g: u8, b: u8)
    ensures
        display_pixel(r as int, g as int, b as int, 0) == BACKGROUND,
{
}

} // verus!
