//! Normalization and rescaling of captured pixel buffers. The native
//! capture path delivers rows bottom-up with BGRA channel order; the
//! pipeline flips the rows, reorders the channels to RGBA, and resamples
//! the result to the fixed virtual screen resolution.

use crate::geometry::{MAX_CLIENT_DIM, VIRTUAL_HEIGHT, VIRTUAL_WIDTH};
use vstd::arithmetic::div_mod::{
    lemma_fundamental_div_mod_converse_div, lemma_fundamental_div_mod_converse_mod,
};
use vstd::arithmetic::mul::{
    lemma_mul_inequality, lemma_mul_is_commutative, lemma_mul_is_distributive_add_other_way,
    lemma_mul_is_distributive_sub_other_way, lemma_mul_nonnegative, lemma_mul_upper_bound,
};
use vstd::prelude::*;

verus! {

/// A top-down RGBA image: `width * height` pixels of 4 bytes each, rows
/// stored top to bottom, channels in R, G, B, A order.
pub struct Frame {
    pub width: u32,
    pub height: u32,
    pub pixels: Vec<u8>,
}

impl Frame {
    /// Well-formedness: positive dimensions within the mapper's range, and
    /// a buffer of exactly 4 bytes per pixel.
    pub open spec fn wf(self) -> bool {
        &&& 0 < self.width <= MAX_CLIENT_DIM
        &&& 0 < self.height <= MAX_CLIENT_DIM
        &&& self.pixels@.len() == (self.width as int) * (self.height as int) * 4
    }
}

/// Byte offset of channel `ch` of the pixel at row `r`, column `c` in a
/// row-major buffer of `w` pixels per row, 4 bytes per pixel.
pub open spec fn byte_at(w: int, r: int, c: int, ch: int) -> int {
    (r * w + c) * 4 + ch
}

/// Raw channel feeding output channel `ch`: the first three channels are
/// reversed (B and R trade places), alpha keeps its place.
pub open spec fn chan_src(ch: int) -> int {
    if ch == 0 {
        2
    } else if ch == 2 {
        0
    } else {
        ch
    }
}

/// The normalized image of a raw capture buffer: rows in reverse order,
/// each pixel's first three channels reversed, alpha unchanged.
pub open spec fn spec_normalize(raw: Seq<u8>, w: int, h: int) -> Seq<u8> {
    Seq::new(
        raw.len(),
        |k: int|
            {
                let p = k / 4;
                let ch = k % 4;
                let r = p / w;
                let c = p % w;
                raw[byte_at(w, h - 1 - r, c, chan_src(ch))]
            },
    )
}

/// Decomposition of a byte offset: `byte_at` is injective on valid
/// coordinates, and stays inside the buffer.
proof fn lemma_byte_at_decompose(w: int, h: int, r: int, c: int, ch: int)
    requires
        0 <= r < h,
        0 <= c < w,
        0 <= ch < 4,
    ensures
        0 <= byte_at(w, r, c, ch) < w * h * 4,
        byte_at(w, r, c, ch) / 4 == r * w + c,
        byte_at(w, r, c, ch) % 4 == ch,
        (r * w + c) / w == r,
        (r * w + c) % w == c,
{
    lemma_mul_nonnegative(r, w);
    lemma_fundamental_div_mod_converse_div(byte_at(w, r, c, ch), 4, r * w + c, ch);
    lemma_fundamental_div_mod_converse_mod(byte_at(w, r, c, ch), 4, r * w + c, ch);
    lemma_fundamental_div_mod_converse_div(r * w + c, w, r, c);
    lemma_fundamental_div_mod_converse_mod(r * w + c, w, r, c);
    lemma_mul_inequality(r, h - 1, w);
    lemma_mul_is_distributive_sub_other_way(w, h, 1);
}

/// Flips a raw capture buffer of `w` by `h` pixels into a top-down RGBA
/// buffer: output row `r` is raw row `h - 1 - r`, and within each pixel the
/// first and third channels trade places while the second and the alpha
/// channel stay.
pub fn normalize_frame(raw: &Vec<u8>, w: u32, h: u32) -> (out: Vec<u8>)
    requires
        0 < w <= MAX_CLIENT_DIM,
        0 < h <= MAX_CLIENT_DIM,
        raw@.len() == (w as int) * (h as int) * 4,
    ensures
        out@ == spec_normalize(raw@, w as int, h as int),
        out@.len() == raw@.len(),
        forall|r: int, c: int, ch: int|
            0 <= r < h && 0 <= c < w && 0 <= ch < 4 ==> out@[#[trigger] byte_at(
                w as int,
                r,
                c,
                ch,
            )] == raw@[byte_at(w as int, h - 1 - r, c, chan_src(ch))],
{
    let len = raw.len();
    let mut out: Vec<u8> = Vec::new();
    let mut r: u32 = 0;
    while r < h
        invariant
            0 < w <= MAX_CLIENT_DIM,
            0 < h <= MAX_CLIENT_DIM,
            raw@.len() == (w as int) * (h as int) * 4,
            len == raw@.len(),
            r <= h,
            out@.len() == byte_at(w as int, r as int, 0, 0),
            forall|j: int|
                0 <= j < out@.len() ==> out@[j] == spec_normalize(raw@, w as int, h as int)[j],
        decreases h - r,
    {
        let src_row = h - 1 - r;
        let mut c: u32 = 0;
        while c < w
            invariant
                0 < w <= MAX_CLIENT_DIM,
                0 < h <= MAX_CLIENT_DIM,
                raw@.len() == (w as int) * (h as int) * 4,
                len == raw@.len(),
                r < h,
                src_row == h - 1 - r,
                c <= w,
                out@.len() == byte_at(w as int, r as int, c as int, 0),
                forall|j: int|
                    0 <= j < out@.len() ==> out@[j] == spec_normalize(raw@, w as int, h as int)[j],
            decreases w - c,
        {
            proof {
                lemma_byte_at_decompose(w as int, h as int, r as int, c as int, 0);
                lemma_byte_at_decompose(w as int, h as int, r as int, c as int, 1);
                lemma_byte_at_decompose(w as int, h as int, r as int, c as int, 2);
                lemma_byte_at_decompose(w as int, h as int, r as int, c as int, 3);
                lemma_byte_at_decompose(w as int, h as int, src_row as int, c as int, 0);
                lemma_byte_at_decompose(w as int, h as int, src_row as int, c as int, 3);
                lemma_mul_upper_bound(
                    src_row as int,
                    MAX_CLIENT_DIM as int,
                    w as int,
                    MAX_CLIENT_DIM as int,
                );
                lemma_mul_nonnegative(src_row as int, w as int);
            }
            let base: usize = ((((src_row as u64) * (w as u64) + (c as u64)) * 4)) as usize;
            out.push(raw[base + 2]);
            out.push(raw[base + 1]);
            out.push(raw[base]);
            out.push(raw[base + 3]);
            c = c + 1;
        }
        proof {
            assert(byte_at(w as int, r as int + 1, 0, 0) == byte_at(w as int, r as int, w as int, 0))
                by {
                lemma_mul_is_distributive_add_other_way(w as int, r as int, 1);
            }
        }
        r = r + 1;
    }
    proof {
        lemma_mul_is_commutative(h as int, w as int);
        assert(out@ =~= spec_normalize(raw@, w as int, h as int));
        assert forall|r: int, c: int, ch: int|
            0 <= r < h && 0 <= c < w && 0 <= ch < 4 implies out@[#[trigger] byte_at(
            w as int,
            r,
            c,
            ch,
        )] == raw@[byte_at(w as int, h - 1 - r, c, chan_src(ch))] by {
            lemma_byte_at_decompose(w as int, h as int, r, c, ch);
        }
    }
    out
}

/// Relies on image::DynamicImage::resize_exact with FilterType::Lanczos3:
/// the result has exactly the requested dimensions, here the virtual
/// screen's, so its RGBA buffer holds VIRTUAL_WIDTH * VIRTUAL_HEIGHT 4-byte
/// pixels. The pixel values themselves go through the Lanczos kernel's
/// `f32` arithmetic (a sine among it), whose exact values Rust does not pin
/// across machines, so the contract states only the dimensions.
#[verifier::external_body]
fn lanczos_rescale(pixels: Vec<u8>, w: u32, h: u32) -> (r: Vec<u8>)
    requires
        0 < w <= MAX_CLIENT_DIM,
        0 < h <= MAX_CLIENT_DIM,
        pixels@.len() == (w as int) * (h as int) * 4,
    ensures
        r@.len() == (VIRTUAL_WIDTH as int) * (VIRTUAL_HEIGHT as int) * 4,
{
    let img = image::RgbaImage::from_vec(w, h, pixels).unwrap();
    let scaled = image::DynamicImage::ImageRgba8(img).resize_exact(
        VIRTUAL_WIDTH,
        VIRTUAL_HEIGHT,
        image::imageops::FilterType::Lanczos3,
    );
    scaled.into_rgba8().into_raw()
}

/// A fully transparent black frame at the virtual screen resolution: what
/// an empty capture degrades to.
fn blank_virtual_frame() -> (r: Frame)
    ensures
        r.wf(),
        r.width == VIRTUAL_WIDTH,
        r.height == VIRTUAL_HEIGHT,
        forall|i: int| 0 <= i < r.pixels@.len() ==> r.pixels@[i] == 0,
{
    let total: usize = (VIRTUAL_WIDTH as usize) * (VIRTUAL_HEIGHT as usize) * 4;
    let mut pixels: Vec<u8> = Vec::new();
    while pixels.len() < total
        invariant
            total == (VIRTUAL_WIDTH as int) * (VIRTUAL_HEIGHT as int) * 4,
            pixels@.len() <= total,
            forall|i: int| 0 <= i < pixels@.len() ==> pixels@[i] == 0,
        decreases total - pixels@.len(),
    {
        pixels.push(0);
    }
    Frame { width: VIRTUAL_WIDTH, height: VIRTUAL_HEIGHT, pixels }
}

/// The full capture pipeline after pixel extraction: normalizes the raw
/// bottom-up BGRA buffer and resamples it to the virtual screen resolution.
/// Whatever the captured surface's actual size, the empty one of an absent
/// window included, the result is always exactly VIRTUAL_WIDTH by
/// VIRTUAL_HEIGHT: an empty capture degrades silently to a blank frame
/// rather than raising.
pub fn capture_frame(raw: &Vec<u8>, w: u32, h: u32) -> (r: Frame)
    requires
        w <= MAX_CLIENT_DIM,
        h <= MAX_CLIENT_DIM,
        raw@.len() == (w as int) * (h as int) * 4,
    ensures
        r.wf(),
        r.width == VIRTUAL_WIDTH,
        r.height == VIRTUAL_HEIGHT,
        w == 0 || h == 0 ==> forall|i: int| 0 <= i < r.pixels@.len() ==> r.pixels@[i] == 0,
{
    if w == 0 || h == 0 {
        return blank_virtual_frame();
    }
    let normalized = normalize_frame(raw, w, h);
    let scaled = lanczos_rescale(normalized, w, h);
    Frame { width: VIRTUAL_WIDTH, height: VIRTUAL_HEIGHT, pixels: scaled }
}

} // verus!
