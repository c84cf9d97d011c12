//! Lossless encoding and decoding of frames. A captured frame is written
//! out as a PNG stream; decoding an encoded frame returns the same image.

use crate::frame::Frame;
use crate::geometry::MAX_CLIENT_DIM;
use vstd::prelude::*;

verus! {

/// The PNG stream encoding a `w` by `h` RGBA buffer; a pure function of the
/// pixels and dimensions.
pub uninterp spec fn png_of(pixels: Seq<u8>, w: int, h: int) -> Seq<u8>;

/// Relies on image::codecs::png::PngEncoder through
/// DynamicImage::write_with_encoder: the PNG stream is computed from the
/// pixels and dimensions alone, and writing to an in-memory buffer cannot
/// fail for an RGBA image of positive dimensions within the accepted range.
#[verifier::external_body]
fn png_encode(pixels: &Vec<u8>, w: u32, h: u32) -> (r: Vec<u8>)
    requires
        0 < w <= MAX_CLIENT_DIM,
        0 < h <= MAX_CLIENT_DIM,
        pixels@.len() == (w as int) * (h as int) * 4,
    ensures
        r@ == png_of(pixels@, w as int, h as int),
{
    let img = image::RgbaImage::from_vec(w, h, pixels.clone()).unwrap();
    let mut out: Vec<u8> = Vec::new();
    let encoder = image::codecs::png::PngEncoder::new(&mut out);
    image::DynamicImage::ImageRgba8(img).write_with_encoder(encoder).unwrap();
    out
}

/// Relies on image::ImageReader (decoding limits disabled, so no admitted
/// dimension is refused for size) and DynamicImage::into_rgba8: a PNG
/// stream records its dimensions, and PNG encoding of RGBA pixels is
/// lossless, so decoding an encoder output yields the encoded dimensions
/// and pixels; on bytes no decoder accepts it returns nothing.
#[verifier::external_body]
fn png_decode(bytes: &Vec<u8>) -> (r: Option<(Vec<u8>, u32, u32)>)
    ensures
        r matches Some(t) ==> forall|pixels: Seq<u8>, w: int, h: int|
            0 < w <= MAX_CLIENT_DIM && 0 < h <= MAX_CLIENT_DIM && pixels.len() == w * h * 4
                && bytes@ == #[trigger] png_of(pixels, w, h) ==> t.0@ == pixels && t.1 == w && t.2
                == h,
        r is None ==> forall|pixels: Seq<u8>, w: int, h: int|
            0 < w <= MAX_CLIENT_DIM && 0 < h <= MAX_CLIENT_DIM && pixels.len() == w * h * 4
                ==> bytes@ != #[trigger] png_of(pixels, w, h),
{
    let mut reader = image::ImageReader::new(std::io::Cursor::new(bytes.as_slice()));
    reader.no_limits();
    let reader = match reader.with_guessed_format() {
        Ok(reader) => reader,
        Err(_) => return None,
    };
    match reader.decode() {
        Ok(img) => {
            let rgba = img.into_rgba8();
            let w = rgba.width();
            let h = rgba.height();
            Some((rgba.into_raw(), w, h))
        },
        Err(_) => None,
    }
}

/// Encodes a well-formed frame as a PNG stream.
pub fn encode_frame(frame: &Frame) -> (r: Vec<u8>)
    requires
        frame.wf(),
    ensures
        r@ == png_of(frame.pixels@, frame.width as int, frame.height as int),
{
    png_encode(&frame.pixels, frame.width, frame.height)
}

/// Decodes a PNG stream back into a frame. Whatever the bytes, a returned
/// frame is well formed; and on the encoding of a well-formed frame the
/// result is exactly that frame: dimensions, 4-byte pixel layout and pixel
/// values all survive the round trip.
pub fn decode_frame(bytes: &Vec<u8>) -> (r: Option<Frame>)
    ensures
        r matches Some(f) ==> f.wf(),
        forall|pixels: Seq<u8>, w: int, h: int|
            0 < w <= MAX_CLIENT_DIM && 0 < h <= MAX_CLIENT_DIM && pixels.len() == w * h * 4
                && bytes@ == #[trigger] png_of(pixels, w, h) ==> (r matches Some(f)
                && f.pixels@ == pixels && f.width == w && f.height == h),
{
    match png_decode(bytes) {
        Some((pixels, w, h)) => {
            if 0 < w && w <= MAX_CLIENT_DIM && 0 < h && h <= MAX_CLIENT_DIM {
                proof {
                    vstd::arithmetic::mul::lemma_mul_upper_bound(
                        w as int,
                        MAX_CLIENT_DIM as int,
                        h as int,
                        MAX_CLIENT_DIM as int,
                    );
                    vstd::arithmetic::mul::lemma_mul_nonnegative(w as int, h as int);
                }
                let expected: u64 = (w as u64) * (h as u64) * 4;
                if (pixels.len() as u64) == expected {
                    Some(Frame { width: w, height: h, pixels })
                } else {
                    None
                }
            } else {
                None
            }
        },
        None => None,
    }
}

/// Encoding a well-formed frame and decoding the result always succeeds and
/// returns the frame unchanged: the fixed dimensions, the 4-byte pixel
/// layout and every pixel value are preserved.
pub fn frame_round_trip(frame: &Frame) -> (r: Option<Frame>)
    requires
        frame.wf(),
    ensures
        r matches Some(f) && f.width == frame.width && f.height == frame.height && f.pixels@
            == frame.pixels@,
{
    let encoded = encode_frame(frame);
    decode_frame(&encoded)
}

} // verus!
