use playbridge::codec::{decode_frame, encode_frame, frame_round_trip};
use playbridge::frame::{capture_frame, normalize_frame, Frame};

#[test]
fn normalize_flips_rows_and_swaps_channels() {
    // 2 x 2 raw capture: rows bottom-up, channels B, G, R, A.
    // Raw row 0 is the image's bottom row.
    let raw: Vec<u8> = vec![
        // bottom row: pixels P2, P3
        10, 11, 12, 13, 20, 21, 22, 23,
        // top row: pixels P0, P1
        30, 31, 32, 33, 40, 41, 42, 43,
    ];
    let out = normalize_frame(&raw, 2, 2);
    // Output row 0 is the top row, each pixel reordered to R, G, B, A.
    let expected: Vec<u8> = vec![
        32, 31, 30, 33, 42, 41, 40, 43,
        12, 11, 10, 13, 22, 21, 20, 23,
    ];
    assert_eq!(out, expected);
}

#[test]
fn normalize_single_pixel_reverses_first_three_channels() {
    let raw: Vec<u8> = vec![1, 2, 3, 4];
    let out = normalize_frame(&raw, 1, 1);
    assert_eq!(out, vec![3, 2, 1, 4]);
}

#[test]
fn normalize_keeps_length() {
    let raw: Vec<u8> = (0..3 * 5 * 4).map(|v| v as u8).collect();
    let out = normalize_frame(&raw, 3, 5);
    assert_eq!(out.len(), raw.len());
}

#[test]
fn capture_is_always_virtual_resolution() {
    for &(w, h) in &[(2u32, 2u32), (16, 9), (1280, 720), (1920, 1080)] {
        let raw: Vec<u8> = vec![128; (w * h * 4) as usize];
        let frame = capture_frame(&raw, w, h);
        assert_eq!(frame.width, 1280);
        assert_eq!(frame.height, 720);
        assert_eq!(frame.pixels.len(), 1280 * 720 * 4);
    }
}

#[test]
fn capture_of_empty_rect_is_a_blank_virtual_frame() {
    // An absent window resolves to a 0 x 0 content rect; capture still
    // produces a full virtual-resolution frame, all zero.
    let frame = capture_frame(&Vec::new(), 0, 0);
    assert_eq!(frame.width, 1280);
    assert_eq!(frame.height, 720);
    assert_eq!(frame.pixels.len(), 1280 * 720 * 4);
    assert!(frame.pixels.iter().all(|&b| b == 0));
}

#[test]
fn capture_resamples_pixel_values() {
    // A uniform green BGRA source stays uniform green RGBA after
    // normalization and resampling.
    let raw: Vec<u8> = (0..16 * 8).flat_map(|_| [0u8, 200, 0, 255]).collect();
    let frame = capture_frame(&raw, 16, 8);
    assert_eq!(&frame.pixels[0..4], &[0, 200, 0, 255]);
    let last = frame.pixels.len() - 4;
    assert_eq!(&frame.pixels[last..], &[0, 200, 0, 255]);
}

fn sample_frame(width: u32, height: u32) -> Frame {
    let pixels = (0..width * height * 4).map(|v| (v * 7 % 251) as u8).collect();
    Frame { width, height, pixels }
}

#[test]
fn round_trip_preserves_dimensions_and_layout() {
    let frame = sample_frame(1280, 720);
    let back = frame_round_trip(&frame).unwrap();
    assert_eq!(back.width, 1280);
    assert_eq!(back.height, 720);
    assert_eq!(back.pixels.len(), 1280 * 720 * 4);
    assert_eq!(back.pixels, frame.pixels);
}

#[test]
fn round_trip_small_frame() {
    let frame = sample_frame(3, 2);
    let back = frame_round_trip(&frame).unwrap();
    assert_eq!(back.width, 3);
    assert_eq!(back.height, 2);
    assert_eq!(back.pixels, frame.pixels);
}

#[test]
fn encoded_frame_is_a_real_png() {
    let frame = sample_frame(5, 4);
    let bytes = encode_frame(&frame);
    // The PNG signature, and a decode by the image crate itself.
    assert_eq!(&bytes[0..8], &[0x89, b'P', b'N', b'G', 0x0D, 0x0A, 0x1A, 0x0A]);
    let img = image::load_from_memory(&bytes).unwrap().to_rgba8();
    assert_eq!(img.width(), 5);
    assert_eq!(img.height(), 4);
    assert_eq!(img.into_raw(), frame.pixels);
}

#[test]
fn decode_rejects_garbage() {
    let garbage: Vec<u8> = vec![0, 1, 2, 3, 4, 5, 6, 7, 8, 9];
    assert!(decode_frame(&garbage).is_none());
}
