use kamera::sample_buffer::{fourcc_to_string, str_to_u32, SampleBuffer};

#[test]
fn fourcc_argb() {
    assert_eq!(fourcc_to_string(32), "ARGB");
}

#[test]
fn fourcc_rgb24() {
    assert_eq!(fourcc_to_string(24), "RGB ");
}

#[test]
fn fourcc_numeric_is_hex() {
    assert_eq!(fourcc_to_string(0x99), "0x00000099");
    assert_eq!(fourcc_to_string(0), "0x00000000");
    assert_eq!(fourcc_to_string(0xFF), "0x000000FF");
}

#[test]
fn fourcc_ascii_code() {
    assert_eq!(fourcc_to_string(u32::from_le_bytes(*b"YUY2")), "YUY2");
    assert_eq!(fourcc_to_string(u32::from_le_bytes(*b"420v")), "420v");
}

#[test]
fn fourcc_non_ascii_byte_is_replaced() {
    let code = u32::from_le_bytes([b'A', 0xC3, b'G', b'B']);
    assert_eq!(fourcc_to_string(code), "A\u{FFFD}GB");
}

#[test]
fn str_to_u32_packs_first_char_low() {
    assert_eq!(str_to_u32("ARGB"), u32::from_le_bytes(*b"ARGB"));
    assert_eq!(str_to_u32("yuv2"), u32::from_le_bytes(*b"yuv2"));
}

#[test]
fn fourcc_round_trip() {
    let name = "YUY2";
    assert_eq!(fourcc_to_string(str_to_u32(name)), name);
}

#[test]
fn sample_buffer_size() {
    let sample = SampleBuffer::new(1, 3, 2, vec![0; 24]);
    assert_eq!(sample.size_usize(), (3, 2));
}

#[test]
fn pixels_borrow_the_sample() {
    let bytes: Vec<u8> = (0..24).collect();
    let sample = SampleBuffer::new(1, 3, 2, bytes.clone());
    let pixels = sample.pixels();
    assert_eq!(pixels.width, 3);
    assert_eq!(pixels.height, 2);
    assert_eq!(pixels.data, &bytes[..]);
    // Two independent views over one sample may coexist.
    let again = sample.pixels();
    assert_eq!(pixels.data, again.data);
}
