use raytracer::color::Color;
use raytracer::image::{decimal_bytes, Image};

#[test]
fn new_image_is_black() {
    let img = Image::new(3, 2);
    assert_eq!(img.width(), 3);
    assert_eq!(img.height(), 2);
    for y in 0..2 {
        for x in 0..3 {
            assert_eq!(img.get_pixel(x, y), Color { r: 0, g: 0, b: 0 });
        }
    }
}

#[test]
fn set_pixel_roundtrip() {
    let mut img = Image::new(4, 4);
    let c = Color { r: 10, g: 20, b: 30 };
    img.set_pixel(2, 3, c);
    assert_eq!(img.get_pixel(2, 3), c);
    assert_eq!(img.get_pixel(3, 2), Color { r: 0, g: 0, b: 0 });
}

#[test]
fn set_pixel_overwrites() {
    let mut img = Image::new(2, 2);
    img.set_pixel(0, 0, Color { r: 1, g: 1, b: 1 });
    img.set_pixel(0, 0, Color { r: 9, g: 9, b: 9 });
    assert_eq!(img.get_pixel(0, 0), Color { r: 9, g: 9, b: 9 });
}

#[test]
fn decimal_bytes_zero() {
    assert_eq!(decimal_bytes(0), vec![b'0']);
}

#[test]
fn decimal_bytes_multi_digit() {
    assert_eq!(decimal_bytes(1920), vec![b'1', b'9', b'2', b'0']);
    assert_eq!(decimal_bytes(255), vec![b'2', b'5', b'5']);
    assert_eq!(decimal_bytes(7), vec![b'7']);
}

#[test]
fn ppm_bytes_layout() {
    let mut img = Image::new(2, 1);
    img.set_pixel(0, 0, Color { r: 1, g: 2, b: 3 });
    img.set_pixel(1, 0, Color { r: 4, g: 5, b: 6 });
    let bytes = img.ppm_bytes();
    let mut expected: Vec<u8> = Vec::new();
    expected.extend_from_slice(b"P6\n2 1\n255\n");
    expected.extend_from_slice(&[1, 2, 3, 4, 5, 6]);
    assert_eq!(bytes, expected);
}

#[test]
fn ppm_bytes_row_major_with_flip_rows_stored_as_written() {
    // Pixels are stored in row-major order exactly as set_pixel wrote them.
    let mut img = Image::new(2, 2);
    img.set_pixel(0, 0, Color { r: 11, g: 0, b: 0 });
    img.set_pixel(1, 0, Color { r: 12, g: 0, b: 0 });
    img.set_pixel(0, 1, Color { r: 21, g: 0, b: 0 });
    img.set_pixel(1, 1, Color { r: 22, g: 0, b: 0 });
    let bytes = img.ppm_bytes();
    let header_len = b"P6\n2 2\n255\n".len();
    let reds: Vec<u8> = bytes[header_len..].chunks(3).map(|p| p[0]).collect();
    assert_eq!(reds, vec![11, 12, 21, 22]);
}

#[test]
fn empty_image_serializes_header_only() {
    let img = Image::new(0, 0);
    assert_eq!(img.ppm_bytes(), b"P6\n0 0\n255\n".to_vec());
}
