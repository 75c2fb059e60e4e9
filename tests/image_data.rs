use base64::Engine;
use clip_utils::image_data::{b64_to_img_data, B64ImageError, PixelBuffer};

fn b64(bytes: &[u8]) -> String {
    base64::engine::general_purpose::STANDARD.encode(bytes)
}

fn encode(img: &image::DynamicImage, format: image::ImageFormat) -> Vec<u8> {
    let mut out = std::io::Cursor::new(Vec::new());
    img.write_to(&mut out, format).unwrap();
    out.into_inner()
}

fn sample_pixels(width: u32, height: u32) -> Vec<u8> {
    let mut v = Vec::new();
    for i in 0..width * height {
        v.push((i * 37 % 256) as u8);
        v.push((i * 11 % 256) as u8);
        v.push(200u8);
        v.push((255 - i % 256) as u8);
    }
    v
}

#[test]
fn png_round_trip_keeps_pixels() {
    let pixels = sample_pixels(5, 3);
    let img = image::RgbaImage::from_raw(5, 3, pixels.clone()).unwrap();
    let png = encode(&image::DynamicImage::ImageRgba8(img), image::ImageFormat::Png);
    let buf = b64_to_img_data(&b64(&png)).unwrap();
    assert_eq!(buf.width, 5);
    assert_eq!(buf.height, 3);
    assert_eq!(buf.bytes, pixels);
}

#[test]
fn one_pixel_png() {
    let img = image::RgbaImage::from_raw(1, 1, vec![10, 20, 30, 40]).unwrap();
    let png = encode(&image::DynamicImage::ImageRgba8(img), image::ImageFormat::Png);
    let buf = b64_to_img_data(&b64(&png)).unwrap();
    assert_eq!((buf.width, buf.height), (1, 1));
    assert_eq!(buf.bytes, vec![10, 20, 30, 40]);
}

#[test]
fn grayscale_png_becomes_rgba() {
    let img = image::GrayImage::from_raw(2, 1, vec![7, 250]).unwrap();
    let png = encode(&image::DynamicImage::ImageLuma8(img), image::ImageFormat::Png);
    let buf = b64_to_img_data(&b64(&png)).unwrap();
    assert_eq!((buf.width, buf.height), (2, 1));
    assert_eq!(buf.bytes, vec![7, 7, 7, 255, 250, 250, 250, 255]);
}

#[test]
fn jpeg_decodes_to_rgba() {
    let img = image::RgbImage::from_raw(4, 2, vec![128u8; 4 * 2 * 3]).unwrap();
    let jpg = encode(&image::DynamicImage::ImageRgb8(img), image::ImageFormat::Jpeg);
    let buf = b64_to_img_data(&b64(&jpg)).unwrap();
    assert_eq!((buf.width, buf.height), (4, 2));
    assert_eq!(buf.bytes.len(), 4 * 2 * 4);
    assert!(buf.bytes.chunks(4).all(|p| p[3] == 255));
}

#[test]
fn invalid_base64_is_decode_error() {
    assert_eq!(b64_to_img_data("iVBO%w0K").unwrap_err(), B64ImageError::DecodeError);
    assert_eq!(b64_to_img_data("abc").unwrap_err(), B64ImageError::DecodeError);
    assert_eq!(b64_to_img_data("ab=c").unwrap_err(), B64ImageError::DecodeError);
    assert_eq!(b64_to_img_data("aGVsbG8_").unwrap_err(), B64ImageError::DecodeError);
}

#[test]
fn non_image_bytes_are_format_error() {
    let noise: Vec<u8> = (0..64u32).map(|i| (i * 97 + 13) as u8).collect();
    assert_eq!(b64_to_img_data(&b64(&noise)).unwrap_err(), B64ImageError::ImageFormatError);
    assert_eq!(b64_to_img_data("aGVsbG8=").unwrap_err(), B64ImageError::ImageFormatError);
    assert_eq!(b64_to_img_data("").unwrap_err(), B64ImageError::ImageFormatError);
}

#[test]
fn truncated_png_is_format_error() {
    let img = image::RgbaImage::from_raw(4, 4, sample_pixels(4, 4)).unwrap();
    let png = encode(&image::DynamicImage::ImageRgba8(img), image::ImageFormat::Png);
    let cut = &png[..png.len() / 2];
    assert_eq!(b64_to_img_data(&b64(cut)).unwrap_err(), B64ImageError::ImageFormatError);
}

#[test]
fn pixel_buffer_checks_byte_count() {
    let b = PixelBuffer::from_rgba8(2, 1, vec![1, 2, 3, 4, 5, 6, 7, 8]).unwrap();
    assert_eq!((b.width, b.height), (2, 1));
    assert_eq!(b.bytes, vec![1, 2, 3, 4, 5, 6, 7, 8]);
    assert!(PixelBuffer::from_rgba8(2, 1, vec![1, 2, 3, 4]).is_none());
    assert!(PixelBuffer::from_rgba8(0, 7, vec![]).is_some());
    assert!(PixelBuffer::from_rgba8(u32::MAX, u32::MAX, vec![]).is_none());
}
