use squish::errors::SquishError;
use squish::types::SquishImageFormat;
use squish::types::ValidFile;
use squish::types::ValidImage;
use squish::types::MAX_FILE_LEN_BYTES;

fn gradient_rgba(width: u32, height: u32) -> Vec<u8> {
    let mut bytes = Vec::new();
    for y in 0..height {
        for x in 0..width {
            bytes.push((x % 256) as u8);
            bytes.push((y % 256) as u8);
            bytes.push(((x + y) % 256) as u8);
            bytes.push(255);
        }
    }
    bytes
}

fn encoded_bytes(width: u32, height: u32, format: image::ImageFormat) -> Vec<u8> {
    let raw = gradient_rgba(width, height);
    let img = image::RgbaImage::from_raw(width, height, raw).unwrap();
    let dynamic = image::DynamicImage::ImageRgba8(img);
    let dynamic = match format {
        image::ImageFormat::Jpeg => image::DynamicImage::ImageRgb8(dynamic.to_rgb8()),
        _ => dynamic,
    };
    let mut buf = Vec::new();
    dynamic
        .write_to(&mut std::io::Cursor::new(&mut buf), format)
        .unwrap();
    buf
}

#[test]
fn raw_rgba_with_matching_length_is_accepted() {
    let bytes = gradient_rgba(4, 3);
    let img = ValidImage::from_raw_rgba(bytes.clone(), 4, 3).unwrap();
    assert_eq!(img.width(), 4);
    assert_eq!(img.height(), 3);
    assert_eq!(img.size(), 48);
    assert_eq!(img.bytes(), bytes.as_slice());
    assert!(img.format() == SquishImageFormat::Png);
    assert_eq!(img.get_image_format_repr(), "PNG");
}

#[test]
fn raw_rgba_with_wrong_length_is_rejected() {
    let mut bytes = gradient_rgba(4, 3);
    bytes.pop();
    let r = ValidImage::from_raw_rgba(bytes, 4, 3);
    assert!(matches!(r, Err(SquishError::PixelBufferSizeMismatch)));
    let msg = SquishError::PixelBufferSizeMismatch.message();
    assert_eq!(msg, "couldn't construct RGBA image from clipboard bytes");
}

#[test]
fn raw_rgba_with_zero_dimension_is_rejected() {
    let r = ValidImage::from_raw_rgba(Vec::new(), 0, 0);
    assert!(matches!(r, Err(SquishError::PixelBufferSizeMismatch)));
    let r2 = ValidImage::from_raw_rgba(Vec::new(), 0, 5);
    assert!(matches!(r2, Err(SquishError::PixelBufferSizeMismatch)));
}

#[test]
fn text_bytes_fail_with_format_undetected() {
    let bytes = b"just some plain text, certainly not an image".to_vec();
    let r = ValidImage::from_encoded_bytes(&bytes);
    assert!(matches!(r, Err(SquishError::FormatUndetected)));
    let msg = SquishError::FormatUndetected.message();
    assert_eq!(msg, "couldn't determine the image format");
}

#[test]
fn recognized_but_unsupported_format_is_rejected() {
    let mut bytes = b"GIF89a".to_vec();
    bytes.extend_from_slice(&[0u8; 32]);
    let r = ValidImage::from_encoded_bytes(&bytes);
    assert!(matches!(r, Err(SquishError::UnsupportedFormat)));
    let msg = SquishError::UnsupportedFormat.message();
    assert_eq!(
        msg,
        "file format not supported; allowed types: [image/jpeg, image/png]"
    );
}

#[test]
fn truncated_png_fails_with_decode_error() {
    let bytes = encoded_bytes(16, 16, image::ImageFormat::Png);
    let r = ValidImage::from_encoded_bytes(&bytes[..20]);
    assert!(matches!(r, Err(SquishError::DecodeError)));
}

#[test]
fn png_bytes_decode_to_png_tagged_image() {
    let bytes = encoded_bytes(10, 8, image::ImageFormat::Png);
    let img = ValidImage::from_encoded_bytes(&bytes).unwrap();
    assert_eq!(img.width(), 10);
    assert_eq!(img.height(), 8);
    assert!(img.format() == SquishImageFormat::Png);
    assert_eq!(img.get_image_format_repr(), "PNG");
}

#[test]
fn jpeg_bytes_decode_to_jpeg_tagged_image() {
    let bytes = encoded_bytes(10, 8, image::ImageFormat::Jpeg);
    let img = ValidImage::from_encoded_bytes(&bytes).unwrap();
    assert_eq!(img.width(), 10);
    assert_eq!(img.height(), 8);
    assert!(img.format() == SquishImageFormat::Jpeg);
    assert_eq!(img.get_image_format_repr(), "JPEG");
}

#[test]
fn decoded_pixels_match_the_encoded_source() {
    let raw = vec![255, 0, 0, 255, 0, 0, 255, 255];
    let img = image::RgbaImage::from_raw(2, 1, raw.clone()).unwrap();
    let mut buf = Vec::new();
    image::DynamicImage::ImageRgba8(img)
        .write_to(&mut std::io::Cursor::new(&mut buf), image::ImageFormat::Png)
        .unwrap();
    let decoded = ValidImage::from_encoded_bytes(&buf).unwrap();
    assert_eq!(decoded.bytes(), raw.as_slice());
}

#[test]
fn valid_file_holds_its_bytes() {
    let bytes = encoded_bytes(6, 6, image::ImageFormat::Png);
    let file = ValidFile::from_bytes(bytes.clone()).unwrap();
    assert_eq!(file.bytes(), bytes.as_slice());
    let img = ValidImage::from_valid_file(&file).unwrap();
    assert_eq!(img.width(), 6);
    assert_eq!(img.height(), 6);
}

#[test]
fn oversized_file_is_rejected_with_its_length() {
    let len = (MAX_FILE_LEN_BYTES + 1) as usize;
    let bytes = vec![0u8; len];
    let r = ValidFile::from_bytes(bytes);
    match r {
        Err(SquishError::FileTooLarge { len: l }) => {
            assert_eq!(l, MAX_FILE_LEN_BYTES + 1);
        }
        _ => panic!("expected the size cap to reject the buffer"),
    }
}
