//! The boundary to the image codec and the resize/blur kernels.
//!
//! Everything here either states in full what the outside call computes
//! (format detection by magic bytes) or gives the computed value a name
//! (decoding, resampling, blurring, encoding), so that the verified pipeline
//! can be exact about how those values travel through it.

use vstd::prelude::*;

verus! {

/// The container format inferred from a byte stream's magic bytes, folded
/// down to what the pipeline distinguishes: one of the two supported formats,
/// or some other recognized format.
#[derive(Clone, Copy, Debug, PartialEq, Eq, Structural)]
pub enum DetectedFormat {
    Png,
    Jpeg,
    Other,
}

/// Whether the bytes begin with the PNG signature.
pub open spec fn spec_is_png_magic(bytes: Seq<u8>) -> bool {
    &&& bytes.len() >= 8
    &&& bytes[0] == 0x89u8
    &&& bytes[1] == 0x50u8
    &&& bytes[2] == 0x4eu8
    &&& bytes[3] == 0x47u8
    &&& bytes[4] == 0x0du8
    &&& bytes[5] == 0x0au8
    &&& bytes[6] == 0x1au8
    &&& bytes[7] == 0x0au8
}

/// Whether the bytes begin with the JPEG start-of-image marker.
pub open spec fn spec_is_jpeg_magic(bytes: Seq<u8>) -> bool {
    &&& bytes.len() >= 3
    &&& bytes[0] == 0xffu8
    &&& bytes[1] == 0xd8u8
    &&& bytes[2] == 0xffu8
}

/// No byte stream carries both signatures: they already differ in their first
/// byte.
pub proof fn lemma_magic_bytes_exclusive(bytes: Seq<u8>)
    ensures
        !(spec_is_png_magic(bytes) && spec_is_jpeg_magic(bytes)),
{
}

/// Relies on image::guess_format, which matches the start of the buffer
/// against a fixed table of signatures: the PNG signature is matched if and
/// only if the buffer starts with it, likewise the JPEG marker, and the two
/// cannot both match. Other table entries are folded to `Other`; no match at
/// all yields `None`.
#[verifier::external_body]
pub(crate) fn guess_format(bytes: &[u8]) -> (r: Option<DetectedFormat>)
    ensures
        r == Some(DetectedFormat::Png) <==> spec_is_png_magic(bytes@),
        r == Some(DetectedFormat::Jpeg) <==> spec_is_jpeg_magic(bytes@),
{
    match image::guess_format(bytes) {
        Ok(image::ImageFormat::Png) => Some(DetectedFormat::Png),
        Ok(image::ImageFormat::Jpeg) => Some(DetectedFormat::Jpeg),
        Ok(_) => Some(DetectedFormat::Other),
        Err(_) => None,
    }
}

/// What decoding a byte stream to an RGBA pixel grid yields: `None` when the
/// bytes do not decode cleanly, otherwise the width, the height and the
/// pixels, four bytes each, row by row. A function of the bytes alone.
pub uninterp spec fn spec_decoded(bytes: Seq<u8>) -> Option<(u32, u32, Seq<u8>)>;

/// Relies on image::load_from_memory followed by DynamicImage::to_rgba8: the
/// decode is a function of the bytes alone, and a decoded pixel buffer holds
/// exactly width * height RGBA pixels.
#[verifier::external_body]
pub(crate) fn decode_rgba(bytes: &[u8]) -> (r: Option<(u32, u32, Vec<u8>)>)
    ensures
        match r {
            Some((w, h, p)) => spec_decoded(bytes@) == Some((w, h, p@)) && p@.len() == w * h * 4,
            None => spec_decoded(bytes@) is None,
        },
{
    match image::load_from_memory(bytes) {
        Ok(img) => {
            let rgba = img.to_rgba8();
            let w = rgba.width();
            let h = rgba.height();
            Some((w, h, rgba.into_raw()))
        },
        Err(_) => None,
    }
}

/// What resampling an RGBA pixel grid into a bounding box yields: the output
/// width, height and pixels. A function of its arguments alone.
pub uninterp spec fn spec_resized(
    pixels: Seq<u8>,
    width: u32,
    height: u32,
    bound_width: u32,
    bound_height: u32,
) -> (u32, u32, Seq<u8>);

/// Relies on DynamicImage::resize with the Lanczos3 filter: it scales the
/// image to the largest size that preserves the aspect ratio and fits within
/// the given bounds, so both output dimensions are at least one and at most
/// their bound, and the output buffer again holds four bytes per pixel.
#[verifier::external_body]
pub(crate) fn resize_rgba(
    pixels: &[u8],
    width: u32,
    height: u32,
    bound_width: u32,
    bound_height: u32,
) -> (r: (u32, u32, Vec<u8>))
    requires
        pixels@.len() == width * height * 4,
        width >= 1,
        height >= 1,
        bound_width >= 1,
        bound_height >= 1,
    ensures
        (r.0, r.1, r.2@) == spec_resized(pixels@, width, height, bound_width, bound_height),
        1 <= r.0 <= bound_width,
        1 <= r.1 <= bound_height,
        r.2@.len() == r.0 * r.1 * 4,
{
    let img = image::RgbaImage::from_raw(width, height, pixels.to_vec()).unwrap();
    let resized = image::DynamicImage::ImageRgba8(img)
        .resize(bound_width, bound_height, image::imageops::FilterType::Lanczos3);
    let out = resized.to_rgba8();
    (out.width(), out.height(), out.into_raw())
}

/// What a Gaussian blur of the given strength does to an RGBA pixel grid. A
/// function of its arguments alone.
pub uninterp spec fn spec_blurred(pixels: Seq<u8>, width: u32, height: u32, strength: u8) -> Seq<
    u8,
>;

/// Relies on DynamicImage::blur, which applies a Gaussian blur and keeps the
/// image's dimensions. Strength zero is excluded here: the kernel would
/// substitute a non-zero sigma for it, while the pipeline promises that
/// strength zero leaves the resized bytes untouched, so it never reaches this
/// call.
#[verifier::external_body]
pub(crate) fn blur_rgba(pixels: &[u8], width: u32, height: u32, strength: u8) -> (r: Vec<u8>)
    requires
        pixels@.len() == width * height * 4,
        width >= 1,
        height >= 1,
        strength >= 1,
    ensures
        r@ == spec_blurred(pixels@, width, height, strength),
        r@.len() == pixels@.len(),
{
    let img = image::RgbaImage::from_raw(width, height, pixels.to_vec()).unwrap();
    let blurred = image::DynamicImage::ImageRgba8(img).blur(strength.into());
    blurred.into_rgba8().into_raw()
}

/// What PNG-encoding an RGBA pixel grid yields: the encoded bytes, or `None`
/// when the encoder reports a failure. A function of its arguments alone.
pub uninterp spec fn spec_png_encoding(width: u32, height: u32, pixels: Seq<u8>) -> Option<
    Seq<u8>,
>;

/// Relies on DynamicImage::write_to with the PNG format: the encoding is a
/// function of the pixel grid alone.
#[verifier::external_body]
pub(crate) fn encode_png(width: u32, height: u32, pixels: &[u8]) -> (r: Option<Vec<u8>>)
    requires
        pixels@.len() == width * height * 4,
        width >= 1,
        height >= 1,
    ensures
        match r {
            Some(b) => spec_png_encoding(width, height, pixels@) == Some(b@),
            None => spec_png_encoding(width, height, pixels@) is None,
        },
{
    let img = image::RgbaImage::from_raw(width, height, pixels.to_vec()).unwrap();
    let dynamic = image::DynamicImage::ImageRgba8(img);
    let mut buf: Vec<u8> = Vec::new();
    match dynamic.write_to(&mut std::io::Cursor::new(&mut buf), image::ImageFormat::Png) {
        Ok(()) => Some(buf),
        Err(_) => None,
    }
}

/// What JPEG-encoding an RGBA pixel grid yields, alpha dropped first: the
/// encoded bytes, or `None` when the encoder reports a failure. A function of
/// its arguments alone.
pub uninterp spec fn spec_jpeg_encoding(width: u32, height: u32, pixels: Seq<u8>) -> Option<
    Seq<u8>,
>;

/// Relies on DynamicImage::to_rgb8 followed by DynamicImage::write_to with
/// the JPEG format; the JPEG encoder takes no alpha channel, so the pixels
/// are reduced to RGB first. The encoding is a function of the pixel grid
/// alone.
#[verifier::external_body]
pub(crate) fn encode_jpeg(width: u32, height: u32, pixels: &[u8]) -> (r: Option<Vec<u8>>)
    requires
        pixels@.len() == width * height * 4,
        width >= 1,
        height >= 1,
    ensures
        match r {
            Some(b) => spec_jpeg_encoding(width, height, pixels@) == Some(b@),
            None => spec_jpeg_encoding(width, height, pixels@) is None,
        },
{
    let img = image::RgbaImage::from_raw(width, height, pixels.to_vec()).unwrap();
    let rgb = image::DynamicImage::ImageRgba8(img).to_rgb8();
    let mut buf: Vec<u8> = Vec::new();
    match image::DynamicImage::ImageRgb8(rgb).write_to(
        &mut std::io::Cursor::new(&mut buf),
        image::ImageFormat::Jpeg,
    ) {
        Ok(()) => Some(buf),
        Err(_) => None,
    }
}

} // verus!
