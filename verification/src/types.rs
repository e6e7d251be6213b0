use crate::errors::SquishError;
use crate::imaging::blur_rgba;
use crate::imaging::decode_rgba;
use crate::imaging::encode_jpeg;
use crate::imaging::encode_png;
use crate::imaging::guess_format;
use crate::imaging::resize_rgba;
use crate::imaging::spec_blurred;
use crate::imaging::spec_decoded;
use crate::imaging::spec_is_jpeg_magic;
use crate::imaging::spec_is_png_magic;
use crate::imaging::spec_jpeg_encoding;
use crate::imaging::spec_png_encoding;
use crate::imaging::spec_resized;
use crate::imaging::DetectedFormat;
use vstd::arithmetic::div_mod::lemma_fundamental_div_mod;
use vstd::arithmetic::div_mod::lemma_mod_bound;
use vstd::arithmetic::mul::lemma_mul_nonnegative;
use vstd::prelude::*;

verus! {

/// The hard cap on the size of an input file, checked before any read or
/// decode is attempted.
pub const MAX_FILE_LEN_BYTES: u64 = 100000000;

/// How many times the current width the requested width may be at most.
pub const RESIZE_RATIO_UPPER_THRESHOLD: u32 = 3;

/// The closed set of container formats the pipeline supports. The tag is
/// carried alongside the decoded pixels and picks the encoder on output.
#[derive(Clone, Copy, Debug, PartialEq, Eq, Structural)]
pub enum SquishImageFormat {
    Jpeg,
    Png,
}

/// A byte buffer read from a file, known to be within the size cap.
pub struct ValidFile {
    bytes: Vec<u8>,
}

impl View for ValidFile {
    type V = Seq<u8>;

    closed spec fn view(&self) -> Seq<u8> {
        self.bytes@
    }
}

impl ValidFile {
    #[verifier::type_invariant]
    pub closed spec fn wf(self) -> bool {
        self@.len() <= MAX_FILE_LEN_BYTES
    }

    /// Accepts a byte buffer as file contents exactly when it is within the
    /// size cap.
    pub fn from_bytes(bytes: Vec<u8>) -> (r: Result<ValidFile, SquishError>)
        ensures
            bytes@.len() <= MAX_FILE_LEN_BYTES <==> r is Ok,
            r matches Ok(f) ==> f@ == bytes@,
            r is Err ==> (r matches Err(SquishError::FileTooLarge { len }) && len
                == bytes@.len()),
    {
        if bytes.len() as u64 > MAX_FILE_LEN_BYTES {
            Err(SquishError::FileTooLarge { len: bytes.len() as u64 })
        } else {
            Ok(ValidFile { bytes })
        }
    }

    /// The file's contents, always within the size cap.
    pub fn bytes(&self) -> (r: &[u8])
        ensures
            r@ == self@,
            r@.len() <= MAX_FILE_LEN_BYTES,
    {
        proof {
            use_type_invariant(self);
        }
        self.bytes.as_slice()
    }
}

/// Rejects a file size over the cap before the file is read at all, so that
/// an oversized file costs no I/O.
pub fn validate_file_len(len: u64) -> (r: Result<(), SquishError>)
    ensures
        r is Ok <==> len <= MAX_FILE_LEN_BYTES,
        r is Err ==> (r matches Err(SquishError::FileTooLarge { len: l }) && l == len),
{
    if len > MAX_FILE_LEN_BYTES {
        Err(SquishError::FileTooLarge { len })
    } else {
        Ok(())
    }
}

/// An in-memory, already-decoded pixel grid of a supported format: the only
/// form the transform and output stages operate on. The grid is stored as
/// RGBA, four bytes per pixel, row by row. Immutable after construction;
/// resizing yields a new value.
pub struct ValidImage {
    width: u32,
    height: u32,
    rgba: Vec<u8>,
    format: SquishImageFormat,
}

/// The bounding height handed to the resampler: the current height scaled by
/// the requested width over the current width, rounded up, and capped at what
/// a dimension can hold.
pub open spec fn spec_target_height(current_width: u32, current_height: u32, width: u32) -> u32
    recommends
        current_width >= 1,
{
    let exact = (current_height * width + current_width - 1) / (current_width as int);
    if exact > u32::MAX {
        u32::MAX
    } else {
        exact as u32
    }
}

/// Computes the bounding height, as `spec_target_height` describes.
pub fn target_height(current_width: u32, current_height: u32, width: u32) -> (r: u32)
    requires
        current_width >= 1,
    ensures
        r == spec_target_height(current_width, current_height, width),
{
    proof {
        assert((current_height as u64) * (width as u64) <= 0xffff_ffffu64 * 0xffff_ffffu64)
            by (nonlinear_arith)
            requires
                current_height <= 0xffff_ffffu64,
                width <= 0xffff_ffffu64,
        ;
    }
    let num: u64 = (current_height as u64) * (width as u64);
    let t: u64 = (num + (current_width as u64) - 1) / (current_width as u64);
    if t > 0xffff_ffff {
        u32::MAX
    } else {
        t as u32
    }
}

/// The bounding height is the exact ceiling of the current height scaled by
/// the requested width over the current width: the least height that, at the
/// requested width, does not undershoot the aspect ratio. Stated away from
/// the dimension cap, which machine limits force on the computed value.
pub proof fn lemma_target_height_is_ceiling(current_width: u32, current_height: u32, width: u32)
    requires
        current_width >= 1,
        (current_height * width + current_width - 1) / (current_width as int) <= u32::MAX,
    ensures
        current_width * spec_target_height(current_width, current_height, width) >= current_height
            * width,
        current_width * (spec_target_height(current_width, current_height, width) - 1)
            < current_height * width,
{
    let a = current_height * width + current_width - 1;
    let d = current_width as int;
    lemma_mul_nonnegative(current_height as int, width as int);
    lemma_fundamental_div_mod(a, d);
    lemma_mod_bound(a, d);
    vstd::arithmetic::div_mod::lemma_div_is_ordered(0, a, d);
    vstd::arithmetic::div_mod::lemma_div_basics(d);
    vstd::arithmetic::mul::lemma_mul_is_distributive_sub(
        d,
        spec_target_height(current_width, current_height, width) as int,
        1,
    );
}

/// What constructing a `ValidImage` from an encoded byte stream yields, for
/// every byte stream: the format gate first (both signatures missing is a
/// terminal format failure), then the decode gate, then the image itself,
/// tagged by the detected signature.
pub open spec fn spec_encoded_construction(bytes: Seq<u8>, r: Result<
    ValidImage,
    SquishError,
>) -> bool {
    &&& !spec_is_png_magic(bytes) && !spec_is_jpeg_magic(bytes) ==> (r matches Err(e) && (e
        == SquishError::FormatUndetected || e == SquishError::UnsupportedFormat))
    &&& spec_is_png_magic(bytes) || spec_is_jpeg_magic(bytes) ==> match spec_decoded(bytes) {
        Some((w, h, p)) => if w >= 1 && h >= 1 {
            &&& r matches Ok(img)
            &&& img.spec_width() == w
            &&& img.spec_height() == h
            &&& img.spec_rgba() == p
            &&& img.spec_format() == (if spec_is_png_magic(bytes) {
                SquishImageFormat::Png
            } else {
                SquishImageFormat::Jpeg
            })
        } else {
            r matches Err(SquishError::DecodeError)
        },
        None => r matches Err(SquishError::DecodeError),
    }
}

/// What encoding a pixel grid under a given format tag yields.
pub open spec fn spec_encoding(
    format: SquishImageFormat,
    width: u32,
    height: u32,
    pixels: Seq<u8>,
) -> Option<Seq<u8>> {
    match format {
        SquishImageFormat::Png => spec_png_encoding(width, height, pixels),
        SquishImageFormat::Jpeg => spec_jpeg_encoding(width, height, pixels),
    }
}

impl ValidImage {
    #[verifier::type_invariant]
    pub closed spec fn wf(self) -> bool {
        &&& self.width >= 1
        &&& self.height >= 1
        &&& self.rgba@.len() == self.width * self.height * 4
    }

    pub closed spec fn spec_width(&self) -> u32 {
        self.width
    }

    pub closed spec fn spec_height(&self) -> u32 {
        self.height
    }

    pub closed spec fn spec_rgba(&self) -> Seq<u8> {
        self.rgba@
    }

    pub closed spec fn spec_format(&self) -> SquishImageFormat {
        self.format
    }

    /// The image's width, always positive.
    pub fn width(&self) -> (r: u32)
        ensures
            r == self.spec_width(),
            r >= 1,
    {
        proof {
            use_type_invariant(self);
        }
        self.width
    }

    /// The image's height, always positive.
    pub fn height(&self) -> (r: u32)
        ensures
            r == self.spec_height(),
            r >= 1,
    {
        proof {
            use_type_invariant(self);
        }
        self.height
    }

    pub fn format(&self) -> (r: SquishImageFormat)
        ensures
            r == self.spec_format(),
    {
        self.format
    }

    /// The decoded pixel grid, four bytes per pixel.
    pub fn bytes(&self) -> (r: &[u8])
        ensures
            r@ == self.spec_rgba(),
            r@.len() == self.spec_width() * self.spec_height() * 4,
    {
        proof {
            use_type_invariant(self);
        }
        self.rgba.as_slice()
    }

    /// The size of the decoded pixel grid in bytes: four per pixel.
    pub fn size(&self) -> (r: usize)
        ensures
            r == self.spec_rgba().len(),
            r == self.spec_width() * self.spec_height() * 4,
    {
        proof {
            use_type_invariant(self);
        }
        self.rgba.len()
    }

    /// Constructs an image from raw RGBA bytes and explicit dimensions, as
    /// clipboard images arrive. Succeeds exactly when the dimensions are
    /// positive and the byte count is width times height times four. The
    /// result is always tagged PNG: the clipboard carries no container
    /// format, and PNG is the lossless container used for it.
    pub fn from_raw_rgba(bytes: Vec<u8>, width: u32, height: u32) -> (r: Result<
        ValidImage,
        SquishError,
    >)
        ensures
            (width >= 1 && height >= 1 && bytes@.len() == width * height * 4) <==> r is Ok,
            r matches Ok(img) ==> img.spec_width() == width && img.spec_height() == height
                && img.spec_rgba() == bytes@ && img.spec_format() == SquishImageFormat::Png,
            r is Err ==> r matches Err(SquishError::PixelBufferSizeMismatch),
    {
        if width == 0 || height == 0 {
            return Err(SquishError::PixelBufferSizeMismatch);
        }
        proof {
            assert((width as u128) * (height as u128) <= 0xffff_ffffu128 * 0xffff_ffffu128)
                by (nonlinear_arith)
                requires
                    width <= 0xffff_ffffu128,
                    height <= 0xffff_ffffu128,
            ;
        }
        let expected: u128 = (width as u128) * (height as u128) * 4;
        if (bytes.len() as u128) != expected {
            return Err(SquishError::PixelBufferSizeMismatch);
        }
        Ok(ValidImage { width, height, rgba: bytes, format: SquishImageFormat::Png })
    }

    /// Constructs an image from an encoded byte stream: detects the container
    /// format from the bytes themselves, rejects anything that is not JPEG or
    /// PNG, then decodes, rejecting bytes that do not decode cleanly.
    pub fn from_encoded_bytes(bytes: &[u8]) -> (r: Result<ValidImage, SquishError>)
        ensures
            spec_encoded_construction(bytes@, r),
    {
        let format = match guess_format(bytes) {
            None => {
                return Err(SquishError::FormatUndetected);
            },
            Some(DetectedFormat::Other) => {
                return Err(SquishError::UnsupportedFormat);
            },
            Some(DetectedFormat::Png) => SquishImageFormat::Png,
            Some(DetectedFormat::Jpeg) => SquishImageFormat::Jpeg,
        };
        match decode_rgba(bytes) {
            None => Err(SquishError::DecodeError),
            Some((w, h, p)) => {
                if w == 0 || h == 0 {
                    Err(SquishError::DecodeError)
                } else {
                    Ok(ValidImage { width: w, height: h, rgba: p, format })
                }
            },
        }
    }

    /// Constructs an image from the contents of a validated file.
    pub fn from_valid_file(file: &ValidFile) -> (r: Result<ValidImage, SquishError>)
        ensures
            spec_encoded_construction(file@, r),
    {
        Self::from_encoded_bytes(file.bytes())
    }

    /// Checks a requested width against this image: rejects the image's own
    /// width (a resize to it would be a silent no-op) and any width more than
    /// three times the current one (pathological upsampling).
    pub fn validate_resize_request(&self, resize_width: u32) -> (r: Result<(), SquishError>)
        ensures
            r is Ok <==> (resize_width != self.spec_width() && resize_width
                <= RESIZE_RATIO_UPPER_THRESHOLD * self.spec_width()),
            resize_width == self.spec_width() <==> r matches Err(SquishError::NoOpResize),
            (resize_width != self.spec_width() && resize_width > RESIZE_RATIO_UPPER_THRESHOLD
                * self.spec_width()) <==> (r matches Err(
                SquishError::RatioExceeded { current_width },
            ) && current_width == self.spec_width()),
    {
        if resize_width == self.width {
            return Err(SquishError::NoOpResize);
        }
        proof {
            assert((RESIZE_RATIO_UPPER_THRESHOLD as u64) * (self.width as u64) <= 3u64
                * 0xffff_ffffu64) by (nonlinear_arith)
                requires
                    RESIZE_RATIO_UPPER_THRESHOLD == 3,
                    self.width <= 0xffff_ffffu64,
            ;
        }
        if (resize_width as u64) > (RESIZE_RATIO_UPPER_THRESHOLD as u64) * (self.width as u64) {
            Err(SquishError::RatioExceeded { current_width: self.width })
        } else {
            Ok(())
        }
    }

    /// What the transform yields: the resampled grid, within the bounds of
    /// the requested width and the computed target height, then, for a
    /// non-zero blur strength, a Gaussian blur of it. Strength zero leaves
    /// the resampled bytes untouched.
    pub open spec fn spec_transform(self, width: u32, blur_strength: u8) -> (u32, u32, Seq<u8>) {
        let bound_h = spec_target_height(self.spec_width(), self.spec_height(), width);
        let resized = spec_resized(self.spec_rgba(), self.spec_width(), self.spec_height(), width, bound_h);
        if blur_strength == 0 {
            resized
        } else {
            (resized.0, resized.1, spec_blurred(resized.2, resized.0, resized.1, blur_strength))
        }
    }

    /// With blur strength zero the transform is the resample alone: its
    /// bytes are identical to the unblurred resize.
    pub proof fn lemma_zero_blur_is_resample(self, width: u32)
        ensures
            self.spec_transform(width, 0) == spec_resized(
                self.spec_rgba(),
                self.spec_width(),
                self.spec_height(),
                width,
                spec_target_height(self.spec_width(), self.spec_height(), width),
            ),
    {
    }

    /// Resizes this image to the requested width, preserving the aspect
    /// ratio, and applies the optional blur. Yields a new image with the same
    /// format tag; this image is left as it is.
    pub fn get_resized_version(&self, width: u32, blur_strength: u8) -> (r: ValidImage)
        requires
            width >= 1,
        ensures
            (r.spec_width(), r.spec_height(), r.spec_rgba()) == self.spec_transform(
                width,
                blur_strength,
            ),
            r.spec_format() == self.spec_format(),
    {
        proof {
            use_type_invariant(self);
        }
        let bound_h: u32 = target_height(self.width, self.height, width);
        proof {
            assert(self.height * width + self.width - 1 >= self.width) by (nonlinear_arith)
                requires
                    self.height >= 1,
                    width >= 1,
                    self.width >= 1,
            ;
            assert((self.height * width + self.width - 1) / (self.width as int) >= 1)
                by (nonlinear_arith)
                requires
                    self.width >= 1,
                    self.height * width + self.width - 1 >= self.width,
            ;
        }
        let resized: (u32, u32, Vec<u8>) = resize_rgba(
            self.rgba.as_slice(),
            self.width,
            self.height,
            width,
            bound_h,
        );
        if blur_strength == 0 {
            ValidImage { width: resized.0, height: resized.1, rgba: resized.2, format: self.format }
        } else {
            let blurred = blur_rgba(resized.2.as_slice(), resized.0, resized.1, blur_strength);
            ValidImage { width: resized.0, height: resized.1, rgba: blurred, format: self.format }
        }
    }

    /// Encodes the pixel grid with the encoder matching this image's format
    /// tag; the format is never altered on output.
    pub fn encode_to_bytes(&self) -> (r: Result<Vec<u8>, SquishError>)
        ensures
            match spec_encoding(
                self.spec_format(),
                self.spec_width(),
                self.spec_height(),
                self.spec_rgba(),
            ) {
                Some(b) => r matches Ok(v) && v@ == b,
                None => r matches Err(SquishError::EncodeWriteError),
            },
    {
        proof {
            use_type_invariant(self);
        }
        match self.format {
            SquishImageFormat::Png => match encode_png(
                self.width,
                self.height,
                self.rgba.as_slice(),
            ) {
                Some(b) => Ok(b),
                None => Err(SquishError::EncodeWriteError),
            },
            SquishImageFormat::Jpeg => match encode_jpeg(
                self.width,
                self.height,
                self.rgba.as_slice(),
            ) {
                Some(b) => Ok(b),
                None => Err(SquishError::EncodeWriteError),
            },
        }
    }

    /// The display name of this image's format.
    pub fn get_image_format_repr(&self) -> (r: String)
        ensures
            self.spec_format() is Jpeg ==> r@ == "JPEG"@,
            self.spec_format() is Png ==> r@ == "PNG"@,
    {
        match self.format {
            SquishImageFormat::Jpeg => String::from_str("JPEG"),
            SquishImageFormat::Png => String::from_str("PNG"),
        }
    }
}

} // verus!
