use crate::common::spec_decimal;
use crate::common::u64_to_string;
use crate::common::UNEXPECTED_ERROR_MESSAGE;
use vstd::prelude::*;

verus! {

/// Every way a single run of the pipeline can fail. Each failure is terminal:
/// there is no retry anywhere in the pipeline.
#[derive(Clone, Copy, Debug, PartialEq, Eq)]
pub enum SquishError {
    /// The OS clipboard could not be opened.
    ClipboardUnavailable,
    /// The clipboard was opened but holds nothing.
    ClipboardEmpty,
    /// The clipboard holds content that is not an image.
    ClipboardNotImage,
    /// The input path does not exist.
    FileNotFound,
    /// The input path could not be stat'ed for another reason.
    MetadataError,
    /// The input path has no resolvable file stem.
    NoFileName,
    /// The input file is larger than the supported cap.
    FileTooLarge { len: u64 },
    /// Reading the file failed after its size was already confirmed safe.
    ReadError,
    /// No container format could be inferred from the byte stream.
    FormatUndetected,
    /// A container format was inferred, but it is neither JPEG nor PNG.
    UnsupportedFormat,
    /// The bytes are not valid data for the detected format.
    DecodeError,
    /// A raw RGBA buffer does not match its stated dimensions.
    PixelBufferSizeMismatch,
    /// The requested width is below the lower bound.
    WidthTooSmall,
    /// The requested width equals the image's current width.
    NoOpResize,
    /// The requested width is more than three times the current width.
    RatioExceeded { current_width: u32 },
    /// Clipboard output was requested for a non-PNG image.
    ClipboardFormatUnsupported,
    /// Neither a file destination nor clipboard-copy was requested.
    NoDestination,
    /// A parent directory of the destination could not be created.
    DirectoryCreateError,
    /// Encoding the image or writing the encoded bytes failed.
    EncodeWriteError,
    /// Writing the resized image to the clipboard failed.
    ClipboardWriteError,
}

impl SquishError {
    /// The human-readable message for this failure.
    pub closed spec fn spec_message(self) -> Seq<char> {
        match self {
            SquishError::ClipboardUnavailable => "couldn't access system clipboard"@,
            SquishError::ClipboardEmpty => "the system clipboard is empty"@,
            SquishError::ClipboardNotImage => "couldn't get image from clipboard"@,
            SquishError::FileNotFound => "file not found"@,
            SquishError::MetadataError => "couldn't fetch file metadata"@,
            SquishError::NoFileName => "provided file has no name"@,
            SquishError::FileTooLarge { len } => "file's size ("@ + spec_decimal(len as nat)
                + " bytes) exceeds the maximum supported by squish, which is 100000000 bytes"@,
            SquishError::ReadError => "couldn't read file contents; "@ + UNEXPECTED_ERROR_MESSAGE@,
            SquishError::FormatUndetected => "couldn't determine the image format"@,
            SquishError::UnsupportedFormat => "file format not supported; allowed types: [image/jpeg, image/png]"@,
            SquishError::DecodeError => "couldn't decode bytes to a known image format"@,
            SquishError::PixelBufferSizeMismatch => "couldn't construct RGBA image from clipboard bytes"@,
            SquishError::WidthTooSmall => "width must be greater than or equal to 20"@,
            SquishError::NoOpResize => "resize width is the same as the input image's width"@,
            SquishError::RatioExceeded { current_width } => "resize width cannot be more than 3 times the width of the input image (which is "@
                + spec_decimal(current_width as nat) + ")"@,
            SquishError::ClipboardFormatUnsupported => "copy to clipboard is only supported for PNG files"@,
            SquishError::NoDestination => "at least one destination (a local output file or the system clipboard) needs to be provided"@,
            SquishError::DirectoryCreateError => "couldn't create target directory"@,
            SquishError::EncodeWriteError => "couldn't write to output file; "@ + UNEXPECTED_ERROR_MESSAGE@,
            SquishError::ClipboardWriteError => "couldn't write resized image bytes to system clipboard"@,
        }
    }

    /// Renders the message for this failure.
    pub fn message(&self) -> (r: String)
        ensures
            r@ == self.spec_message(),
    {
        match self {
            SquishError::ClipboardUnavailable => String::from_str("couldn't access system clipboard"),
            SquishError::ClipboardEmpty => String::from_str("the system clipboard is empty"),
            SquishError::ClipboardNotImage => String::from_str("couldn't get image from clipboard"),
            SquishError::FileNotFound => String::from_str("file not found"),
            SquishError::MetadataError => String::from_str("couldn't fetch file metadata"),
            SquishError::NoFileName => String::from_str("provided file has no name"),
            SquishError::FileTooLarge { len } => {
                let mut s = String::from_str("file's size (");
                let dec = u64_to_string(*len);
                s.append(dec.as_str());
                s.append(" bytes) exceeds the maximum supported by squish, which is 100000000 bytes");
                s
            },
            SquishError::ReadError => {
                let mut s = String::from_str("couldn't read file contents; ");
                s.append(UNEXPECTED_ERROR_MESSAGE);
                s
            },
            SquishError::FormatUndetected => String::from_str("couldn't determine the image format"),
            SquishError::UnsupportedFormat => String::from_str("file format not supported; allowed types: [image/jpeg, image/png]"),
            SquishError::DecodeError => String::from_str("couldn't decode bytes to a known image format"),
            SquishError::PixelBufferSizeMismatch => String::from_str("couldn't construct RGBA image from clipboard bytes"),
            SquishError::WidthTooSmall => String::from_str("width must be greater than or equal to 20"),
            SquishError::NoOpResize => String::from_str("resize width is the same as the input image's width"),
            SquishError::RatioExceeded { current_width } => {
                let mut s = String::from_str("resize width cannot be more than 3 times the width of the input image (which is ");
                let dec = u64_to_string(*current_width as u64);
                s.append(dec.as_str());
                s.append(")");
                s
            },
            SquishError::ClipboardFormatUnsupported => String::from_str("copy to clipboard is only supported for PNG files"),
            SquishError::NoDestination => String::from_str("at least one destination (a local output file or the system clipboard) needs to be provided"),
            SquishError::DirectoryCreateError => String::from_str("couldn't create target directory"),
            SquishError::EncodeWriteError => {
                let mut s = String::from_str("couldn't write to output file; ");
                s.append(UNEXPECTED_ERROR_MESSAGE);
                s
            },
            SquishError::ClipboardWriteError => String::from_str("couldn't write resized image bytes to system clipboard"),
        }
    }
}

} // verus!
