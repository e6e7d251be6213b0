use squish::common::get_unexp_err_msg;
use squish::common::u64_to_string;
use squish::errors::SquishError;
use squish::request::is_clipboard_source;
use squish::request::validate_clipboard_compatibility;
use squish::request::validate_request_descriptor;
use squish::types::validate_file_len;
use squish::types::SquishImageFormat;
use squish::types::ValidImage;
use squish::types::MAX_FILE_LEN_BYTES;

fn solid_image(width: u32, height: u32) -> ValidImage {
    let bytes = vec![128u8; (width * height * 4) as usize];
    ValidImage::from_raw_rgba(bytes, width, height).unwrap()
}

#[test]
fn width_below_floor_is_rejected_before_any_image_work() {
    let r = validate_request_descriptor(19, true, false);
    assert!(matches!(r, Err(SquishError::WidthTooSmall)));
    let r2 = validate_request_descriptor(0, false, true);
    assert!(matches!(r2, Err(SquishError::WidthTooSmall)));
    assert_eq!(
        SquishError::WidthTooSmall.message(),
        "width must be greater than or equal to 20"
    );
}

#[test]
fn width_at_floor_is_accepted() {
    let r = validate_request_descriptor(20, true, false);
    assert!(r.is_ok());
}

#[test]
fn missing_destination_is_rejected() {
    let r = validate_request_descriptor(800, false, false);
    assert!(matches!(r, Err(SquishError::NoDestination)));
    assert_eq!(
        SquishError::NoDestination.message(),
        "at least one destination (a local output file or the system clipboard) needs to be provided"
    );
}

#[test]
fn resize_to_current_width_is_rejected_as_noop() {
    let img = solid_image(10, 5);
    let r = img.validate_resize_request(10);
    assert!(matches!(r, Err(SquishError::NoOpResize)));
    assert_eq!(
        SquishError::NoOpResize.message(),
        "resize width is the same as the input image's width"
    );
}

#[test]
fn resize_ratio_above_three_is_rejected() {
    let img = solid_image(10, 5);
    let r = img.validate_resize_request(31);
    match r {
        Err(SquishError::RatioExceeded { current_width }) => {
            assert_eq!(current_width, 10);
        }
        _ => panic!("expected the ratio ceiling to reject the width"),
    }
    assert_eq!(
        SquishError::RatioExceeded { current_width: 10 }.message(),
        "resize width cannot be more than 3 times the width of the input image (which is 10)"
    );
}

#[test]
fn resize_ratio_of_exactly_three_is_accepted() {
    let img = solid_image(10, 5);
    assert!(img.validate_resize_request(30).is_ok());
    assert!(img.validate_resize_request(25).is_ok());
}

#[test]
fn clipboard_copy_of_jpeg_is_rejected() {
    let r = validate_clipboard_compatibility(SquishImageFormat::Jpeg, true);
    assert!(matches!(r, Err(SquishError::ClipboardFormatUnsupported)));
    assert_eq!(
        SquishError::ClipboardFormatUnsupported.message(),
        "copy to clipboard is only supported for PNG files"
    );
}

#[test]
fn clipboard_copy_of_png_is_accepted() {
    assert!(validate_clipboard_compatibility(SquishImageFormat::Png, true).is_ok());
    assert!(validate_clipboard_compatibility(SquishImageFormat::Jpeg, false).is_ok());
}

#[test]
fn file_len_cap_is_enforced_at_the_boundary() {
    assert!(validate_file_len(MAX_FILE_LEN_BYTES).is_ok());
    let r = validate_file_len(MAX_FILE_LEN_BYTES + 1);
    match r {
        Err(SquishError::FileTooLarge { len }) => assert_eq!(len, MAX_FILE_LEN_BYTES + 1),
        _ => panic!("expected the size cap to reject the length"),
    }
    assert_eq!(
        SquishError::FileTooLarge { len: 100000001 }.message(),
        "file's size (100000001 bytes) exceeds the maximum supported by squish, which is 100000000 bytes"
    );
}

#[test]
fn clipboard_sentinel_is_recognized() {
    assert!(is_clipboard_source("cb"));
    assert!(!is_clipboard_source("cb.png"));
    assert!(!is_clipboard_source("picture.png"));
    assert!(!is_clipboard_source(""));
}

#[test]
fn unexpected_error_message_is_composed() {
    assert_eq!(
        get_unexp_err_msg("couldn't read from file"),
        "couldn't read from file; this isn't supposed to happen, let @dhth know about this via https://github.com/dhth/squish/issues"
    );
}

#[test]
fn io_error_messages_are_stable() {
    assert_eq!(
        SquishError::ClipboardUnavailable.message(),
        "couldn't access system clipboard"
    );
    assert_eq!(
        SquishError::ClipboardEmpty.message(),
        "the system clipboard is empty"
    );
    assert_eq!(
        SquishError::ClipboardNotImage.message(),
        "couldn't get image from clipboard"
    );
    assert_eq!(SquishError::FileNotFound.message(), "file not found");
    assert_eq!(
        SquishError::MetadataError.message(),
        "couldn't fetch file metadata"
    );
    assert_eq!(
        SquishError::NoFileName.message(),
        "provided file has no name"
    );
    assert_eq!(
        SquishError::ReadError.message(),
        "couldn't read file contents; this isn't supposed to happen, let @dhth know about this via https://github.com/dhth/squish/issues"
    );
    assert_eq!(
        SquishError::DirectoryCreateError.message(),
        "couldn't create target directory"
    );
    assert_eq!(
        SquishError::EncodeWriteError.message(),
        "couldn't write to output file; this isn't supposed to happen, let @dhth know about this via https://github.com/dhth/squish/issues"
    );
    assert_eq!(
        SquishError::ClipboardWriteError.message(),
        "couldn't write resized image bytes to system clipboard"
    );
    assert_eq!(
        SquishError::DecodeError.message(),
        "couldn't decode bytes to a known image format"
    );
}

#[test]
fn numbers_render_in_decimal() {
    assert_eq!(u64_to_string(0), "0");
    assert_eq!(u64_to_string(7), "7");
    assert_eq!(u64_to_string(40960), "40960");
    assert_eq!(u64_to_string(100000000), "100000000");
    assert_eq!(u64_to_string(u64::MAX), "18446744073709551615");
}
