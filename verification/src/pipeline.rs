use crate::errors::SquishError;
use crate::request::spec_destination_present;
use crate::request::validate_clipboard_compatibility;
use crate::request::validate_request_descriptor;
use crate::request::RESIZE_WIDTH_LOWER_THRESHOLD;
use crate::types::spec_encoding;
use crate::types::SquishImageFormat;
use crate::types::ValidImage;
use crate::types::RESIZE_RATIO_UPPER_THRESHOLD;
use vstd::prelude::*;

verus! {

/// A requested target width plus an optional blur strength. Created from
/// user input, validated against a specific image, consumed once by the
/// transform, then discarded.
#[derive(Clone, Copy, Debug, PartialEq, Eq, Structural)]
pub struct ResizeRequest {
    pub width: u32,
    pub blur_strength: u8,
}

/// What one pipeline run produces before delivery: the resized image, and
/// the encoded bytes for the file destination when one was requested.
pub struct ProcessOutcome {
    pub resized: ValidImage,
    pub encoded: Option<Vec<u8>>,
}

/// Whether a request passes every validation gate against an image of the
/// given width and format: a destination is present, the width is at or
/// above the floor, differs from the current width, is at most three times
/// the current width, and clipboard output is only asked of a PNG image.
pub open spec fn spec_request_admissible(
    current_width: u32,
    format: SquishImageFormat,
    width: u32,
    has_output_file: bool,
    copy_to_clipboard: bool,
) -> bool {
    &&& spec_destination_present(has_output_file, copy_to_clipboard)
    &&& width >= RESIZE_WIDTH_LOWER_THRESHOLD
    &&& width != current_width
    &&& width <= RESIZE_RATIO_UPPER_THRESHOLD * current_width
    &&& (copy_to_clipboard ==> format is Png)
}

/// Runs every stage between acquisition and delivery: the five validation
/// gates in their documented order, then the resize with optional blur, then
/// the encode when a file destination was requested. Fail-fast: the first
/// gate that rejects decides the error.
pub fn process(
    img: &ValidImage,
    request: ResizeRequest,
    has_output_file: bool,
    copy_to_clipboard: bool,
) -> (r: Result<ProcessOutcome, SquishError>)
    ensures
        !spec_destination_present(has_output_file, copy_to_clipboard) <==> r matches Err(
            SquishError::NoDestination,
        ),
        (spec_destination_present(has_output_file, copy_to_clipboard) && request.width
            < RESIZE_WIDTH_LOWER_THRESHOLD) <==> r matches Err(SquishError::WidthTooSmall),
        (spec_destination_present(has_output_file, copy_to_clipboard) && request.width
            >= RESIZE_WIDTH_LOWER_THRESHOLD && request.width == img.spec_width()) <==> r matches Err(
            SquishError::NoOpResize,
        ),
        (spec_destination_present(has_output_file, copy_to_clipboard) && request.width
            >= RESIZE_WIDTH_LOWER_THRESHOLD && request.width != img.spec_width() && request.width
            > RESIZE_RATIO_UPPER_THRESHOLD * img.spec_width()) <==> (r matches Err(
            SquishError::RatioExceeded { current_width },
        ) && current_width == img.spec_width()),
        (spec_destination_present(has_output_file, copy_to_clipboard) && request.width
            >= RESIZE_WIDTH_LOWER_THRESHOLD && request.width != img.spec_width() && request.width
            <= RESIZE_RATIO_UPPER_THRESHOLD * img.spec_width() && copy_to_clipboard
            && img.spec_format() !is Png) <==> r matches Err(
            SquishError::ClipboardFormatUnsupported,
        ),
        spec_request_admissible(
            img.spec_width(),
            img.spec_format(),
            request.width,
            has_output_file,
            copy_to_clipboard,
        ) ==> ({
            let t = img.spec_transform(request.width, request.blur_strength);
            &&& (has_output_file ==> match spec_encoding(img.spec_format(), t.0, t.1, t.2) {
                Some(b) => r matches Ok(out) && out.encoded matches Some(v) && v@ == b,
                None => r matches Err(SquishError::EncodeWriteError),
            })
            &&& (!has_output_file ==> (r matches Ok(out) && out.encoded is None))
        }),
        r matches Ok(out) ==> spec_request_admissible(
            img.spec_width(),
            img.spec_format(),
            request.width,
            has_output_file,
            copy_to_clipboard,
        ) && (out.resized.spec_width(), out.resized.spec_height(), out.resized.spec_rgba())
            == img.spec_transform(request.width, request.blur_strength)
            && out.resized.spec_format() == img.spec_format(),
{
    match validate_request_descriptor(request.width, has_output_file, copy_to_clipboard) {
        Err(e) => {
            return Err(e);
        },
        Ok(()) => {},
    }
    match img.validate_resize_request(request.width) {
        Err(e) => {
            return Err(e);
        },
        Ok(()) => {},
    }
    match validate_clipboard_compatibility(img.format(), copy_to_clipboard) {
        Err(e) => {
            return Err(e);
        },
        Ok(()) => {},
    }
    let resized = img.get_resized_version(request.width, request.blur_strength);
    if has_output_file {
        match resized.encode_to_bytes() {
            Ok(encoded) => Ok(ProcessOutcome { resized, encoded: Some(encoded) }),
            Err(e) => Err(e),
        }
    } else {
        Ok(ProcessOutcome { resized, encoded: None })
    }
}

} // verus!
