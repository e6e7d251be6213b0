use crate::errors::SquishError;
use crate::types::SquishImageFormat;
use vstd::prelude::*;

verus! {

/// The width used when none is requested.
pub const DEFAULT_RESIZE_WIDTH: u32 = 800;

/// The smallest width a request may ask for.
pub const RESIZE_WIDTH_LOWER_THRESHOLD: u32 = 20;

/// Whether at least one destination was requested for the resized image.
pub open spec fn spec_destination_present(has_output_file: bool, copy_to_clipboard: bool) -> bool {
    has_output_file || copy_to_clipboard
}

/// The descriptor-level checks, needing no image: a run with no destination
/// at all has nothing to do, and a width below the floor can never succeed.
/// Both are rejected here, before any file or clipboard read is attempted.
pub fn validate_request_descriptor(width: u32, has_output_file: bool, copy_to_clipboard: bool) -> (r:
    Result<(), SquishError>)
    ensures
        !spec_destination_present(has_output_file, copy_to_clipboard) <==> r matches Err(
            SquishError::NoDestination,
        ),
        (spec_destination_present(has_output_file, copy_to_clipboard) && width
            < RESIZE_WIDTH_LOWER_THRESHOLD) <==> r matches Err(SquishError::WidthTooSmall),
        r is Ok <==> (spec_destination_present(has_output_file, copy_to_clipboard) && width
            >= RESIZE_WIDTH_LOWER_THRESHOLD),
{
    if !has_output_file && !copy_to_clipboard {
        return Err(SquishError::NoDestination);
    }
    if width < RESIZE_WIDTH_LOWER_THRESHOLD {
        return Err(SquishError::WidthTooSmall);
    }
    Ok(())
}

/// The clipboard/format compatibility rule: clipboard output is only
/// available for PNG-tagged images, since the clipboard carries raw RGBA,
/// which round-trips losslessly with PNG semantics only.
pub fn validate_clipboard_compatibility(format: SquishImageFormat, copy_to_clipboard: bool) -> (r:
    Result<(), SquishError>)
    ensures
        r is Ok <==> (copy_to_clipboard ==> format is Png),
        (copy_to_clipboard && format !is Png) <==> r matches Err(
            SquishError::ClipboardFormatUnsupported,
        ),
{
    match (format, copy_to_clipboard) {
        (SquishImageFormat::Png, _) => Ok(()),
        (_, true) => Err(SquishError::ClipboardFormatUnsupported),
        _ => Ok(()),
    }
}

/// Whether an input descriptor names the system clipboard rather than a
/// filesystem path.
pub fn is_clipboard_source(descriptor: &str) -> (r: bool)
    ensures
        r <==> descriptor@ == "cb"@,
{
    let d = String::from_str(descriptor);
    let sentinel = String::from_str("cb");
    d == sentinel
}

} // verus!
