//! The formats of ingredient files, told from the extension of the file name.

use crate::text::{ascii_lower, lowers_to};
use vstd::prelude::*;

verus! {

/// The media type that the lower-case file extension `extension` stands for.
pub open spec fn media_type_of(extension: Seq<char>) -> Option<Seq<char>> {
    if extension == "jpg"@ || extension == "jpeg"@ {
        Some("image/jpeg"@)
    } else if extension == "png"@ {
        Some("image/png"@)
    } else if extension == "gif"@ {
        Some("image/gif"@)
    } else if extension == "webp"@ {
        Some("image/webp"@)
    } else if extension == "tiff"@ || extension == "tif"@ {
        Some("image/tiff"@)
    } else if extension == "bmp"@ {
        Some("image/bmp"@)
    } else {
        None
    }
}

/// The media type of a file with the extension `extension`, whatever the case of
/// its letters. An extension outside the table has none.
pub fn extension_to_mime(extension: &str) -> (r: Option<&'static str>)
    ensures
        match media_type_of(ascii_lower(extension@)) {
            Some(media_type) => r is Some && r->0@ == media_type,
            None => r is None,
        },
{
    if lowers_to(extension, "jpg") || lowers_to(extension, "jpeg") {
        Some("image/jpeg")
    } else if lowers_to(extension, "png") {
        Some("image/png")
    } else if lowers_to(extension, "gif") {
        Some("image/gif")
    } else if lowers_to(extension, "webp") {
        Some("image/webp")
    } else if lowers_to(extension, "tiff") || lowers_to(extension, "tif") {
        Some("image/tiff")
    } else if lowers_to(extension, "bmp") {
        Some("image/bmp")
    } else {
        None
    }
}

} // verus!
