//! Choice of the decompression filter from the name of an image file.

use vstd::prelude::*;

verus! {

/// Identifier of the filter that passes the image through unchanged.
pub const FILTER_ID_NONE: i32 = 0;

/// Identifier of the filter that decompresses an XZ stream.
pub const FILTER_ID_XZ: i32 = 1;

/// The ending by which XZ-compressed images are recognised.
pub open spec fn xz_suffix() -> Seq<char> {
    seq!['.', 'x', 'z']
}

/// The filter that a file name calls for: XZ where the name ends in
/// [`xz_suffix`], compared character by character and with case, and none
/// otherwise.
pub open spec fn filter_for(filename: Seq<char>) -> i32 {
    if xz_suffix().is_suffix_of(filename) {
        FILTER_ID_XZ
    } else {
        FILTER_ID_NONE
    }
}

/// Picks the filter for an image from its file name.
pub fn autodetect_filter(filename: &str) -> (filter: i32)
    ensures
        filter == filter_for(filename@),
{
    let length = filename.unicode_len();
    if length < 3 {
        return FILTER_ID_NONE;
    }
    if filename.get_char(length - 3) == '.' && filename.get_char(length - 2) == 'x'
        && filename.get_char(length - 1) == 'z' {
        FILTER_ID_XZ
    } else {
        FILTER_ID_NONE
    }
}

} // verus!
