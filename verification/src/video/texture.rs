//! Checks on the pixels a texture is made from.
use vstd::prelude::*;

use crate::file::owned;
use crate::ris_error::new_err;
use crate::ris_error::RisErrorView;
use crate::ris_error::RisResult;

verus! {

/// Whether `pixels_len` bytes are exactly the RGBA pixels of a `width` by
/// `height` image (four bytes per pixel); otherwise the result is the error
/// "pixel data does not match the texture size" raised at `file:line`.
pub fn check_pixels_rgba(width: u32, height: u32, pixels_len: usize, file: String, line: u32) -> (res:
    RisResult<()>)
    requires
        width * height * 4 <= u32::MAX,
    ensures
        pixels_len == width * height * 4 ==> res is Ok,
        pixels_len != width * height * 4 ==> (res matches Err(e) && e@ == (RisErrorView {
            source: None,
            message: "pixel data does not match the texture size"@,
            file: file@,
            line,
        })),
{
    assert(width * height <= u32::MAX) by (nonlinear_arith)
        requires
            width * height * 4 <= u32::MAX,
    ;
    let area: u32 = width * height;
    let expected_len = (area * 4) as usize;
    if pixels_len == expected_len {
        Ok(())
    } else {
        Err(new_err(owned("pixel data does not match the texture size"), file, line))
    }
}

} // verus!
