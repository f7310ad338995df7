//! What the application's commands compute, apart from the windowing that
//! carries them.

use vstd::prelude::*;
use vstd::string::StringExecFns;
use crate::media::{mime_of, ImageValidator};

verus! {

/// A greeting for `name`.
pub fn greet(name: &str) -> (greeting: String)
    ensures
        greeting@ == "Hello, "@ + name@ + "!"@,
{
    String::from_str("Hello, ").concat(name).concat("!")
}

/// The MIME type of image bytes: `image/png`, `image/jpeg`, or
/// `image/octet-stream` for bytes that open with neither signature.
pub fn detect_image_mime(image_bytes: Vec<u8>) -> (mime: String)
    ensures
        mime@ == mime_of(image_bytes@),
{
    ImageValidator::detect_mime(image_bytes.as_slice())
}

} // verus!
