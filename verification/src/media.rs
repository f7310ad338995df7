//! Recognition of image payloads by their leading signature bytes, and the
//! script by which an image file is put on the clipboard.

use vstd::prelude::*;
use vstd::string::StringExecFns;

verus! {

/// The signature that opens every PNG file.
pub open spec fn png_magic() -> Seq<u8> {
    seq![0x89u8, 0x50u8, 0x4Eu8, 0x47u8, 0x0Du8, 0x0Au8, 0x1Au8, 0x0Au8]
}

/// The signature that opens every JPEG file.
pub open spec fn jpeg_magic() -> Seq<u8> {
    seq![0xFFu8, 0xD8u8, 0xFFu8]
}

/// `bytes` begins with `prefix`.
pub open spec fn has_prefix(bytes: Seq<u8>, prefix: Seq<u8>) -> bool {
    prefix.len() <= bytes.len() && bytes.subrange(0, prefix.len() as int) == prefix
}

pub open spec fn is_png(bytes: Seq<u8>) -> bool {
    has_prefix(bytes, png_magic())
}

pub open spec fn is_jpeg(bytes: Seq<u8>) -> bool {
    has_prefix(bytes, jpeg_magic())
}

/// The MIME type that the leading bytes of a payload stand for.
pub open spec fn mime_of(bytes: Seq<u8>) -> Seq<char> {
    if is_png(bytes) {
        "image/png"@
    } else if is_jpeg(bytes) {
        "image/jpeg"@
    } else {
        "image/octet-stream"@
    }
}

/// The script that loads the image file at `temp_file` and puts it on the
/// clipboard.
pub open spec fn clipboard_script_text(temp_file: Seq<char>) -> Seq<char> {
    "try { $img = [System.Drawing.Image]::FromFile('"@ + temp_file
        + "'); [System.Windows.Forms.Clipboard]::SetImage($img); $img.Dispose(); } catch { Write-Error $_; exit 1; }"@
}

/// Image magic byte validation.
pub struct ImageValidator;

/// Clipboard image handler.
pub struct ClipboardImage;

/// Why an image was not handed on.
#[derive(Clone, Copy, Debug, PartialEq, Eq, Structural)]
pub enum ImageError {
    /// The bytes open with neither the PNG nor the JPEG signature.
    InvalidFormat,
}

impl ImageError {
    /// A description for the operator.
    pub fn message(&self) -> (text: String)
        ensures
            text@ == "Invalid image format: magic bytes validation failed"@,
    {
        "Invalid image format: magic bytes validation failed".to_string()
    }
}

impl ClipboardImage {
    /// The name of the file, within the temporary directory, in which an
    /// image is staged for the clipboard.
    pub fn temp_file_name() -> (name: String)
        ensures
            name@ == "spectrocap_image.tmp"@,
    {
        "spectrocap_image.tmp".to_string()
    }

    /// The PowerShell script that puts the image file at `temp_file` on the
    /// clipboard.
    pub fn clipboard_script(temp_file: &str) -> (script: String)
        ensures
            script@ == clipboard_script_text(temp_file@),
    {
        String::from_str("try { $img = [System.Drawing.Image]::FromFile('").concat(
            temp_file,
        ).concat(
            "'); [System.Windows.Forms.Clipboard]::SetImage($img); $img.Dispose(); } catch { Write-Error $_; exit 1; }",
        )
    }

    /// Checks image bytes before they go to the clipboard or to a file: fails exactly when
    /// they open with neither the PNG nor the JPEG signature.
    pub fn check_image(image_bytes: &[u8]) -> (checked: Result<(), ImageError>)
        ensures
            checked is Ok == (is_png(image_bytes@) || is_jpeg(image_bytes@)),
    {
        if ImageValidator::validate_image_magic(image_bytes) {
            Ok(())
        } else {
            Err(ImageError::InvalidFormat)
        }
    }
}

impl ImageValidator {
    /// True exactly when `bytes` opens with the PNG or the JPEG signature.
    pub fn validate_image_magic(bytes: &[u8]) -> (valid: bool)
        ensures
            valid == (is_png(bytes@) || is_jpeg(bytes@)),
    {
        starts_with_png(bytes) || starts_with_jpeg(bytes)
    }

    /// The MIME type of an image payload: `image/png`, `image/jpeg`, or
    /// `image/octet-stream` for bytes that open with neither signature.
    pub fn detect_mime(bytes: &[u8]) -> (mime: String)
        ensures
            mime@ == mime_of(bytes@),
    {
        if starts_with_png(bytes) {
            "image/png".to_string()
        } else if starts_with_jpeg(bytes) {
            "image/jpeg".to_string()
        } else {
            "image/octet-stream".to_string()
        }
    }
}

fn starts_with_png(bytes: &[u8]) -> (found: bool)
    ensures
        found == is_png(bytes@),
{
    if bytes.len() < 8 {
        return false;
    }
    let found = bytes[0] == 0x89 && bytes[1] == 0x50 && bytes[2] == 0x4E && bytes[3] == 0x47
        && bytes[4] == 0x0D && bytes[5] == 0x0A && bytes[6] == 0x1A && bytes[7] == 0x0A;
    proof {
        let head = bytes@.subrange(0, 8);
        if found {
            assert(head =~= png_magic());
        } else {
            assert(head[0] == bytes@[0] && head[1] == bytes@[1] && head[2] == bytes@[2]
                && head[3] == bytes@[3] && head[4] == bytes@[4] && head[5] == bytes@[5]
                && head[6] == bytes@[6] && head[7] == bytes@[7]);
        }
    }
    found
}

fn starts_with_jpeg(bytes: &[u8]) -> (found: bool)
    ensures
        found == is_jpeg(bytes@),
{
    if bytes.len() < 3 {
        return false;
    }
    let found = bytes[0] == 0xFF && bytes[1] == 0xD8 && bytes[2] == 0xFF;
    proof {
        let head = bytes@.subrange(0, 3);
        if found {
            assert(head =~= jpeg_magic());
        } else {
            assert(head[0] == bytes@[0] && head[1] == bytes@[1] && head[2] == bytes@[2]);
        }
    }
    found
}

} // verus!
