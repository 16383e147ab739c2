//! Images from the clipboard.

use crate::utils::codec::{base64_encode, base64_text};
use vstd::prelude::*;
use vstd::string::*;

verus! {

/// An image taken from the clipboard.
#[derive(Debug, Clone, PartialEq, Eq)]
pub struct ClipboardImage {
    pub base64: String,
    pub mime_type: String,
}

/// The image that the bytes of a clipboard picture stand for: none for no
/// bytes, else the bytes in base64, called a PNG.
pub fn clipboard_image(bytes: &[u8]) -> (image: Option<ClipboardImage>)
    ensures
        image is Some <==> bytes@.len() > 0,
        match image {
            Some(found) => found.base64@ == base64_text(bytes@) && found.mime_type@
                == "image/png"@,
            None => true,
        },
{
    if bytes.len() == 0 {
        None
    } else {
        Some(
            ClipboardImage {
                base64: base64_encode(bytes),
                mime_type: String::from_str("image/png"),
            },
        )
    }
}

} // verus!
