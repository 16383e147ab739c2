//! Files picked and saved through the dialogs of the shell.

use crate::services::image::{lowercase, lowercased};
use crate::text::str_eq;
use crate::utils::codec::{base64_encode, base64_text};
use vstd::prelude::*;
use vstd::string::*;

verus! {

/// An image file that the user picked.
#[derive(Debug, Clone, PartialEq, Eq)]
pub struct SelectedImage {
    pub base64: String,
    pub mime_type: String,
    pub file_name: String,
}

/// What to save, under which name, and the file types to offer.
#[derive(Debug, Clone, PartialEq, Eq)]
pub struct SaveFileOptions {
    pub content: String,
    pub default_name: String,
    pub filters: Vec<FileFilter>,
}

/// A file type that a dialog offers.
#[derive(Debug, Clone, PartialEq, Eq)]
pub struct FileFilter {
    pub name: String,
    pub extensions: Vec<String>,
}

/// The media type of a file with the extension `extension`: PNG, GIF and
/// WebP by their extensions in either case, and JPEG for any other.
pub open spec fn media_type_of(extension: Seq<char>) -> Seq<char> {
    let lower = lowercased(extension);
    if lower == "png"@ {
        "image/png"@
    } else if lower == "gif"@ {
        "image/gif"@
    } else if lower == "webp"@ {
        "image/webp"@
    } else {
        "image/jpeg"@
    }
}

/// The extension of a file without one.
pub open spec fn default_extension() -> Seq<char> {
    "jpg"@
}

/// The name of a file without one.
pub open spec fn default_file_name() -> Seq<char> {
    "image"@
}

/// The text of an optional string slice, or `fallback` where there is
/// none.
pub open spec fn text_or(s: Option<&str>, fallback: Seq<char>) -> Seq<char> {
    match s {
        Some(text) => text@,
        None => fallback,
    }
}

/// The picked image that a file stands for: its bytes in base64, the media
/// type that its extension tells, and its name. A file without a name is
/// called `image`; one without an extension counts as a JPEG.
pub fn selected_image(file_name: Option<&str>, extension: Option<&str>, data: &[u8]) -> (image:
    SelectedImage)
    ensures
        image.base64@ == base64_text(data@),
        image.mime_type@ == media_type_of(text_or(extension, default_extension())),
        image.file_name@ == text_or(file_name, default_file_name()),
{
    let name = match file_name {
        Some(text) => text,
        None => "image",
    };
    let ext = match extension {
        Some(text) => text,
        None => "jpg",
    };
    let lower = lowercase(ext);
    let mime_type = if str_eq(lower.as_str(), "png") {
        "image/png"
    } else if str_eq(lower.as_str(), "gif") {
        "image/gif"
    } else if str_eq(lower.as_str(), "webp") {
        "image/webp"
    } else {
        "image/jpeg"
    };
    SelectedImage {
        base64: base64_encode(data),
        mime_type: String::from_str(mime_type),
        file_name: String::from_str(name),
    }
}

} // verus!
