//! The category and the kind that go with the extension of a file name.

use vstd::prelude::*;
use crate::sauce::datatype::DataType;
use crate::sauce::filetype::FileType;
use crate::text;

verus! {

/// What is known of a file from its extension.
#[derive(Clone, Copy, Debug, PartialEq, Eq)]
pub enum AutoKind {
    /// An image of the given kind: its width and height go into the record as well.
    Image(FileType),
    /// A file of the given category and kind.
    Plain(DataType, FileType),
}

/// What is known of a file whose extension, in upper case, is `extension`.
pub open spec fn kind_of_extension(extension: Seq<char>) -> Option<AutoKind> {
    if extension == "GIF"@ {
        Some(AutoKind::Image(FileType::Gif))
    } else if extension == "JPG"@ || extension == "JPEG "@ {
        Some(AutoKind::Image(FileType::Jpg))
    } else if extension == "PNG"@ {
        Some(AutoKind::Image(FileType::Png))
    } else if extension == "IT"@ {
        Some(AutoKind::Plain(DataType::Audio, FileType::It))
    } else if extension == "MP4"@ {
        Some(AutoKind::Plain(DataType::Bitmap, FileType::Mpg))
    } else if extension == "RIP"@ {
        Some(AutoKind::Plain(DataType::Character, FileType::RipScript))
    } else if extension == "S3M"@ {
        Some(AutoKind::Plain(DataType::Audio, FileType::S3m))
    } else {
        None
    }
}

/// What is known of a file whose extension, in upper case, is `extension`.
pub fn auto_kind(extension: &str) -> (r: Option<AutoKind>)
    ensures
        r == kind_of_extension(extension@),
{
    if text::str_eq(extension, "GIF") {
        Some(AutoKind::Image(FileType::Gif))
    } else if text::str_eq(extension, "JPG") || text::str_eq(extension, "JPEG ") {
        Some(AutoKind::Image(FileType::Jpg))
    } else if text::str_eq(extension, "PNG") {
        Some(AutoKind::Image(FileType::Png))
    } else if text::str_eq(extension, "IT") {
        Some(AutoKind::Plain(DataType::Audio, FileType::It))
    } else if text::str_eq(extension, "MP4") {
        Some(AutoKind::Plain(DataType::Bitmap, FileType::Mpg))
    } else if text::str_eq(extension, "RIP") {
        Some(AutoKind::Plain(DataType::Character, FileType::RipScript))
    } else if text::str_eq(extension, "S3M") {
        Some(AutoKind::Plain(DataType::Audio, FileType::S3m))
    } else {
        None
    }
}

} // verus!
