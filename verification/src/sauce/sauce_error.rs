//! What can go wrong with a metadata record.

use vstd::prelude::*;
use crate::text;

verus! {

/// The ways in which reading or writing a metadata record fails.
#[derive(Clone, Debug, PartialEq, Eq)]
pub enum SauceError {
    /// The bytes end in no record. This is the usual case of a file without metadata.
    NoSauce,
    CommentHeaderMissing,
    /// The record counts more comments than stand before it.
    CommentsMissing,
    InvalidDataType,
    /// The kind byte has no meaning in the record's category.
    InvalidFileType,
    InvalidLetterSpacingValue,
    InvalidAspectRatioValue,
    FileReadError(String),
    FileWriteError(String),
}

impl SauceError {
    /// The text of the error, ending in a line break.
    pub open spec fn text(self) -> Seq<char> {
        match self {
            SauceError::NoSauce => "Header missing\n"@,
            SauceError::CommentHeaderMissing => "Comment header missing\n"@,
            SauceError::InvalidDataType => "Invalid datatype\n"@,
            SauceError::InvalidFileType => "Invalid filetype\n"@,
            SauceError::InvalidLetterSpacingValue => "Invalid letter spacing value\n"@,
            SauceError::InvalidAspectRatioValue => "Invalid aspect ratio value\n"@,
            SauceError::CommentsMissing => "Comments missing\n"@,
            SauceError::FileReadError(path) => "An error occured whilst reading the file: "@
                + path@ + "\n"@,
            SauceError::FileWriteError(path) => "An error occured whilst writing the file: "@
                + path@ + "\n"@,
        }
    }

    /// The text of the error, ending in a line break.
    pub fn to_string(&self) -> (r: String)
        ensures
            r@ == self.text(),
    {
        match self {
            SauceError::NoSauce => text::string_of("Header missing\n"),
            SauceError::CommentHeaderMissing => text::string_of("Comment header missing\n"),
            SauceError::InvalidDataType => text::string_of("Invalid datatype\n"),
            SauceError::InvalidFileType => text::string_of("Invalid filetype\n"),
            SauceError::InvalidLetterSpacingValue => text::string_of(
                "Invalid letter spacing value\n",
            ),
            SauceError::InvalidAspectRatioValue => text::string_of("Invalid aspect ratio value\n"),
            SauceError::CommentsMissing => text::string_of("Comments missing\n"),
            SauceError::FileReadError(path) => {
                let mut out = text::string_of("An error occured whilst reading the file: ");
                text::append(&mut out, path.as_str());
                text::append(&mut out, "\n");
                out
            },
            SauceError::FileWriteError(path) => {
                let mut out = text::string_of("An error occured whilst writing the file: ");
                text::append(&mut out, path.as_str());
                text::append(&mut out, "\n");
                out
            },
        }
    }
}

} // verus!
