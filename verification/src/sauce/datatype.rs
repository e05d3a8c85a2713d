//! The categories of file that a metadata record tells apart.

use vstd::prelude::*;
use crate::sauce::sauce_error::SauceError;
use crate::text;

verus! {

/// The category of a file.
#[derive(Clone, Copy, Debug, PartialEq, Eq, Structural)]
pub enum DataType {
    Undefined,
    Character,
    Bitmap,
    Vector,
    Audio,
    BinaryText,
    XBin,
    Archive,
    Executable,
}

impl Default for DataType {
    fn default() -> (r: Self)
        ensures
            r == DataType::Undefined,
    {
        DataType::Undefined
    }
}

impl DataType {
    /// The byte that stands for the category in a record.
    pub open spec fn code(self) -> u8 {
        match self {
            DataType::Undefined => 0,
            DataType::Character => 1,
            DataType::Bitmap => 2,
            DataType::Vector => 3,
            DataType::Audio => 4,
            DataType::BinaryText => 5,
            DataType::XBin => 6,
            DataType::Archive => 7,
            DataType::Executable => 8,
        }
    }

    /// The category that the byte `value` stands for, if any.
    pub open spec fn of_code(value: u8) -> Option<DataType> {
        if value == 0 {
            Some(DataType::Undefined)
        } else if value == 1 {
            Some(DataType::Character)
        } else if value == 2 {
            Some(DataType::Bitmap)
        } else if value == 3 {
            Some(DataType::Vector)
        } else if value == 4 {
            Some(DataType::Audio)
        } else if value == 5 {
            Some(DataType::BinaryText)
        } else if value == 6 {
            Some(DataType::XBin)
        } else if value == 7 {
            Some(DataType::Archive)
        } else if value == 8 {
            Some(DataType::Executable)
        } else {
            None
        }
    }

    /// The name of the category.
    pub open spec fn name(self) -> Seq<char> {
        match self {
            DataType::Undefined => "None"@,
            DataType::Character => "Character"@,
            DataType::Bitmap => "Bitmap"@,
            DataType::Vector => "Vector"@,
            DataType::Audio => "Audio"@,
            DataType::BinaryText => "Binary Text"@,
            DataType::XBin => "XBin"@,
            DataType::Archive => "Archive"@,
            DataType::Executable => "Executable"@,
        }
    }

    /// The category with the given name, if any. Where two names were the same, the first
    /// in this order would win.
    pub open spec fn of_name(name: Seq<char>) -> Option<DataType> {
        if name == "None"@ {
            Some(DataType::Undefined)
        } else if name == "Character"@ {
            Some(DataType::Character)
        } else if name == "Bitmap"@ {
            Some(DataType::Bitmap)
        } else if name == "Vector"@ {
            Some(DataType::Vector)
        } else if name == "Audio"@ {
            Some(DataType::Audio)
        } else if name == "Binary Text"@ {
            Some(DataType::BinaryText)
        } else if name == "XBin"@ {
            Some(DataType::XBin)
        } else if name == "Archive"@ {
            Some(DataType::Archive)
        } else if name == "Executable"@ {
            Some(DataType::Executable)
        } else {
            None
        }
    }

    /// The byte that stands for the category in a record.
    pub fn to_byte(&self) -> (r: u8)
        ensures
            r == self.code(),
            DataType::of_code(r) == Some(*self),
    {
        match self {
            DataType::Undefined => 0,
            DataType::Character => 1,
            DataType::Bitmap => 2,
            DataType::Vector => 3,
            DataType::Audio => 4,
            DataType::BinaryText => 5,
            DataType::XBin => 6,
            DataType::Archive => 7,
            DataType::Executable => 8,
        }
    }

    /// The category that the byte `value` stands for; `InvalidDataType` for a byte above 8.
    pub fn from_byte(value: u8) -> (r: Result<DataType, SauceError>)
        ensures
            match r {
                Ok(datatype) => DataType::of_code(value) == Some(datatype),
                Err(error) => DataType::of_code(value) is None && error
                    == SauceError::InvalidDataType,
            },
    {
        if value == 0 {
            Ok(DataType::Undefined)
        } else if value == 1 {
            Ok(DataType::Character)
        } else if value == 2 {
            Ok(DataType::Bitmap)
        } else if value == 3 {
            Ok(DataType::Vector)
        } else if value == 4 {
            Ok(DataType::Audio)
        } else if value == 5 {
            Ok(DataType::BinaryText)
        } else if value == 6 {
            Ok(DataType::XBin)
        } else if value == 7 {
            Ok(DataType::Archive)
        } else if value == 8 {
            Ok(DataType::Executable)
        } else {
            Err(SauceError::InvalidDataType)
        }
    }

    /// The name of the category.
    pub fn to_string(&self) -> (r: String)
        ensures
            r@ == self.name(),
    {
        match self {
            DataType::Undefined => text::string_of("None"),
            DataType::Character => text::string_of("Character"),
            DataType::Bitmap => text::string_of("Bitmap"),
            DataType::Vector => text::string_of("Vector"),
            DataType::Audio => text::string_of("Audio"),
            DataType::BinaryText => text::string_of("Binary Text"),
            DataType::XBin => text::string_of("XBin"),
            DataType::Archive => text::string_of("Archive"),
            DataType::Executable => text::string_of("Executable"),
        }
    }

    /// The category with the given name; `InvalidDataType` where no category has it.
    pub fn from_str(name: &str) -> (r: Result<DataType, SauceError>)
        ensures
            match r {
                Ok(datatype) => DataType::of_name(name@) == Some(datatype),
                Err(error) => DataType::of_name(name@) is None && error
                    == SauceError::InvalidDataType,
            },
    {
        if text::str_eq(name, "None") {
            Ok(DataType::Undefined)
        } else if text::str_eq(name, "Character") {
            Ok(DataType::Character)
        } else if text::str_eq(name, "Bitmap") {
            Ok(DataType::Bitmap)
        } else if text::str_eq(name, "Vector") {
            Ok(DataType::Vector)
        } else if text::str_eq(name, "Audio") {
            Ok(DataType::Audio)
        } else if text::str_eq(name, "Binary Text") {
            Ok(DataType::BinaryText)
        } else if text::str_eq(name, "XBin") {
            Ok(DataType::XBin)
        } else if text::str_eq(name, "Archive") {
            Ok(DataType::Archive)
        } else if text::str_eq(name, "Executable") {
            Ok(DataType::Executable)
        } else {
            Err(SauceError::InvalidDataType)
        }
    }
}

} // verus!
