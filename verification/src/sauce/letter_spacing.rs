//! The width that each glyph was drawn for.

use vstd::prelude::*;
use crate::sauce::sauce_error::SauceError;
use crate::text;

verus! {

/// The width of a glyph cell. `Undefined` stands for no preference.
#[derive(Clone, Copy, Debug, PartialEq, Eq, Structural)]
pub enum LetterSpacing {
    Undefined,
    EightPixels,
    NinePixels,
}

impl Default for LetterSpacing {
    fn default() -> (r: Self)
        ensures
            r == LetterSpacing::EightPixels,
    {
        LetterSpacing::EightPixels
    }
}

impl LetterSpacing {
    /// The two bits that stand for the value: 0 for none, 1 for eight pixels, 2 for nine.
    pub open spec fn field(self) -> nat {
        match self {
            LetterSpacing::Undefined => 0,
            LetterSpacing::EightPixels => 1,
            LetterSpacing::NinePixels => 2,
        }
    }

    /// The value that bits 1 and 2 of the flags byte stand for. The pattern 3, which has no
    /// meaning, reads as no preference.
    pub open spec fn of_flags(flags: u8) -> LetterSpacing {
        let field = (flags as nat / 2) % 4;
        if field == 1 {
            LetterSpacing::EightPixels
        } else if field == 2 {
            LetterSpacing::NinePixels
        } else {
            LetterSpacing::Undefined
        }
    }

    /// The name of the value.
    pub open spec fn name(self) -> Seq<char> {
        match self {
            LetterSpacing::Undefined => "None"@,
            LetterSpacing::EightPixels => "8px"@,
            LetterSpacing::NinePixels => "9px"@,
        }
    }

    /// The value with the given name, if any.
    pub open spec fn of_name(name: Seq<char>) -> Option<LetterSpacing> {
        if name == "None"@ {
            Some(LetterSpacing::Undefined)
        } else if name == "8px"@ {
            Some(LetterSpacing::EightPixels)
        } else if name == "9px"@ {
            Some(LetterSpacing::NinePixels)
        } else {
            None
        }
    }

    /// Reads the value from bits 1 and 2 of the flags byte.
    pub fn from_flags(flags: u8) -> (r: LetterSpacing)
        ensures
            r == LetterSpacing::of_flags(flags),
    {
        let field = (flags >> 1) & 3;
        assert((flags >> 1u8) & 3u8 == (flags / 2u8) % 4u8) by (bit_vector);
        if field == 1 {
            LetterSpacing::EightPixels
        } else if field == 2 {
            LetterSpacing::NinePixels
        } else {
            LetterSpacing::Undefined
        }
    }

    /// The value's share of the flags byte: its two bits in place, all others zero.
    pub fn to_flags(&self) -> (r: u8)
        ensures
            r == self.field() * 2,
            LetterSpacing::of_flags(r) == *self,
    {
        match self {
            LetterSpacing::Undefined => 0,
            LetterSpacing::EightPixels => 2,
            LetterSpacing::NinePixels => 4,
        }
    }

    /// The name of the value.
    pub fn to_string(&self) -> (r: String)
        ensures
            r@ == self.name(),
    {
        match self {
            LetterSpacing::Undefined => text::string_of("None"),
            LetterSpacing::EightPixels => text::string_of("8px"),
            LetterSpacing::NinePixels => text::string_of("9px"),
        }
    }

    /// The value with the given name; `InvalidLetterSpacingValue` where none has it.
    pub fn from_str(name: &str) -> (r: Result<LetterSpacing, SauceError>)
        ensures
            match r {
                Ok(value) => LetterSpacing::of_name(name@) == Some(value),
                Err(error) => LetterSpacing::of_name(name@) is None && error
                    == SauceError::InvalidLetterSpacingValue,
            },
    {
        if text::str_eq(name, "None") {
            Ok(LetterSpacing::Undefined)
        } else if text::str_eq(name, "8px") {
            Ok(LetterSpacing::EightPixels)
        } else if text::str_eq(name, "9px") {
            Ok(LetterSpacing::NinePixels)
        } else {
            Err(SauceError::InvalidLetterSpacingValue)
        }
    }
}

} // verus!
