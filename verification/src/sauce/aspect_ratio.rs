//! The aspect ratio that the art was drawn for.

use vstd::prelude::*;
use crate::sauce::sauce_error::SauceError;
use crate::text;

verus! {

/// The shape of the pixels that the art was drawn for. `Undefined` stands for no preference.
#[derive(Clone, Copy, Debug, PartialEq, Eq, Structural)]
pub enum AspectRatio {
    Undefined,
    Modern,
    Legacy,
}

impl Default for AspectRatio {
    fn default() -> (r: Self)
        ensures
            r == AspectRatio::Modern,
    {
        AspectRatio::Modern
    }
}

impl AspectRatio {
    /// The two bits that stand for the value: 0 for none, 1 for legacy, 2 for modern.
    pub open spec fn field(self) -> nat {
        match self {
            AspectRatio::Undefined => 0,
            AspectRatio::Legacy => 1,
            AspectRatio::Modern => 2,
        }
    }

    /// The value that bits 3 and 4 of the flags byte stand for. The pattern 3, which has no
    /// meaning, reads as no preference.
    pub open spec fn of_flags(flags: u8) -> AspectRatio {
        let field = (flags as nat / 8) % 4;
        if field == 1 {
            AspectRatio::Legacy
        } else if field == 2 {
            AspectRatio::Modern
        } else {
            AspectRatio::Undefined
        }
    }

    /// The name of the value.
    pub open spec fn name(self) -> Seq<char> {
        match self {
            AspectRatio::Undefined => "None"@,
            AspectRatio::Modern => "Modern"@,
            AspectRatio::Legacy => "Legacy"@,
        }
    }

    /// The value with the given name, if any.
    pub open spec fn of_name(name: Seq<char>) -> Option<AspectRatio> {
        if name == "None"@ {
            Some(AspectRatio::Undefined)
        } else if name == "Modern"@ {
            Some(AspectRatio::Modern)
        } else if name == "Legacy"@ {
            Some(AspectRatio::Legacy)
        } else {
            None
        }
    }

    /// Reads the value from bits 3 and 4 of the flags byte.
    pub fn from_flags(flags: u8) -> (r: AspectRatio)
        ensures
            r == AspectRatio::of_flags(flags),
    {
        let field = (flags >> 3) & 3;
        assert((flags >> 3u8) & 3u8 == (flags / 8u8) % 4u8) by (bit_vector);
        if field == 1 {
            AspectRatio::Legacy
        } else if field == 2 {
            AspectRatio::Modern
        } else {
            AspectRatio::Undefined
        }
    }

    /// The value's share of the flags byte: its two bits in place, all others zero.
    pub fn to_flags(&self) -> (r: u8)
        ensures
            r == self.field() * 8,
            AspectRatio::of_flags(r) == *self,
    {
        match self {
            AspectRatio::Undefined => 0,
            AspectRatio::Legacy => 8,
            AspectRatio::Modern => 16,
        }
    }

    /// The name of the value.
    pub fn to_string(&self) -> (r: String)
        ensures
            r@ == self.name(),
    {
        match self {
            AspectRatio::Undefined => text::string_of("None"),
            AspectRatio::Modern => text::string_of("Modern"),
            AspectRatio::Legacy => text::string_of("Legacy"),
        }
    }

    /// The value with the given name; `InvalidAspectRatioValue` where none has it.
    pub fn from_str(name: &str) -> (r: Result<AspectRatio, SauceError>)
        ensures
            match r {
                Ok(value) => AspectRatio::of_name(name@) == Some(value),
                Err(error) => AspectRatio::of_name(name@) is None && error
                    == SauceError::InvalidAspectRatioValue,
            },
    {
        if text::str_eq(name, "None") {
            Ok(AspectRatio::Undefined)
        } else if text::str_eq(name, "Modern") {
            Ok(AspectRatio::Modern)
        } else if text::str_eq(name, "Legacy") {
            Ok(AspectRatio::Legacy)
        } else {
            Err(SauceError::InvalidAspectRatioValue)
        }
    }
}

} // verus!
