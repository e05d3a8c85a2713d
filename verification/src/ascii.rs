//! Named byte values of the ASCII range that the tokenizers and the record codec match on.

use vstd::prelude::*;

verus! {

pub const NULL: u8 = 0x00;
pub const HORIZONTAL_TAB: u8 = 0x09;
pub const LINE_FEED: u8 = 0x0A;
pub const CARRIAGE_RETURN: u8 = 0x0D;
pub const SHIFT_OUT: u8 = 0x0E;
pub const END_OF_FILE: u8 = 0x1A;
pub const ESCAPE: u8 = 0x1B;
pub const SPACE: u8 = 0x20;
pub const NUMBER_SIGN: u8 = 0x23;
pub const ASTERISK: u8 = 0x2A;
pub const PLUS: u8 = 0x2B;
pub const COMMA: u8 = 0x2C;
pub const MINUS: u8 = 0x2D;
pub const PERIOD: u8 = 0x2E;
pub const DIGIT_0: u8 = 0x30;
pub const DIGIT_9: u8 = 0x39;
pub const SEMI_COLON: u8 = 0x3B;
pub const LESS_THAN_SIGN: u8 = 0x3C;
pub const GREATER_THAN_SIGN: u8 = 0x3E;
pub const AT_SIGN: u8 = 0x40;
pub const UPPERCASE_A: u8 = 0x41;
pub const UPPERCASE_B: u8 = 0x42;
pub const UPPERCASE_C: u8 = 0x43;
pub const UPPERCASE_D: u8 = 0x44;
pub const UPPERCASE_E: u8 = 0x45;
pub const UPPERCASE_F: u8 = 0x46;
pub const UPPERCASE_G: u8 = 0x47;
pub const UPPERCASE_H: u8 = 0x48;
pub const UPPERCASE_I: u8 = 0x49;
pub const UPPERCASE_J: u8 = 0x4A;
pub const UPPERCASE_K: u8 = 0x4B;
pub const UPPERCASE_L: u8 = 0x4C;
pub const UPPERCASE_M: u8 = 0x4D;
pub const UPPERCASE_N: u8 = 0x4E;
pub const UPPERCASE_O: u8 = 0x4F;
pub const UPPERCASE_P: u8 = 0x50;
pub const UPPERCASE_Q: u8 = 0x51;
pub const UPPERCASE_R: u8 = 0x52;
pub const UPPERCASE_S: u8 = 0x53;
pub const UPPERCASE_T: u8 = 0x54;
pub const UPPERCASE_U: u8 = 0x55;
pub const UPPERCASE_V: u8 = 0x56;
pub const UPPERCASE_W: u8 = 0x57;
pub const UPPERCASE_X: u8 = 0x58;
pub const UPPERCASE_Y: u8 = 0x59;
pub const UPPERCASE_Z: u8 = 0x5A;
pub const LEFT_SQUARE_BRACKET: u8 = 0x5B;
pub const LOWERCASE_A: u8 = 0x61;
pub const LOWERCASE_B: u8 = 0x62;
pub const LOWERCASE_C: u8 = 0x63;
pub const LOWERCASE_D: u8 = 0x64;
pub const LOWERCASE_E: u8 = 0x65;
pub const LOWERCASE_F: u8 = 0x66;
pub const LOWERCASE_G: u8 = 0x67;
pub const LOWERCASE_H: u8 = 0x68;
pub const LOWERCASE_I: u8 = 0x69;
pub const LOWERCASE_J: u8 = 0x6A;
pub const LOWERCASE_K: u8 = 0x6B;
pub const LOWERCASE_L: u8 = 0x6C;
pub const LOWERCASE_M: u8 = 0x6D;
pub const LOWERCASE_N: u8 = 0x6E;
pub const LOWERCASE_O: u8 = 0x6F;
pub const LOWERCASE_P: u8 = 0x70;
pub const LOWERCASE_Q: u8 = 0x71;
pub const LOWERCASE_R: u8 = 0x72;
pub const LOWERCASE_S: u8 = 0x73;
pub const LOWERCASE_T: u8 = 0x74;
pub const LOWERCASE_U: u8 = 0x75;
pub const LOWERCASE_V: u8 = 0x76;
pub const LOWERCASE_W: u8 = 0x77;
pub const LOWERCASE_X: u8 = 0x78;
pub const LOWERCASE_Y: u8 = 0x79;
pub const LOWERCASE_Z: u8 = 0x7A;
pub const TILDE: u8 = 0x7E;

/// True for the ten ASCII digits.
pub open spec fn is_digit(byte: u8) -> bool {
    DIGIT_0 <= byte <= DIGIT_9
}

/// Tells whether `byte` is one of the ten ASCII digits.
pub fn byte_is_digit(byte: u8) -> (r: bool)
    ensures
        r == is_digit(byte),
{
    DIGIT_0 <= byte && byte <= DIGIT_9
}

} // verus!
