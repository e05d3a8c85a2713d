//! The name of the font that the art was drawn for.

use vstd::prelude::*;
use vstd::string::*;
use crate::ascii;
use crate::cp437::{decode_bytes, encodable, encode_chars, slices_equal, CP437Error, CP437String};
use crate::text;

verus! {

/// The number of fonts with a fixed name.
pub const FIXED_FONTS: usize = 126;

/// The fixed font names, in the order of the variants of [`InfoS`].
pub const FIXED_NAMES: [&'static str; 126] = [
    "IBM VGA",
    "IBM VGA50",
    "IBM VGA25G",
    "IBM EGA",
    "IBM EGA43",
    "IBM VGA 437",
    "IBM VGA50 437",
    "IBM VGA25G 437",
    "IBM EGA 437",
    "IBM EGA43 437",
    "IBM VGA 720",
    "IBM VGA50 720",
    "IBM VGA25G 720",
    "IBM EGA 720",
    "IBM EGA43 720",
    "IBM VGA 737",
    "IBM VGA50 737",
    "IBM VGA25G 737",
    "IBM EGA 737",
    "IBM EGA43 737",
    "IBM VGA 775",
    "IBM VGA50 775",
    "IBM VGA25G 775",
    "IBM EGA 775",
    "IBM EGA43 775",
    "IBM VGA 819",
    "IBM VGA50 819",
    "IBM VGA25G 819",
    "IBM EGA 819",
    "IBM EGA43 819",
    "IBM VGA 850",
    "IBM VGA50 850",
    "IBM VGA25G 850",
    "IBM EGA 850",
    "IBM EGA43 850",
    "IBM VGA 852",
    "IBM VGA50 852",
    "IBM VGA25G 852",
    "IBM EGA 852",
    "IBM EGA43 852",
    "IBM VGA 855",
    "IBM VGA50 855",
    "IBM VGA25G 855",
    "IBM EGA 855",
    "IBM EGA43 855",
    "IBM VGA 857",
    "IBM VGA50 857",
    "IBM VGA25G 857",
    "IBM EGA 857",
    "IBM EGA43 857",
    "IBM VGA 858",
    "IBM VGA50 858",
    "IBM VGA25G 858",
    "IBM EGA 858",
    "IBM EGA43 858",
    "IBM VGA 860",
    "IBM VGA50 860",
    "IBM VGA25G 860",
    "IBM EGA 860",
    "IBM EGA43 860",
    "IBM VGA 861",
    "IBM VGA50 861",
    "IBM VGA25G 861",
    "IBM EGA 861",
    "IBM EGA43 861",
    "IBM VGA 862",
    "IBM VGA50 862",
    "IBM VGA25G 862",
    "IBM EGA 862",
    "IBM EGA43 862",
    "IBM VGA 863",
    "IBM VGA50 863",
    "IBM VGA25G 863",
    "IBM EGA 863",
    "IBM EGA43 863",
    "IBM VGA 864",
    "IBM VGA50 864",
    "IBM VGA25G 864",
    "IBM EGA 864",
    "IBM EGA43 864",
    "IBM VGA 865",
    "IBM VGA50 865",
    "IBM VGA25G 865",
    "IBM EGA 865",
    "IBM EGA43 865",
    "IBM VGA 866",
    "IBM VGA50 866",
    "IBM VGA25G 866",
    "IBM EGA 866",
    "IBM EGA43 866",
    "IBM VGA 869",
    "IBM VGA50 869",
    "IBM VGA25G 869",
    "IBM EGA 869",
    "IBM EGA43 869",
    "IBM VGA 872",
    "IBM VGA50 872",
    "IBM VGA25G 872",
    "IBM EGA 872",
    "IBM EGA43 872",
    "IBM VGA KAM",
    "IBM VGA50 KAM",
    "IBM VGA25G KAM",
    "IBM EGA KAM",
    "IBM EGA43 KAM",
    "IBM VGA MAZ",
    "IBM VGA50 MAZ",
    "IBM VGA25G MAZ",
    "IBM EGA MAZ",
    "IBM EGA43 MAZ",
    "IBM VGA MIK",
    "IBM VGA50 MIK",
    "IBM VGA25G MIK",
    "IBM EGA MIK",
    "IBM EGA43 MIK",
    "Amiga Topaz 1",
    "Amiga Topaz 1+",
    "Amiga Topaz 2",
    "Amiga Topaz 2+",
    "Amiga P0T-NOoDLE",
    "Amiga MicroKnight",
    "Amiga MicroKnight+",
    "Amiga mOsOul",
    "C64 PETSCII unshifted",
    "C64 PETSCII shifted",
    "Atari ATASCII",
];

/// The font of a record: one of the fonts with a fixed name, or any other name. The view is
/// the name as it stands in a record, without the NUL bytes that fill the field up.
#[derive(Clone, Debug, PartialEq, Eq)]
pub enum InfoS {
    IbmVga,
    IbmVga50,
    IbmVga25g,
    IbmEga,
    IbmEga43,
    IbmVga437,
    IbmVga50437,
    IbmVga25g437,
    IbmEga437,
    IbmEga43437,
    IbmVga720,
    IbmVga50720,
    IbmVga25g720,
    IbmEga720,
    IbmEga43720,
    IbmVga737,
    IbmVga50737,
    IbmVga25g737,
    IbmEga737,
    IbmEga43737,
    IbmVga775,
    IbmVga50775,
    IbmVga25g775,
    IbmEga775,
    IbmEga43775,
    IbmVga819,
    IbmVga50819,
    IbmVga25g819,
    IbmEga819,
    IbmEga43819,
    IbmVga850,
    IbmVga50850,
    IbmVga25g850,
    IbmEga850,
    IbmEga43850,
    IbmVga852,
    IbmVga50852,
    IbmVga25g852,
    IbmEga852,
    IbmEga43852,
    IbmVga855,
    IbmVga50855,
    IbmVga25g855,
    IbmEga855,
    IbmEga43855,
    IbmVga857,
    IbmVga50857,
    IbmVga25g857,
    IbmEga857,
    IbmEga43857,
    IbmVga858,
    IbmVga50858,
    IbmVga25g858,
    IbmEga858,
    IbmEga43858,
    IbmVga860,
    IbmVga50860,
    IbmVga25g860,
    IbmEga860,
    IbmEga43860,
    IbmVga861,
    IbmVga50861,
    IbmVga25g861,
    IbmEga861,
    IbmEga43861,
    IbmVga862,
    IbmVga50862,
    IbmVga25g862,
    IbmEga862,
    IbmEga43862,
    IbmVga863,
    IbmVga50863,
    IbmVga25g863,
    IbmEga863,
    IbmEga43863,
    IbmVga864,
    IbmVga50864,
    IbmVga25g864,
    IbmEga864,
    IbmEga43864,
    IbmVga865,
    IbmVga50865,
    IbmVga25g865,
    IbmEga865,
    IbmEga43865,
    IbmVga866,
    IbmVga50866,
    IbmVga25g866,
    IbmEga866,
    IbmEga43866,
    IbmVga869,
    IbmVga50869,
    IbmVga25g869,
    IbmEga869,
    IbmEga43869,
    IbmVga872,
    IbmVga50872,
    IbmVga25g872,
    IbmEga872,
    IbmEga43872,
    IbmVgaKam,
    IbmVga50Kam,
    IbmVga25gKam,
    IbmEgaKam,
    IbmEga43Kam,
    IbmVgaMaz,
    IbmVga50Maz,
    IbmVga25gMaz,
    IbmEgaMaz,
    IbmEga43Maz,
    IbmVgaMik,
    IbmVga50Mik,
    IbmVga25gMik,
    IbmEgaMik,
    IbmEga43Mik,
    AmigaTopaz1,
    AmigaTopaz1Plus,
    AmigaTopaz2,
    AmigaTopaz2Plus,
    AmigaP0tNoodle,
    AmigaMicroKnight,
    AmigaMicroKnightPlus,
    AmigaMosoul,
    C64PetsciiUnshifted,
    C64PetsciiShifted,
    AtariAtascii,
    Custom(CP437String),
}

impl View for InfoS {
    type V = Seq<u8>;

    open spec fn view(&self) -> Seq<u8> {
        match self {
            InfoS::Custom(name) => name@,
            _ => fixed_name_bytes(self.index()),
        }
    }
}

impl Default for InfoS {
    fn default() -> (r: Self)
        ensures
            r == InfoS::IbmVga,
    {
        InfoS::IbmVga
    }
}

/// The bytes of the fixed name at `index`.
pub open spec fn fixed_name_bytes(index: int) -> Seq<u8> {
    FIXED_NAMES[index].spec_bytes()
}

/// No fixed name at or above `from` and below `to` has the bytes `name`.
pub open spec fn no_fixed_name_between(name: Seq<u8>, from: int, to: int) -> bool {
    forall|i: int| from <= i < to ==> #[trigger] fixed_name_bytes(i) != name
}

/// No fixed name at or above `from` and below `to` has the characters `name`.
pub open spec fn no_fixed_text_between(name: Seq<char>, from: int, to: int) -> bool {
    forall|i: int| from <= i < to ==> (#[trigger] FIXED_NAMES[i])@ != name
}

impl InfoS {
    /// The place of a fixed font in [`FIXED_NAMES`]; 126 for any other.
    pub open spec fn index(self) -> int {
        match self {
            InfoS::IbmVga => 0,
            InfoS::IbmVga50 => 1,
            InfoS::IbmVga25g => 2,
            InfoS::IbmEga => 3,
            InfoS::IbmEga43 => 4,
            InfoS::IbmVga437 => 5,
            InfoS::IbmVga50437 => 6,
            InfoS::IbmVga25g437 => 7,
            InfoS::IbmEga437 => 8,
            InfoS::IbmEga43437 => 9,
            InfoS::IbmVga720 => 10,
            InfoS::IbmVga50720 => 11,
            InfoS::IbmVga25g720 => 12,
            InfoS::IbmEga720 => 13,
            InfoS::IbmEga43720 => 14,
            InfoS::IbmVga737 => 15,
            InfoS::IbmVga50737 => 16,
            InfoS::IbmVga25g737 => 17,
            InfoS::IbmEga737 => 18,
            InfoS::IbmEga43737 => 19,
            InfoS::IbmVga775 => 20,
            InfoS::IbmVga50775 => 21,
            InfoS::IbmVga25g775 => 22,
            InfoS::IbmEga775 => 23,
            InfoS::IbmEga43775 => 24,
            InfoS::IbmVga819 => 25,
            InfoS::IbmVga50819 => 26,
            InfoS::IbmVga25g819 => 27,
            InfoS::IbmEga819 => 28,
            InfoS::IbmEga43819 => 29,
            InfoS::IbmVga850 => 30,
            InfoS::IbmVga50850 => 31,
            InfoS::IbmVga25g850 => 32,
            InfoS::IbmEga850 => 33,
            InfoS::IbmEga43850 => 34,
            InfoS::IbmVga852 => 35,
            InfoS::IbmVga50852 => 36,
            InfoS::IbmVga25g852 => 37,
            InfoS::IbmEga852 => 38,
            InfoS::IbmEga43852 => 39,
            InfoS::IbmVga855 => 40,
            InfoS::IbmVga50855 => 41,
            InfoS::IbmVga25g855 => 42,
            InfoS::IbmEga855 => 43,
            InfoS::IbmEga43855 => 44,
            InfoS::IbmVga857 => 45,
            InfoS::IbmVga50857 => 46,
            InfoS::IbmVga25g857 => 47,
            InfoS::IbmEga857 => 48,
            InfoS::IbmEga43857 => 49,
            InfoS::IbmVga858 => 50,
            InfoS::IbmVga50858 => 51,
            InfoS::IbmVga25g858 => 52,
            InfoS::IbmEga858 => 53,
            InfoS::IbmEga43858 => 54,
            InfoS::IbmVga860 => 55,
            InfoS::IbmVga50860 => 56,
            InfoS::IbmVga25g860 => 57,
            InfoS::IbmEga860 => 58,
            InfoS::IbmEga43860 => 59,
            InfoS::IbmVga861 => 60,
            InfoS::IbmVga50861 => 61,
            InfoS::IbmVga25g861 => 62,
            InfoS::IbmEga861 => 63,
            InfoS::IbmEga43861 => 64,
            InfoS::IbmVga862 => 65,
            InfoS::IbmVga50862 => 66,
            InfoS::IbmVga25g862 => 67,
            InfoS::IbmEga862 => 68,
            InfoS::IbmEga43862 => 69,
            InfoS::IbmVga863 => 70,
            InfoS::IbmVga50863 => 71,
            InfoS::IbmVga25g863 => 72,
            InfoS::IbmEga863 => 73,
            InfoS::IbmEga43863 => 74,
            InfoS::IbmVga864 => 75,
            InfoS::IbmVga50864 => 76,
            InfoS::IbmVga25g864 => 77,
            InfoS::IbmEga864 => 78,
            InfoS::IbmEga43864 => 79,
            InfoS::IbmVga865 => 80,
            InfoS::IbmVga50865 => 81,
            InfoS::IbmVga25g865 => 82,
            InfoS::IbmEga865 => 83,
            InfoS::IbmEga43865 => 84,
            InfoS::IbmVga866 => 85,
            InfoS::IbmVga50866 => 86,
            InfoS::IbmVga25g866 => 87,
            InfoS::IbmEga866 => 88,
            InfoS::IbmEga43866 => 89,
            InfoS::IbmVga869 => 90,
            InfoS::IbmVga50869 => 91,
            InfoS::IbmVga25g869 => 92,
            InfoS::IbmEga869 => 93,
            InfoS::IbmEga43869 => 94,
            InfoS::IbmVga872 => 95,
            InfoS::IbmVga50872 => 96,
            InfoS::IbmVga25g872 => 97,
            InfoS::IbmEga872 => 98,
            InfoS::IbmEga43872 => 99,
            InfoS::IbmVgaKam => 100,
            InfoS::IbmVga50Kam => 101,
            InfoS::IbmVga25gKam => 102,
            InfoS::IbmEgaKam => 103,
            InfoS::IbmEga43Kam => 104,
            InfoS::IbmVgaMaz => 105,
            InfoS::IbmVga50Maz => 106,
            InfoS::IbmVga25gMaz => 107,
            InfoS::IbmEgaMaz => 108,
            InfoS::IbmEga43Maz => 109,
            InfoS::IbmVgaMik => 110,
            InfoS::IbmVga50Mik => 111,
            InfoS::IbmVga25gMik => 112,
            InfoS::IbmEgaMik => 113,
            InfoS::IbmEga43Mik => 114,
            InfoS::AmigaTopaz1 => 115,
            InfoS::AmigaTopaz1Plus => 116,
            InfoS::AmigaTopaz2 => 117,
            InfoS::AmigaTopaz2Plus => 118,
            InfoS::AmigaP0tNoodle => 119,
            InfoS::AmigaMicroKnight => 120,
            InfoS::AmigaMicroKnightPlus => 121,
            InfoS::AmigaMosoul => 122,
            InfoS::C64PetsciiUnshifted => 123,
            InfoS::C64PetsciiShifted => 124,
            InfoS::AtariAtascii => 125,
            InfoS::Custom(_) => 126,
        }
    }

    /// The font is the one that its name is read as: the first fixed font of that name, or a
    /// custom font whose name no fixed font has.
    pub open spec fn first_of_its_name(self) -> bool {
        if self is Custom {
            no_fixed_name_between(self@, 0, 126)
        } else {
            no_fixed_name_between(self@, 0, self.index())
        }
    }

    /// The name in characters.
    pub open spec fn text(self) -> Seq<char> {
        match self {
            InfoS::Custom(name) => decode_bytes(name@),
            _ => FIXED_NAMES[self.index()]@,
        }
    }

    /// The place of a fixed font in [`FIXED_NAMES`]; 126 for any other.
    pub fn position(&self) -> (r: usize)
        ensures
            r == self.index(),
            r <= 126,
            r == 126 <==> self is Custom,
    {
        match self {
            InfoS::IbmVga => 0,
            InfoS::IbmVga50 => 1,
            InfoS::IbmVga25g => 2,
            InfoS::IbmEga => 3,
            InfoS::IbmEga43 => 4,
            InfoS::IbmVga437 => 5,
            InfoS::IbmVga50437 => 6,
            InfoS::IbmVga25g437 => 7,
            InfoS::IbmEga437 => 8,
            InfoS::IbmEga43437 => 9,
            InfoS::IbmVga720 => 10,
            InfoS::IbmVga50720 => 11,
            InfoS::IbmVga25g720 => 12,
            InfoS::IbmEga720 => 13,
            InfoS::IbmEga43720 => 14,
            InfoS::IbmVga737 => 15,
            InfoS::IbmVga50737 => 16,
            InfoS::IbmVga25g737 => 17,
            InfoS::IbmEga737 => 18,
            InfoS::IbmEga43737 => 19,
            InfoS::IbmVga775 => 20,
            InfoS::IbmVga50775 => 21,
            InfoS::IbmVga25g775 => 22,
            InfoS::IbmEga775 => 23,
            InfoS::IbmEga43775 => 24,
            InfoS::IbmVga819 => 25,
            InfoS::IbmVga50819 => 26,
            InfoS::IbmVga25g819 => 27,
            InfoS::IbmEga819 => 28,
            InfoS::IbmEga43819 => 29,
            InfoS::IbmVga850 => 30,
            InfoS::IbmVga50850 => 31,
            InfoS::IbmVga25g850 => 32,
            InfoS::IbmEga850 => 33,
            InfoS::IbmEga43850 => 34,
            InfoS::IbmVga852 => 35,
            InfoS::IbmVga50852 => 36,
            InfoS::IbmVga25g852 => 37,
            InfoS::IbmEga852 => 38,
            InfoS::IbmEga43852 => 39,
            InfoS::IbmVga855 => 40,
            InfoS::IbmVga50855 => 41,
            InfoS::IbmVga25g855 => 42,
            InfoS::IbmEga855 => 43,
            InfoS::IbmEga43855 => 44,
            InfoS::IbmVga857 => 45,
            InfoS::IbmVga50857 => 46,
            InfoS::IbmVga25g857 => 47,
            InfoS::IbmEga857 => 48,
            InfoS::IbmEga43857 => 49,
            InfoS::IbmVga858 => 50,
            InfoS::IbmVga50858 => 51,
            InfoS::IbmVga25g858 => 52,
            InfoS::IbmEga858 => 53,
            InfoS::IbmEga43858 => 54,
            InfoS::IbmVga860 => 55,
            InfoS::IbmVga50860 => 56,
            InfoS::IbmVga25g860 => 57,
            InfoS::IbmEga860 => 58,
            InfoS::IbmEga43860 => 59,
            InfoS::IbmVga861 => 60,
            InfoS::IbmVga50861 => 61,
            InfoS::IbmVga25g861 => 62,
            InfoS::IbmEga861 => 63,
            InfoS::IbmEga43861 => 64,
            InfoS::IbmVga862 => 65,
            InfoS::IbmVga50862 => 66,
            InfoS::IbmVga25g862 => 67,
            InfoS::IbmEga862 => 68,
            InfoS::IbmEga43862 => 69,
            InfoS::IbmVga863 => 70,
            InfoS::IbmVga50863 => 71,
            InfoS::IbmVga25g863 => 72,
            InfoS::IbmEga863 => 73,
            InfoS::IbmEga43863 => 74,
            InfoS::IbmVga864 => 75,
            InfoS::IbmVga50864 => 76,
            InfoS::IbmVga25g864 => 77,
            InfoS::IbmEga864 => 78,
            InfoS::IbmEga43864 => 79,
            InfoS::IbmVga865 => 80,
            InfoS::IbmVga50865 => 81,
            InfoS::IbmVga25g865 => 82,
            InfoS::IbmEga865 => 83,
            InfoS::IbmEga43865 => 84,
            InfoS::IbmVga866 => 85,
            InfoS::IbmVga50866 => 86,
            InfoS::IbmVga25g866 => 87,
            InfoS::IbmEga866 => 88,
            InfoS::IbmEga43866 => 89,
            InfoS::IbmVga869 => 90,
            InfoS::IbmVga50869 => 91,
            InfoS::IbmVga25g869 => 92,
            InfoS::IbmEga869 => 93,
            InfoS::IbmEga43869 => 94,
            InfoS::IbmVga872 => 95,
            InfoS::IbmVga50872 => 96,
            InfoS::IbmVga25g872 => 97,
            InfoS::IbmEga872 => 98,
            InfoS::IbmEga43872 => 99,
            InfoS::IbmVgaKam => 100,
            InfoS::IbmVga50Kam => 101,
            InfoS::IbmVga25gKam => 102,
            InfoS::IbmEgaKam => 103,
            InfoS::IbmEga43Kam => 104,
            InfoS::IbmVgaMaz => 105,
            InfoS::IbmVga50Maz => 106,
            InfoS::IbmVga25gMaz => 107,
            InfoS::IbmEgaMaz => 108,
            InfoS::IbmEga43Maz => 109,
            InfoS::IbmVgaMik => 110,
            InfoS::IbmVga50Mik => 111,
            InfoS::IbmVga25gMik => 112,
            InfoS::IbmEgaMik => 113,
            InfoS::IbmEga43Mik => 114,
            InfoS::AmigaTopaz1 => 115,
            InfoS::AmigaTopaz1Plus => 116,
            InfoS::AmigaTopaz2 => 117,
            InfoS::AmigaTopaz2Plus => 118,
            InfoS::AmigaP0tNoodle => 119,
            InfoS::AmigaMicroKnight => 120,
            InfoS::AmigaMicroKnightPlus => 121,
            InfoS::AmigaMosoul => 122,
            InfoS::C64PetsciiUnshifted => 123,
            InfoS::C64PetsciiShifted => 124,
            InfoS::AtariAtascii => 125,
            InfoS::Custom(_) => 126,
        }
    }

    /// The fixed font at place `index` of [`FIXED_NAMES`].
    pub fn fixed(index: usize) -> (r: InfoS)
        requires
            index < 126,
        ensures
            r.index() == index,
    {
        if index == 0 {
            InfoS::IbmVga
        }         else if index == 1 {
            InfoS::IbmVga50
        }         else if index == 2 {
            InfoS::IbmVga25g
        }         else if index == 3 {
            InfoS::IbmEga
        }         else if index == 4 {
            InfoS::IbmEga43
        }         else if index == 5 {
            InfoS::IbmVga437
        }         else if index == 6 {
            InfoS::IbmVga50437
        }         else if index == 7 {
            InfoS::IbmVga25g437
        }         else if index == 8 {
            InfoS::IbmEga437
        }         else if index == 9 {
            InfoS::IbmEga43437
        }         else if index == 10 {
            InfoS::IbmVga720
        }         else if index == 11 {
            InfoS::IbmVga50720
        }         else if index == 12 {
            InfoS::IbmVga25g720
        }         else if index == 13 {
            InfoS::IbmEga720
        }         else if index == 14 {
            InfoS::IbmEga43720
        }         else if index == 15 {
            InfoS::IbmVga737
        }         else if index == 16 {
            InfoS::IbmVga50737
        }         else if index == 17 {
            InfoS::IbmVga25g737
        }         else if index == 18 {
            InfoS::IbmEga737
        }         else if index == 19 {
            InfoS::IbmEga43737
        }         else if index == 20 {
            InfoS::IbmVga775
        }         else if index == 21 {
            InfoS::IbmVga50775
        }         else if index == 22 {
            InfoS::IbmVga25g775
        }         else if index == 23 {
            InfoS::IbmEga775
        }         else if index == 24 {
            InfoS::IbmEga43775
        }         else if index == 25 {
            InfoS::IbmVga819
        }         else if index == 26 {
            InfoS::IbmVga50819
        }         else if index == 27 {
            InfoS::IbmVga25g819
        }         else if index == 28 {
            InfoS::IbmEga819
        }         else if index == 29 {
            InfoS::IbmEga43819
        }         else if index == 30 {
            InfoS::IbmVga850
        }         else if index == 31 {
            InfoS::IbmVga50850
        }         else if index == 32 {
            InfoS::IbmVga25g850
        }         else if index == 33 {
            InfoS::IbmEga850
        }         else if index == 34 {
            InfoS::IbmEga43850
        }         else if index == 35 {
            InfoS::IbmVga852
        }         else if index == 36 {
            InfoS::IbmVga50852
        }         else if index == 37 {
            InfoS::IbmVga25g852
        }         else if index == 38 {
            InfoS::IbmEga852
        }         else if index == 39 {
            InfoS::IbmEga43852
        }         else if index == 40 {
            InfoS::IbmVga855
        }         else if index == 41 {
            InfoS::IbmVga50855
        }         else if index == 42 {
            InfoS::IbmVga25g855
        }         else if index == 43 {
            InfoS::IbmEga855
        }         else if index == 44 {
            InfoS::IbmEga43855
        }         else if index == 45 {
            InfoS::IbmVga857
        }         else if index == 46 {
            InfoS::IbmVga50857
        }         else if index == 47 {
            InfoS::IbmVga25g857
        }         else if index == 48 {
            InfoS::IbmEga857
        }         else if index == 49 {
            InfoS::IbmEga43857
        }         else if index == 50 {
            InfoS::IbmVga858
        }         else if index == 51 {
            InfoS::IbmVga50858
        }         else if index == 52 {
            InfoS::IbmVga25g858
        }         else if index == 53 {
            InfoS::IbmEga858
        }         else if index == 54 {
            InfoS::IbmEga43858
        }         else if index == 55 {
            InfoS::IbmVga860
        }         else if index == 56 {
            InfoS::IbmVga50860
        }         else if index == 57 {
            InfoS::IbmVga25g860
        }         else if index == 58 {
            InfoS::IbmEga860
        }         else if index == 59 {
            InfoS::IbmEga43860
        }         else if index == 60 {
            InfoS::IbmVga861
        }         else if index == 61 {
            InfoS::IbmVga50861
        }         else if index == 62 {
            InfoS::IbmVga25g861
        }         else if index == 63 {
            InfoS::IbmEga861
        }         else if index == 64 {
            InfoS::IbmEga43861
        }         else if index == 65 {
            InfoS::IbmVga862
        }         else if index == 66 {
            InfoS::IbmVga50862
        }         else if index == 67 {
            InfoS::IbmVga25g862
        }         else if index == 68 {
            InfoS::IbmEga862
        }         else if index == 69 {
            InfoS::IbmEga43862
        }         else if index == 70 {
            InfoS::IbmVga863
        }         else if index == 71 {
            InfoS::IbmVga50863
        }         else if index == 72 {
            InfoS::IbmVga25g863
        }         else if index == 73 {
            InfoS::IbmEga863
        }         else if index == 74 {
            InfoS::IbmEga43863
        }         else if index == 75 {
            InfoS::IbmVga864
        }         else if index == 76 {
            InfoS::IbmVga50864
        }         else if index == 77 {
            InfoS::IbmVga25g864
        }         else if index == 78 {
            InfoS::IbmEga864
        }         else if index == 79 {
            InfoS::IbmEga43864
        }         else if index == 80 {
            InfoS::IbmVga865
        }         else if index == 81 {
            InfoS::IbmVga50865
        }         else if index == 82 {
            InfoS::IbmVga25g865
        }         else if index == 83 {
            InfoS::IbmEga865
        }         else if index == 84 {
            InfoS::IbmEga43865
        }         else if index == 85 {
            InfoS::IbmVga866
        }         else if index == 86 {
            InfoS::IbmVga50866
        }         else if index == 87 {
            InfoS::IbmVga25g866
        }         else if index == 88 {
            InfoS::IbmEga866
        }         else if index == 89 {
            InfoS::IbmEga43866
        }         else if index == 90 {
            InfoS::IbmVga869
        }         else if index == 91 {
            InfoS::IbmVga50869
        }         else if index == 92 {
            InfoS::IbmVga25g869
        }         else if index == 93 {
            InfoS::IbmEga869
        }         else if index == 94 {
            InfoS::IbmEga43869
        }         else if index == 95 {
            InfoS::IbmVga872
        }         else if index == 96 {
            InfoS::IbmVga50872
        }         else if index == 97 {
            InfoS::IbmVga25g872
        }         else if index == 98 {
            InfoS::IbmEga872
        }         else if index == 99 {
            InfoS::IbmEga43872
        }         else if index == 100 {
            InfoS::IbmVgaKam
        }         else if index == 101 {
            InfoS::IbmVga50Kam
        }         else if index == 102 {
            InfoS::IbmVga25gKam
        }         else if index == 103 {
            InfoS::IbmEgaKam
        }         else if index == 104 {
            InfoS::IbmEga43Kam
        }         else if index == 105 {
            InfoS::IbmVgaMaz
        }         else if index == 106 {
            InfoS::IbmVga50Maz
        }         else if index == 107 {
            InfoS::IbmVga25gMaz
        }         else if index == 108 {
            InfoS::IbmEgaMaz
        }         else if index == 109 {
            InfoS::IbmEga43Maz
        }         else if index == 110 {
            InfoS::IbmVgaMik
        }         else if index == 111 {
            InfoS::IbmVga50Mik
        }         else if index == 112 {
            InfoS::IbmVga25gMik
        }         else if index == 113 {
            InfoS::IbmEgaMik
        }         else if index == 114 {
            InfoS::IbmEga43Mik
        }         else if index == 115 {
            InfoS::AmigaTopaz1
        }         else if index == 116 {
            InfoS::AmigaTopaz1Plus
        }         else if index == 117 {
            InfoS::AmigaTopaz2
        }         else if index == 118 {
            InfoS::AmigaTopaz2Plus
        }         else if index == 119 {
            InfoS::AmigaP0tNoodle
        }         else if index == 120 {
            InfoS::AmigaMicroKnight
        }         else if index == 121 {
            InfoS::AmigaMicroKnightPlus
        }         else if index == 122 {
            InfoS::AmigaMosoul
        }         else if index == 123 {
            InfoS::C64PetsciiUnshifted
        }         else if index == 124 {
            InfoS::C64PetsciiShifted
        } else {
            InfoS::AtariAtascii
        }
    }

    /// The name as it stands in a record, without the bytes that fill the field up.
    pub fn name_bytes(&self) -> (r: &[u8])
        ensures
            r@ == self@,
    {
        match self {
            InfoS::Custom(name) => name.as_slice(),
            _ => FIXED_NAMES[self.position()].as_bytes(),
        }
    }

    /// The font that a record names with the bytes `name`: the first fixed font of that
    /// name, or a custom font where no fixed font has it.
    pub fn from_name(name: &[u8]) -> (r: InfoS)
        ensures
            r@ == name@,
            r is Custom <==> no_fixed_name_between(name@, 0, 126),
            r.first_of_its_name(),
    {
        let mut i: usize = 0;
        while i < 126
            invariant
                i <= 126,
                no_fixed_name_between(name@, 0, i as int),
            decreases 126 - i,
        {
            if slices_equal(name, FIXED_NAMES[i].as_bytes()) {
                let font = InfoS::fixed(i);
                assert(fixed_name_bytes(i as int) == name@);
                return font;
            }
            i += 1;
        }
        InfoS::Custom(CP437String::from_bytes(name))
    }

    /// The font named by a field of a record: `field` without the NUL bytes at its end.
    pub fn from_field(field: &[u8]) -> (r: InfoS)
        ensures
            r@ == crate::cp437::strip_trailing(field@, ascii::NULL),
            r is Custom <==> no_fixed_name_between(r@, 0, 126),
            r.first_of_its_name(),
    {
        let name = CP437String::from_bytes(field).strip_trailing_nulls();
        InfoS::from_name(name.as_slice())
    }

    /// The name in characters.
    pub fn to_string(&self) -> (r: String)
        ensures
            r@ == self.text(),
    {
        match self {
            InfoS::Custom(name) => name.to_string(),
            _ => text::string_of(FIXED_NAMES[self.position()]),
        }
    }

    /// The font with the name `s`: the first fixed font of that name; where no fixed font
    /// has it, a custom font of that name, or an error where a character of it has no glyph.
    pub fn from_str(s: &str) -> (r: Result<InfoS, CP437Error>)
        ensures
            match r {
                Ok(font) => if font is Custom {
                    no_fixed_text_between(s@, 0, 126) && encodable(s@) && font@ == encode_chars(
                        s@,
                    )
                } else {
                    font.text() == s@ && no_fixed_text_between(s@, 0, font.index())
                },
                Err(_) => no_fixed_text_between(s@, 0, 126) && !encodable(s@),
            },
    {
        let mut i: usize = 0;
        while i < 126
            invariant
                i <= 126,
                no_fixed_text_between(s@, 0, i as int),
            decreases 126 - i,
        {
            if text::str_eq(s, FIXED_NAMES[i]) {
                let font = InfoS::fixed(i);
                return Ok(font);
            }
            i += 1;
        }
        match CP437String::from_str(s) {
            Ok(name) => Ok(InfoS::Custom(name)),
            Err(error) => Err(error),
        }
    }

    /// A copy of the font.
    pub fn duplicate(&self) -> (r: InfoS)
        ensures
            r@ == self@,
            r.index() == self.index(),
    {
        match self {
            InfoS::Custom(name) => InfoS::Custom(name.duplicate()),
            _ => InfoS::fixed(self.position()),
        }
    }
}

} // verus!
