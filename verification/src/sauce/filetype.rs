//! The kinds of file within each category of a metadata record.

use vstd::prelude::*;
use crate::sauce::datatype::DataType;
use crate::sauce::sauce_error::SauceError;
use crate::text;

verus! {

/// The kind of a file. Which kinds a record may name depends on its [`DataType`].
#[derive(Clone, Copy, Debug, PartialEq, Eq, Structural)]
pub enum FileType {
    Undefined,
    Ascii,
    Ansi,
    Ansimation,
    RipScript,
    PcBoard,
    Avatar,
    Html,
    Source,
    TundraDraw,
    Gif,
    Pcx,
    LbmOrIff,
    Tga,
    Fli,
    Flc,
    Bmp,
    Gl,
    Dl,
    WpgBitmap,
    Png,
    Jpg,
    Mpg,
    Avi,
    Dxf,
    Dwg,
    WpgVector,
    Studio3ds,
    Mod,
    Renaissance669,
    Stm,
    S3m,
    Mtm,
    Far,
    Ult,
    Amf,
    Dmf,
    Okt,
    Rol,
    Cmf,
    Mid,
    Sadt,
    Voc,
    Wav,
    Smp8,
    Smp8s,
    Smp16,
    Smp16s,
    Patch8,
    Patch16,
    Xm,
    Hsc,
    It,
    Variable(u8),
    Xbin,
    Zip,
    Arj,
    Lzh,
    Arc,
    Tar,
    Zoo,
    Rar,
    Uc2,
    Pak,
    Sqz,
}

impl Default for FileType {
    fn default() -> (r: Self)
        ensures
            r == FileType::Undefined,
    {
        FileType::Undefined
    }
}

impl FileType {
    /// The byte that stands for the kind in a record.
    pub open spec fn code(self) -> u8 {
        match self {
            FileType::Undefined => 0,
            FileType::Ascii => 0,
            FileType::Ansi => 1,
            FileType::Ansimation => 2,
            FileType::RipScript => 3,
            FileType::PcBoard => 4,
            FileType::Avatar => 5,
            FileType::Html => 6,
            FileType::Source => 7,
            FileType::TundraDraw => 8,
            FileType::Gif => 2,
            FileType::Pcx => 1,
            FileType::LbmOrIff => 0,
            FileType::Tga => 3,
            FileType::Fli => 4,
            FileType::Flc => 5,
            FileType::Bmp => 6,
            FileType::Gl => 7,
            FileType::Dl => 8,
            FileType::WpgBitmap => 9,
            FileType::Png => 10,
            FileType::Jpg => 11,
            FileType::Mpg => 12,
            FileType::Avi => 13,
            FileType::Dxf => 0,
            FileType::Dwg => 1,
            FileType::WpgVector => 2,
            FileType::Studio3ds => 3,
            FileType::Mod => 0,
            FileType::Renaissance669 => 1,
            FileType::Stm => 2,
            FileType::S3m => 3,
            FileType::Mtm => 4,
            FileType::Far => 5,
            FileType::Ult => 6,
            FileType::Amf => 7,
            FileType::Dmf => 8,
            FileType::Okt => 9,
            FileType::Rol => 10,
            FileType::Cmf => 11,
            FileType::Mid => 12,
            FileType::Sadt => 13,
            FileType::Voc => 14,
            FileType::Wav => 15,
            FileType::Smp8 => 16,
            FileType::Smp8s => 17,
            FileType::Smp16 => 18,
            FileType::Smp16s => 19,
            FileType::Patch8 => 20,
            FileType::Patch16 => 21,
            FileType::Xm => 22,
            FileType::Hsc => 23,
            FileType::It => 24,
            FileType::Variable(value) => value,
            FileType::Xbin => 0,
            FileType::Zip => 0,
            FileType::Arj => 1,
            FileType::Lzh => 2,
            FileType::Arc => 3,
            FileType::Tar => 4,
            FileType::Zoo => 5,
            FileType::Rar => 6,
            FileType::Uc2 => 7,
            FileType::Pak => 8,
            FileType::Sqz => 9,
        }
    }

    /// The byte that stands for the kind in a record.
    pub fn to_byte(&self) -> (r: u8)
        ensures
            r == self.code(),
    {
        match self {
            FileType::Undefined => 0,
            FileType::Ascii => 0,
            FileType::Ansi => 1,
            FileType::Ansimation => 2,
            FileType::RipScript => 3,
            FileType::PcBoard => 4,
            FileType::Avatar => 5,
            FileType::Html => 6,
            FileType::Source => 7,
            FileType::TundraDraw => 8,
            FileType::Gif => 2,
            FileType::Pcx => 1,
            FileType::LbmOrIff => 0,
            FileType::Tga => 3,
            FileType::Fli => 4,
            FileType::Flc => 5,
            FileType::Bmp => 6,
            FileType::Gl => 7,
            FileType::Dl => 8,
            FileType::WpgBitmap => 9,
            FileType::Png => 10,
            FileType::Jpg => 11,
            FileType::Mpg => 12,
            FileType::Avi => 13,
            FileType::Dxf => 0,
            FileType::Dwg => 1,
            FileType::WpgVector => 2,
            FileType::Studio3ds => 3,
            FileType::Mod => 0,
            FileType::Renaissance669 => 1,
            FileType::Stm => 2,
            FileType::S3m => 3,
            FileType::Mtm => 4,
            FileType::Far => 5,
            FileType::Ult => 6,
            FileType::Amf => 7,
            FileType::Dmf => 8,
            FileType::Okt => 9,
            FileType::Rol => 10,
            FileType::Cmf => 11,
            FileType::Mid => 12,
            FileType::Sadt => 13,
            FileType::Voc => 14,
            FileType::Wav => 15,
            FileType::Smp8 => 16,
            FileType::Smp8s => 17,
            FileType::Smp16 => 18,
            FileType::Smp16s => 19,
            FileType::Patch8 => 20,
            FileType::Patch16 => 21,
            FileType::Xm => 22,
            FileType::Hsc => 23,
            FileType::It => 24,
            FileType::Variable(value) => *value,
            FileType::Xbin => 0,
            FileType::Zip => 0,
            FileType::Arj => 1,
            FileType::Lzh => 2,
            FileType::Arc => 3,
            FileType::Tar => 4,
            FileType::Zoo => 5,
            FileType::Rar => 6,
            FileType::Uc2 => 7,
            FileType::Pak => 8,
            FileType::Sqz => 9,
        }
    }

    /// The name of the kind. A `Variable` kind is named `Variable(n)` with its number in
    /// decimal.
    pub open spec fn name(self) -> Seq<char> {
        match self {
            FileType::Undefined => "None"@,
            FileType::Ascii => "ASCII"@,
            FileType::Ansi => "ANSI"@,
            FileType::Ansimation => "ANSImation"@,
            FileType::RipScript => "RIPScript"@,
            FileType::PcBoard => "PCBoard"@,
            FileType::Avatar => "Avatar"@,
            FileType::Html => "HTML"@,
            FileType::Source => "Source"@,
            FileType::TundraDraw => "TundraDraw"@,
            FileType::Gif => "GIF"@,
            FileType::Pcx => "PCX"@,
            FileType::LbmOrIff => "LBM/IFF"@,
            FileType::Tga => "TGA"@,
            FileType::Fli => "FLI"@,
            FileType::Flc => "FLC"@,
            FileType::Bmp => "BMP"@,
            FileType::Gl => "GL"@,
            FileType::Dl => "DL"@,
            FileType::WpgBitmap => "WPG Bitmap"@,
            FileType::Png => "PNG"@,
            FileType::Jpg => "JPG"@,
            FileType::Mpg => "MPG"@,
            FileType::Avi => "AVI"@,
            FileType::Dxf => "DXF"@,
            FileType::Dwg => "DWG"@,
            FileType::WpgVector => "WPG Vector"@,
            FileType::Studio3ds => "3DS"@,
            FileType::Mod => "MOD"@,
            FileType::Renaissance669 => "669"@,
            FileType::Stm => "STM"@,
            FileType::S3m => "S3M"@,
            FileType::Mtm => "MTM"@,
            FileType::Far => "FAR"@,
            FileType::Ult => "ULT"@,
            FileType::Amf => "AMF"@,
            FileType::Dmf => "DMF"@,
            FileType::Okt => "OKT"@,
            FileType::Rol => "ROL"@,
            FileType::Cmf => "CMF"@,
            FileType::Mid => "MID"@,
            FileType::Sadt => "SADT"@,
            FileType::Voc => "VOC"@,
            FileType::Wav => "WAV"@,
            FileType::Smp8 => "SMP8"@,
            FileType::Smp8s => "SMP8S"@,
            FileType::Smp16 => "SMP16"@,
            FileType::Smp16s => "SMP16S"@,
            FileType::Patch8 => "PATCH8"@,
            FileType::Patch16 => "PATCH16"@,
            FileType::Xm => "XM"@,
            FileType::Hsc => "HSC"@,
            FileType::It => "IT"@,
            FileType::Variable(value) => "Variable("@ + text::decimal_digits(value as nat) + ")"@,
            FileType::Xbin => "XBin"@,
            FileType::Zip => "ZIP"@,
            FileType::Arj => "ARJ"@,
            FileType::Lzh => "LZH"@,
            FileType::Arc => "ARC"@,
            FileType::Tar => "TAR"@,
            FileType::Zoo => "ZOO"@,
            FileType::Rar => "RAR"@,
            FileType::Uc2 => "UC2"@,
            FileType::Pak => "PAK"@,
            FileType::Sqz => "SQZ"@,
        }
    }

    /// The name of the kind.
    pub fn to_string(&self) -> (r: String)
        ensures
            r@ == self.name(),
    {
        match self {
            FileType::Undefined => text::string_of("None"),
            FileType::Ascii => text::string_of("ASCII"),
            FileType::Ansi => text::string_of("ANSI"),
            FileType::Ansimation => text::string_of("ANSImation"),
            FileType::RipScript => text::string_of("RIPScript"),
            FileType::PcBoard => text::string_of("PCBoard"),
            FileType::Avatar => text::string_of("Avatar"),
            FileType::Html => text::string_of("HTML"),
            FileType::Source => text::string_of("Source"),
            FileType::TundraDraw => text::string_of("TundraDraw"),
            FileType::Gif => text::string_of("GIF"),
            FileType::Pcx => text::string_of("PCX"),
            FileType::LbmOrIff => text::string_of("LBM/IFF"),
            FileType::Tga => text::string_of("TGA"),
            FileType::Fli => text::string_of("FLI"),
            FileType::Flc => text::string_of("FLC"),
            FileType::Bmp => text::string_of("BMP"),
            FileType::Gl => text::string_of("GL"),
            FileType::Dl => text::string_of("DL"),
            FileType::WpgBitmap => text::string_of("WPG Bitmap"),
            FileType::Png => text::string_of("PNG"),
            FileType::Jpg => text::string_of("JPG"),
            FileType::Mpg => text::string_of("MPG"),
            FileType::Avi => text::string_of("AVI"),
            FileType::Dxf => text::string_of("DXF"),
            FileType::Dwg => text::string_of("DWG"),
            FileType::WpgVector => text::string_of("WPG Vector"),
            FileType::Studio3ds => text::string_of("3DS"),
            FileType::Mod => text::string_of("MOD"),
            FileType::Renaissance669 => text::string_of("669"),
            FileType::Stm => text::string_of("STM"),
            FileType::S3m => text::string_of("S3M"),
            FileType::Mtm => text::string_of("MTM"),
            FileType::Far => text::string_of("FAR"),
            FileType::Ult => text::string_of("ULT"),
            FileType::Amf => text::string_of("AMF"),
            FileType::Dmf => text::string_of("DMF"),
            FileType::Okt => text::string_of("OKT"),
            FileType::Rol => text::string_of("ROL"),
            FileType::Cmf => text::string_of("CMF"),
            FileType::Mid => text::string_of("MID"),
            FileType::Sadt => text::string_of("SADT"),
            FileType::Voc => text::string_of("VOC"),
            FileType::Wav => text::string_of("WAV"),
            FileType::Smp8 => text::string_of("SMP8"),
            FileType::Smp8s => text::string_of("SMP8S"),
            FileType::Smp16 => text::string_of("SMP16"),
            FileType::Smp16s => text::string_of("SMP16S"),
            FileType::Patch8 => text::string_of("PATCH8"),
            FileType::Patch16 => text::string_of("PATCH16"),
            FileType::Xm => text::string_of("XM"),
            FileType::Hsc => text::string_of("HSC"),
            FileType::It => text::string_of("IT"),
            FileType::Variable(value) => {
                let mut out = text::string_of("Variable(");
                let digits = text::decimal_string(*value as usize);
                text::append(&mut out, digits.as_str());
                text::append(&mut out, ")");
                out
            },
            FileType::Xbin => text::string_of("XBin"),
            FileType::Zip => text::string_of("ZIP"),
            FileType::Arj => text::string_of("ARJ"),
            FileType::Lzh => text::string_of("LZH"),
            FileType::Arc => text::string_of("ARC"),
            FileType::Tar => text::string_of("TAR"),
            FileType::Zoo => text::string_of("ZOO"),
            FileType::Rar => text::string_of("RAR"),
            FileType::Uc2 => text::string_of("UC2"),
            FileType::Pak => text::string_of("PAK"),
            FileType::Sqz => text::string_of("SQZ"),
        }
    }

    /// The kind with the given fixed name, if there is one. `Variable` kinds have no fixed
    /// name.
    pub open spec fn of_fixed_name(name: Seq<char>) -> Option<FileType> {
        if name == "None"@ {
            Some(FileType::Undefined)
        }         else if name == "ASCII"@ {
            Some(FileType::Ascii)
        }         else if name == "ANSI"@ {
            Some(FileType::Ansi)
        }         else if name == "ANSImation"@ {
            Some(FileType::Ansimation)
        }         else if name == "RIPScript"@ {
            Some(FileType::RipScript)
        }         else if name == "PCBoard"@ {
            Some(FileType::PcBoard)
        }         else if name == "Avatar"@ {
            Some(FileType::Avatar)
        }         else if name == "HTML"@ {
            Some(FileType::Html)
        }         else if name == "Source"@ {
            Some(FileType::Source)
        }         else if name == "TundraDraw"@ {
            Some(FileType::TundraDraw)
        }         else if name == "GIF"@ {
            Some(FileType::Gif)
        }         else if name == "PCX"@ {
            Some(FileType::Pcx)
        }         else if name == "LBM/IFF"@ {
            Some(FileType::LbmOrIff)
        }         else if name == "TGA"@ {
            Some(FileType::Tga)
        }         else if name == "FLI"@ {
            Some(FileType::Fli)
        }         else if name == "FLC"@ {
            Some(FileType::Flc)
        }         else if name == "BMP"@ {
            Some(FileType::Bmp)
        }         else if name == "GL"@ {
            Some(FileType::Gl)
        }         else if name == "DL"@ {
            Some(FileType::Dl)
        }         else if name == "WPG Bitmap"@ {
            Some(FileType::WpgBitmap)
        }         else if name == "PNG"@ {
            Some(FileType::Png)
        }         else if name == "JPG"@ {
            Some(FileType::Jpg)
        }         else if name == "MPG"@ {
            Some(FileType::Mpg)
        }         else if name == "AVI"@ {
            Some(FileType::Avi)
        }         else if name == "DXF"@ {
            Some(FileType::Dxf)
        }         else if name == "DWG"@ {
            Some(FileType::Dwg)
        }         else if name == "WPG Vector"@ {
            Some(FileType::WpgVector)
        }         else if name == "3DS"@ {
            Some(FileType::Studio3ds)
        }         else if name == "MOD"@ {
            Some(FileType::Mod)
        }         else if name == "669"@ {
            Some(FileType::Renaissance669)
        }         else if name == "STM"@ {
            Some(FileType::Stm)
        }         else if name == "S3M"@ {
            Some(FileType::S3m)
        }         else if name == "MTM"@ {
            Some(FileType::Mtm)
        }         else if name == "FAR"@ {
            Some(FileType::Far)
        }         else if name == "ULT"@ {
            Some(FileType::Ult)
        }         else if name == "AMF"@ {
            Some(FileType::Amf)
        }         else if name == "DMF"@ {
            Some(FileType::Dmf)
        }         else if name == "OKT"@ {
            Some(FileType::Okt)
        }         else if name == "ROL"@ {
            Some(FileType::Rol)
        }         else if name == "CMF"@ {
            Some(FileType::Cmf)
        }         else if name == "MID"@ {
            Some(FileType::Mid)
        }         else if name == "SADT"@ {
            Some(FileType::Sadt)
        }         else if name == "VOC"@ {
            Some(FileType::Voc)
        }         else if name == "WAV"@ {
            Some(FileType::Wav)
        }         else if name == "SMP8"@ {
            Some(FileType::Smp8)
        }         else if name == "SMP8S"@ {
            Some(FileType::Smp8s)
        }         else if name == "SMP16"@ {
            Some(FileType::Smp16)
        }         else if name == "SMP16S"@ {
            Some(FileType::Smp16s)
        }         else if name == "PATCH8"@ {
            Some(FileType::Patch8)
        }         else if name == "PATCH16"@ {
            Some(FileType::Patch16)
        }         else if name == "XM"@ {
            Some(FileType::Xm)
        }         else if name == "HSC"@ {
            Some(FileType::Hsc)
        }         else if name == "IT"@ {
            Some(FileType::It)
        }         else if name == "XBin"@ {
            Some(FileType::Xbin)
        }         else if name == "ZIP"@ {
            Some(FileType::Zip)
        }         else if name == "ARJ"@ {
            Some(FileType::Arj)
        }         else if name == "LZH"@ {
            Some(FileType::Lzh)
        }         else if name == "ARC"@ {
            Some(FileType::Arc)
        }         else if name == "TAR"@ {
            Some(FileType::Tar)
        }         else if name == "ZOO"@ {
            Some(FileType::Zoo)
        }         else if name == "RAR"@ {
            Some(FileType::Rar)
        }         else if name == "UC2"@ {
            Some(FileType::Uc2)
        }         else if name == "PAK"@ {
            Some(FileType::Pak)
        }         else if name == "SQZ"@ {
            Some(FileType::Sqz)
        } else {
            None
        }
    }

    /// The kind with the given fixed name, if there is one.
    pub fn from_fixed_name(name: &str) -> (r: Option<FileType>)
        ensures
            r == FileType::of_fixed_name(name@),
    {
        if text::str_eq(name, "None") {
            Some(FileType::Undefined)
        }         else if text::str_eq(name, "ASCII") {
            Some(FileType::Ascii)
        }         else if text::str_eq(name, "ANSI") {
            Some(FileType::Ansi)
        }         else if text::str_eq(name, "ANSImation") {
            Some(FileType::Ansimation)
        }         else if text::str_eq(name, "RIPScript") {
            Some(FileType::RipScript)
        }         else if text::str_eq(name, "PCBoard") {
            Some(FileType::PcBoard)
        }         else if text::str_eq(name, "Avatar") {
            Some(FileType::Avatar)
        }         else if text::str_eq(name, "HTML") {
            Some(FileType::Html)
        }         else if text::str_eq(name, "Source") {
            Some(FileType::Source)
        }         else if text::str_eq(name, "TundraDraw") {
            Some(FileType::TundraDraw)
        }         else if text::str_eq(name, "GIF") {
            Some(FileType::Gif)
        }         else if text::str_eq(name, "PCX") {
            Some(FileType::Pcx)
        }         else if text::str_eq(name, "LBM/IFF") {
            Some(FileType::LbmOrIff)
        }         else if text::str_eq(name, "TGA") {
            Some(FileType::Tga)
        }         else if text::str_eq(name, "FLI") {
            Some(FileType::Fli)
        }         else if text::str_eq(name, "FLC") {
            Some(FileType::Flc)
        }         else if text::str_eq(name, "BMP") {
            Some(FileType::Bmp)
        }         else if text::str_eq(name, "GL") {
            Some(FileType::Gl)
        }         else if text::str_eq(name, "DL") {
            Some(FileType::Dl)
        }         else if text::str_eq(name, "WPG Bitmap") {
            Some(FileType::WpgBitmap)
        }         else if text::str_eq(name, "PNG") {
            Some(FileType::Png)
        }         else if text::str_eq(name, "JPG") {
            Some(FileType::Jpg)
        }         else if text::str_eq(name, "MPG") {
            Some(FileType::Mpg)
        }         else if text::str_eq(name, "AVI") {
            Some(FileType::Avi)
        }         else if text::str_eq(name, "DXF") {
            Some(FileType::Dxf)
        }         else if text::str_eq(name, "DWG") {
            Some(FileType::Dwg)
        }         else if text::str_eq(name, "WPG Vector") {
            Some(FileType::WpgVector)
        }         else if text::str_eq(name, "3DS") {
            Some(FileType::Studio3ds)
        }         else if text::str_eq(name, "MOD") {
            Some(FileType::Mod)
        }         else if text::str_eq(name, "669") {
            Some(FileType::Renaissance669)
        }         else if text::str_eq(name, "STM") {
            Some(FileType::Stm)
        }         else if text::str_eq(name, "S3M") {
            Some(FileType::S3m)
        }         else if text::str_eq(name, "MTM") {
            Some(FileType::Mtm)
        }         else if text::str_eq(name, "FAR") {
            Some(FileType::Far)
        }         else if text::str_eq(name, "ULT") {
            Some(FileType::Ult)
        }         else if text::str_eq(name, "AMF") {
            Some(FileType::Amf)
        }         else if text::str_eq(name, "DMF") {
            Some(FileType::Dmf)
        }         else if text::str_eq(name, "OKT") {
            Some(FileType::Okt)
        }         else if text::str_eq(name, "ROL") {
            Some(FileType::Rol)
        }         else if text::str_eq(name, "CMF") {
            Some(FileType::Cmf)
        }         else if text::str_eq(name, "MID") {
            Some(FileType::Mid)
        }         else if text::str_eq(name, "SADT") {
            Some(FileType::Sadt)
        }         else if text::str_eq(name, "VOC") {
            Some(FileType::Voc)
        }         else if text::str_eq(name, "WAV") {
            Some(FileType::Wav)
        }         else if text::str_eq(name, "SMP8") {
            Some(FileType::Smp8)
        }         else if text::str_eq(name, "SMP8S") {
            Some(FileType::Smp8s)
        }         else if text::str_eq(name, "SMP16") {
            Some(FileType::Smp16)
        }         else if text::str_eq(name, "SMP16S") {
            Some(FileType::Smp16s)
        }         else if text::str_eq(name, "PATCH8") {
            Some(FileType::Patch8)
        }         else if text::str_eq(name, "PATCH16") {
            Some(FileType::Patch16)
        }         else if text::str_eq(name, "XM") {
            Some(FileType::Xm)
        }         else if text::str_eq(name, "HSC") {
            Some(FileType::Hsc)
        }         else if text::str_eq(name, "IT") {
            Some(FileType::It)
        }         else if text::str_eq(name, "XBin") {
            Some(FileType::Xbin)
        }         else if text::str_eq(name, "ZIP") {
            Some(FileType::Zip)
        }         else if text::str_eq(name, "ARJ") {
            Some(FileType::Arj)
        }         else if text::str_eq(name, "LZH") {
            Some(FileType::Lzh)
        }         else if text::str_eq(name, "ARC") {
            Some(FileType::Arc)
        }         else if text::str_eq(name, "TAR") {
            Some(FileType::Tar)
        }         else if text::str_eq(name, "ZOO") {
            Some(FileType::Zoo)
        }         else if text::str_eq(name, "RAR") {
            Some(FileType::Rar)
        }         else if text::str_eq(name, "UC2") {
            Some(FileType::Uc2)
        }         else if text::str_eq(name, "PAK") {
            Some(FileType::Pak)
        }         else if text::str_eq(name, "SQZ") {
            Some(FileType::Sqz)
        } else {
            None
        }
    }
}

/// What the kind byte `value` means in category `datatype`, or `InvalidFileType` where the
/// category defines no kind for it. One byte means different kinds in different categories:
/// 2 is an ANSImation among the character files and a GIF among the bitmaps, where 0 is an
/// LBM/IFF.
pub open spec fn file_type_of(datatype: DataType, value: u8) -> Result<FileType, SauceError> {
    match datatype {
        DataType::Undefined | DataType::Executable => if value == 0 {
            Ok(FileType::Undefined)
        } else {
            Err(SauceError::InvalidFileType)
        },
        DataType::Character => if value == 0 {
            Ok(FileType::Ascii)
        } else if value == 1 {
            Ok(FileType::Ansi)
        } else if value == 2 {
            Ok(FileType::Ansimation)
        } else if value == 3 {
            Ok(FileType::RipScript)
        } else if value == 4 {
            Ok(FileType::PcBoard)
        } else if value == 5 {
            Ok(FileType::Avatar)
        } else if value == 6 {
            Ok(FileType::Html)
        } else if value == 7 {
            Ok(FileType::Source)
        } else if value == 8 {
            Ok(FileType::TundraDraw)
        } else {
            Err(SauceError::InvalidFileType)
        },
        DataType::Bitmap => if value == 0 {
            Ok(FileType::LbmOrIff)
        } else if value == 1 {
            Ok(FileType::Pcx)
        } else if value == 2 {
            Ok(FileType::Gif)
        } else if value == 3 {
            Ok(FileType::Tga)
        } else if value == 4 {
            Ok(FileType::Fli)
        } else if value == 5 {
            Ok(FileType::Flc)
        } else if value == 6 {
            Ok(FileType::Bmp)
        } else if value == 7 {
            Ok(FileType::Gl)
        } else if value == 8 {
            Ok(FileType::Dl)
        } else if value == 9 {
            Ok(FileType::WpgBitmap)
        } else if value == 10 {
            Ok(FileType::Png)
        } else if value == 11 {
            Ok(FileType::Jpg)
        } else if value == 12 {
            Ok(FileType::Mpg)
        } else if value == 13 {
            Ok(FileType::Avi)
        } else {
            Err(SauceError::InvalidFileType)
        },
        DataType::Vector => if value == 0 {
            Ok(FileType::Dxf)
        } else if value == 1 {
            Ok(FileType::Dwg)
        } else if value == 2 {
            Ok(FileType::WpgVector)
        } else if value == 3 {
            Ok(FileType::Studio3ds)
        } else {
            Err(SauceError::InvalidFileType)
        },
        DataType::Audio => if value == 0 {
            Ok(FileType::Mod)
        } else if value == 1 {
            Ok(FileType::Renaissance669)
        } else if value == 2 {
            Ok(FileType::Stm)
        } else if value == 3 {
            Ok(FileType::S3m)
        } else if value == 4 {
            Ok(FileType::Mtm)
        } else if value == 5 {
            Ok(FileType::Far)
        } else if value == 6 {
            Ok(FileType::Ult)
        } else if value == 7 {
            Ok(FileType::Amf)
        } else if value == 8 {
            Ok(FileType::Dmf)
        } else if value == 9 {
            Ok(FileType::Okt)
        } else if value == 10 {
            Ok(FileType::Rol)
        } else if value == 11 {
            Ok(FileType::Cmf)
        } else if value == 12 {
            Ok(FileType::Mid)
        } else if value == 13 {
            Ok(FileType::Sadt)
        } else if value == 14 {
            Ok(FileType::Voc)
        } else if value == 15 {
            Ok(FileType::Wav)
        } else if value == 16 {
            Ok(FileType::Smp8)
        } else if value == 17 {
            Ok(FileType::Smp8s)
        } else if value == 18 {
            Ok(FileType::Smp16)
        } else if value == 19 {
            Ok(FileType::Smp16s)
        } else if value == 20 {
            Ok(FileType::Patch8)
        } else if value == 21 {
            Ok(FileType::Patch16)
        } else if value == 22 {
            Ok(FileType::Xm)
        } else if value == 23 {
            Ok(FileType::Hsc)
        } else if value == 24 {
            Ok(FileType::It)
        } else {
            Err(SauceError::InvalidFileType)
        },
        DataType::BinaryText => Ok(FileType::Variable(value)),
        DataType::XBin => if value == 0 {
            Ok(FileType::Xbin)
        } else {
            Ok(FileType::Variable(value))
        },
        DataType::Archive => if value == 0 {
            Ok(FileType::Zip)
        } else if value == 1 {
            Ok(FileType::Arj)
        } else if value == 2 {
            Ok(FileType::Lzh)
        } else if value == 3 {
            Ok(FileType::Arc)
        } else if value == 4 {
            Ok(FileType::Tar)
        } else if value == 5 {
            Ok(FileType::Zoo)
        } else if value == 6 {
            Ok(FileType::Rar)
        } else if value == 7 {
            Ok(FileType::Uc2)
        } else if value == 8 {
            Ok(FileType::Pak)
        } else if value == 9 {
            Ok(FileType::Sqz)
        } else {
            Err(SauceError::InvalidFileType)
        },
    }
}

/// `filetype` is a kind that category `datatype` defines.
pub open spec fn file_type_fits(datatype: DataType, filetype: FileType) -> bool {
    file_type_of(datatype, filetype.code()) == Ok::<FileType, SauceError>(filetype)
}

impl DataType {
    /// Reads the kind byte `value` of a record of this category.
    pub fn get_filetype(&self, value: u8) -> (r: Result<FileType, SauceError>)
        ensures
            r == file_type_of(*self, value),
    {
        match self {
            DataType::Undefined | DataType::Executable => if value == 0 {
                Ok(FileType::Undefined)
            } else {
                Err(SauceError::InvalidFileType)
            },
            DataType::Character => if value == 0 {
                Ok(FileType::Ascii)
            } else if value == 1 {
                Ok(FileType::Ansi)
            } else if value == 2 {
                Ok(FileType::Ansimation)
            } else if value == 3 {
                Ok(FileType::RipScript)
            } else if value == 4 {
                Ok(FileType::PcBoard)
            } else if value == 5 {
                Ok(FileType::Avatar)
            } else if value == 6 {
                Ok(FileType::Html)
            } else if value == 7 {
                Ok(FileType::Source)
            } else if value == 8 {
                Ok(FileType::TundraDraw)
            } else {
                Err(SauceError::InvalidFileType)
            },
            DataType::Bitmap => if value == 0 {
                Ok(FileType::LbmOrIff)
            } else if value == 1 {
                Ok(FileType::Pcx)
            } else if value == 2 {
                Ok(FileType::Gif)
            } else if value == 3 {
                Ok(FileType::Tga)
            } else if value == 4 {
                Ok(FileType::Fli)
            } else if value == 5 {
                Ok(FileType::Flc)
            } else if value == 6 {
                Ok(FileType::Bmp)
            } else if value == 7 {
                Ok(FileType::Gl)
            } else if value == 8 {
                Ok(FileType::Dl)
            } else if value == 9 {
                Ok(FileType::WpgBitmap)
            } else if value == 10 {
                Ok(FileType::Png)
            } else if value == 11 {
                Ok(FileType::Jpg)
            } else if value == 12 {
                Ok(FileType::Mpg)
            } else if value == 13 {
                Ok(FileType::Avi)
            } else {
                Err(SauceError::InvalidFileType)
            },
            DataType::Vector => if value == 0 {
                Ok(FileType::Dxf)
            } else if value == 1 {
                Ok(FileType::Dwg)
            } else if value == 2 {
                Ok(FileType::WpgVector)
            } else if value == 3 {
                Ok(FileType::Studio3ds)
            } else {
                Err(SauceError::InvalidFileType)
            },
            DataType::Audio => if value == 0 {
                Ok(FileType::Mod)
            } else if value == 1 {
                Ok(FileType::Renaissance669)
            } else if value == 2 {
                Ok(FileType::Stm)
            } else if value == 3 {
                Ok(FileType::S3m)
            } else if value == 4 {
                Ok(FileType::Mtm)
            } else if value == 5 {
                Ok(FileType::Far)
            } else if value == 6 {
                Ok(FileType::Ult)
            } else if value == 7 {
                Ok(FileType::Amf)
            } else if value == 8 {
                Ok(FileType::Dmf)
            } else if value == 9 {
                Ok(FileType::Okt)
            } else if value == 10 {
                Ok(FileType::Rol)
            } else if value == 11 {
                Ok(FileType::Cmf)
            } else if value == 12 {
                Ok(FileType::Mid)
            } else if value == 13 {
                Ok(FileType::Sadt)
            } else if value == 14 {
                Ok(FileType::Voc)
            } else if value == 15 {
                Ok(FileType::Wav)
            } else if value == 16 {
                Ok(FileType::Smp8)
            } else if value == 17 {
                Ok(FileType::Smp8s)
            } else if value == 18 {
                Ok(FileType::Smp16)
            } else if value == 19 {
                Ok(FileType::Smp16s)
            } else if value == 20 {
                Ok(FileType::Patch8)
            } else if value == 21 {
                Ok(FileType::Patch16)
            } else if value == 22 {
                Ok(FileType::Xm)
            } else if value == 23 {
                Ok(FileType::Hsc)
            } else if value == 24 {
                Ok(FileType::It)
            } else {
                Err(SauceError::InvalidFileType)
            },
            DataType::BinaryText => Ok(FileType::Variable(value)),
            DataType::XBin => if value == 0 {
                Ok(FileType::Xbin)
            } else {
                Ok(FileType::Variable(value))
            },
            DataType::Archive => if value == 0 {
                Ok(FileType::Zip)
            } else if value == 1 {
                Ok(FileType::Arj)
            } else if value == 2 {
                Ok(FileType::Lzh)
            } else if value == 3 {
                Ok(FileType::Arc)
            } else if value == 4 {
                Ok(FileType::Tar)
            } else if value == 5 {
                Ok(FileType::Zoo)
            } else if value == 6 {
                Ok(FileType::Rar)
            } else if value == 7 {
                Ok(FileType::Uc2)
            } else if value == 8 {
                Ok(FileType::Pak)
            } else if value == 9 {
                Ok(FileType::Sqz)
            } else {
                Err(SauceError::InvalidFileType)
            },
        }
    }

    /// Tells whether `filetype` is a kind that this category defines.
    pub fn accepts(&self, filetype: &FileType) -> (r: bool)
        ensures
            r == file_type_fits(*self, *filetype),
    {
        match self.get_filetype(filetype.to_byte()) {
            Ok(found) => found == *filetype,
            Err(_) => false,
        }
    }
}


/// The pattern of the name of a `Variable` kind: `Variable(` and `)` around decimal digits,
/// which are the first group.
pub const VARIABLE_PATTERN: &'static str = "^Variable\\((\\d+)\\)$";

/// The text that the first group of `pattern` takes in the leftmost match within `haystack`,
/// as the crate `regex` finds it; `None` where `pattern` is no valid pattern, where it
/// matches nowhere, or where its first group takes no part in the match.
pub uninterp spec fn regex_first_group(pattern: Seq<char>, haystack: Seq<char>) -> Option<Seq<char>>;

/// Calls `Regex::new`, `Regex::captures` and `Captures::get` of the crate `regex`: compiles
/// `pattern`, searches `haystack` for its leftmost match and returns the text of the first
/// group. Nothing is proved of the search: the result is only given its name.
#[verifier::external_body]
fn first_group(pattern: &str, haystack: &str) -> (r: Option<String>)
    ensures
        match r {
            Some(group) => regex_first_group(pattern@, haystack@) == Some(group@),
            None => regex_first_group(pattern@, haystack@) is None,
        },
{
    match regex::Regex::new(pattern) {
        Ok(regex) => match regex.captures(haystack) {
            Some(captures) => captures.get(1).map(|group| group.as_str().to_owned()),
            None => None,
        },
        Err(_) => None,
    }
}

/// The kind that `name` stands for, where `digits` is what the pattern of a `Variable` name
/// finds in it: a kind with a fixed name, or a `Variable` kind whose number the digits
/// denote and a byte holds.
pub open spec fn file_type_of_name(name: Seq<char>, digits: Option<Seq<char>>) -> Result<
    FileType,
    SauceError,
> {
    match FileType::of_fixed_name(name) {
        Some(filetype) => Ok(filetype),
        None => match digits {
            Some(digits) => match text::decimal_number(digits) {
                Some(value) => if value <= 255 {
                    Ok(FileType::Variable(value as u8))
                } else {
                    Err(SauceError::InvalidFileType)
                },
                None => Err(SauceError::InvalidFileType),
            },
            None => Err(SauceError::InvalidFileType),
        },
    }
}

impl FileType {
    /// The kind that `name` stands for, where `digits` is what the pattern of a `Variable`
    /// name found in it.
    pub fn from_name_and_digits(name: &str, digits: Option<&str>) -> (r: Result<
        FileType,
        SauceError,
    >)
        ensures
            r == file_type_of_name(
                name@,
                match digits {
                    Some(digits) => Some(digits@),
                    None => None,
                },
            ),
    {
        match FileType::from_fixed_name(name) {
            Some(filetype) => Ok(filetype),
            None => match digits {
                Some(digits) => match text::parse_byte(digits) {
                    Some(value) => Ok(FileType::Variable(value)),
                    None => Err(SauceError::InvalidFileType),
                },
                None => Err(SauceError::InvalidFileType),
            },
        }
    }

    /// The kind with the given name: a fixed name, or `Variable(n)` with `n` in decimal
    /// digits; `InvalidFileType` for any other name.
    pub fn from_str(name: &str) -> (r: Result<FileType, SauceError>)
        ensures
            r == file_type_of_name(name@, regex_first_group(VARIABLE_PATTERN@, name@)),
    {
        match first_group(VARIABLE_PATTERN, name) {
            Some(digits) => FileType::from_name_and_digits(name, Some(digits.as_str())),
            None => FileType::from_name_and_digits(name, None),
        }
    }
}

} // verus!
