use ansiart::cp437::{CP437Error, CP437String};
use ansiart::sauce::{
    pack, unpack, AspectRatio, Comments, DataType, FileType, InfoS, LetterSpacing, Sauce,
    SauceError,
};

#[test]
fn comments_test() {
    let string = "piranha bbs +o caphood                                          acidic whq, acid outpost, agoranet us eastern hub, dezign ushq  telnet://piranha.acid.org                                                                                                       suggested modem speed for this ansimation is 14400.                                                                             enjoy!                                                          ";
    let comments = Comments::from_str(string).unwrap();
    assert_eq!(comments.len(), 7);
    assert_eq!(comments.to_string(), string);
}

#[test]
fn cp437_string_test() {
    let a = CP437String::from_str("\u{263A}\u{263B}\u{2665}\u{2666}\u{2663}\u{2660}").expect("cp437 string");
    let bytes: Vec<u8> = vec![1, 2, 3, 4, 5, 6];
    let b = CP437String::from_bytes(bytes.as_slice());
    assert_eq!(a, b);
    assert_eq!(
        serde_json::to_string(&a.to_string()).unwrap(),
        "\"\u{263A}\u{263B}\u{2665}\u{2666}\u{2663}\u{2660}\""
    );
}

#[test]
fn filetype_de() {
    let filetype = FileType::Variable(160);
    let json = serde_json::to_string(&filetype.to_string()).unwrap();
    assert_eq!(json, "\"Variable(160)\"");
    let name = serde_json::from_str::<String>(&json).unwrap();
    let de_filetype = FileType::from_str(&name).unwrap();
    assert_eq!(filetype, de_filetype);
}

#[test]
fn letter_spacing_de() {
    let letterspacing = LetterSpacing::EightPixels;
    let json = serde_json::to_string(&letterspacing.to_string()).unwrap();
    assert_eq!(json, "\"8px\"");
    let name = serde_json::from_str::<String>(&json).unwrap();
    let de_letterspacing = LetterSpacing::from_str(&name).unwrap();
    assert_eq!(letterspacing, de_letterspacing);
}

fn sample() -> Sauce {
    let mut sauce = Sauce::new();
    sauce.title = CP437String::from_str("Piranha").unwrap();
    sauce.author = CP437String::from_str("caphood").unwrap();
    sauce.group = CP437String::from_str("ACiD").unwrap();
    sauce.year = CP437String::from_str("1997").unwrap();
    sauce.month = CP437String::from_str("03").unwrap();
    sauce.date = CP437String::from_str("14").unwrap();
    sauce.filesize = 0x01020304;
    sauce.datatype = DataType::Character;
    sauce.filetype = FileType::Ansimation;
    sauce.info_1 = 80;
    sauce.info_2 = 25;
    sauce.info_3 = 0x1234;
    sauce.info_4 = 0;
    sauce.ice_colors = true;
    sauce.letter_spacing = LetterSpacing::NinePixels;
    sauce.aspect_ratio = AspectRatio::Legacy;
    sauce.info_s = InfoS::IbmVga50;
    sauce
}

#[test]
fn record_has_the_fixed_layout() {
    let bytes = sample().encode();
    assert_eq!(bytes.len(), 129);
    assert_eq!(bytes[0], 0x1A);
    let record = &bytes[1..];
    assert_eq!(&record[0..7], b"SAUCE00");
    assert_eq!(&record[7..42], b"Piranha                            ");
    assert_eq!(&record[42..62], b"caphood             ");
    assert_eq!(&record[62..82], b"ACiD                ");
    assert_eq!(&record[82..90], b"19970314");
    assert_eq!(&record[90..94], &[0x04, 0x03, 0x02, 0x01]);
    assert_eq!(record[94], 1);
    assert_eq!(record[95], 2);
    assert_eq!(&record[96..104], &[80, 0, 25, 0, 0x34, 0x12, 0, 0]);
    assert_eq!(record[104], 0);
    assert_eq!(record[105], 1 + (2 << 1) + (1 << 3));
    assert_eq!(&record[106..115], b"IBM VGA50");
    assert!(record[115..128].iter().all(|byte| *byte == 0));
}

#[test]
fn decode_gives_back_what_encode_wrote() {
    let mut sauce = sample();
    assert_eq!(Sauce::decode(&sauce.encode()).unwrap(), sauce);
    sauce.comments.push("first line").unwrap();
    sauce.comments.push("second line").unwrap();
    let bytes = sauce.encode();
    assert_eq!(bytes.len(), 1 + 5 + 2 * 64 + 128);
    assert_eq!(bytes.len(), sauce.size());
    assert_eq!(&bytes[1..6], b"COMNT");
    let mut file = b"some art".to_vec();
    file.extend_from_slice(&bytes);
    assert_eq!(Sauce::decode(&file).unwrap(), sauce);
}

#[test]
fn short_or_unmarked_bytes_hold_no_record() {
    assert_eq!(Sauce::decode(&[0u8; 127]), Err(SauceError::NoSauce));
    assert_eq!(Sauce::decode(&[0u8; 500]), Err(SauceError::NoSauce));
    assert_eq!(Sauce::from_file_bytes(b"plain text"), Ok(None));
}

#[test]
fn one_chunk_for_two_counted_comments_is_missing_comments() {
    let mut sauce = sample();
    sauce.comments.push("only line").unwrap();
    let mut bytes = sauce.encode();
    let count_at = bytes.len() - 128 + 104;
    assert_eq!(bytes[count_at], 1);
    bytes[count_at] = 2;
    assert_eq!(Sauce::decode(&bytes), Err(SauceError::CommentsMissing));
    let mut file = vec![b' '; 64];
    file.extend_from_slice(&bytes);
    assert_eq!(Sauce::decode(&file), Err(SauceError::CommentsMissing));
}

#[test]
fn kind_outside_the_category_is_rejected() {
    let mut bytes = sample().encode();
    let start = bytes.len() - 128;
    bytes[start + 95] = 9;
    assert_eq!(Sauce::decode(&bytes), Err(SauceError::InvalidFileType));
    bytes[start + 94] = 2;
    assert_eq!(Sauce::decode(&bytes).unwrap().filetype, FileType::WpgBitmap);
    bytes[start + 95] = 2;
    assert_eq!(Sauce::decode(&bytes).unwrap().filetype, FileType::Gif);
    bytes[start + 94] = 1;
    assert_eq!(Sauce::decode(&bytes).unwrap().filetype, FileType::Ansimation);
    bytes[start + 94] = 2;
    bytes[start + 95] = 0;
    assert_eq!(Sauce::decode(&bytes).unwrap().filetype, FileType::LbmOrIff);
    bytes[start + 95] = 1;
    assert_eq!(Sauce::decode(&bytes).unwrap().filetype, FileType::Pcx);
    bytes[start + 94] = 9;
    assert_eq!(Sauce::decode(&bytes), Err(SauceError::InvalidDataType));
    bytes[start + 94] = 5;
    bytes[start + 95] = 160;
    assert_eq!(Sauce::decode(&bytes).unwrap().filetype, FileType::Variable(160));
    bytes[start + 94] = 6;
    assert_eq!(Sauce::decode(&bytes).unwrap().filetype, FileType::Variable(160));
    bytes[start + 95] = 0;
    assert_eq!(Sauce::decode(&bytes).unwrap().filetype, FileType::Xbin);
}

#[test]
fn reserved_flag_patterns_read_as_undefined() {
    let mut bytes = sample().encode();
    let flags_at = bytes.len() - 128 + 105;
    bytes[flags_at] = 0b0001_1110;
    let sauce = Sauce::decode(&bytes).unwrap();
    assert!(!sauce.ice_colors);
    assert_eq!(sauce.letter_spacing, LetterSpacing::Undefined);
    assert_eq!(sauce.aspect_ratio, AspectRatio::Undefined);
    bytes[flags_at] = 0b1111_0101;
    let sauce = Sauce::decode(&bytes).unwrap();
    assert!(sauce.ice_colors);
    assert_eq!(sauce.letter_spacing, LetterSpacing::NinePixels);
    assert_eq!(sauce.aspect_ratio, AspectRatio::Modern);
}

#[test]
fn writing_twice_leaves_one_trailer() {
    let first = sample();
    let mut second = sample();
    second.title = CP437String::from_str("Second").unwrap();
    second.comments.push("a comment").unwrap();
    let content = b"art".to_vec();
    let once = first.write_to(&content);
    let twice = second.write_to(&once);
    let mut expected = content.clone();
    expected.extend_from_slice(&second.encode());
    assert_eq!(twice, expected);
    let again = first.write_to(&twice);
    assert_eq!(again, once);
    assert_eq!(Sauce::remove_from(&again), Ok(Some(content.clone())));
    assert_eq!(Sauce::remove_from(&content), Ok(None));
    let read = Sauce::from_file_bytes(&once).unwrap().unwrap();
    assert_eq!(read.filesize, 3);
}

#[test]
fn font_names_are_recognised() {
    assert_eq!(InfoS::from_name(b"IBM VGA"), InfoS::IbmVga);
    assert_eq!(InfoS::from_name(b"Amiga Topaz 1+"), InfoS::AmigaTopaz1Plus);
    assert_eq!(InfoS::from_field(b"Atari ATASCII\0\0\0\0\0\0\0\0\0"), InfoS::AtariAtascii);
    assert_eq!(
        InfoS::from_name(b"My Font"),
        InfoS::Custom(CP437String::from_bytes(b"My Font"))
    );
    assert_eq!(InfoS::from_str("IBM EGA43 866"), Ok(InfoS::IbmEga43866));
    assert_eq!(InfoS::IbmVga25gMik.to_string(), "IBM VGA25G MIK");
    assert_eq!(InfoS::C64PetsciiShifted.name_bytes(), b"C64 PETSCII shifted");
}

#[test]
fn names_of_kinds_and_categories() {
    assert_eq!(FileType::from_str("LBM/IFF"), Ok(FileType::LbmOrIff));
    assert_eq!(FileType::from_str("Variable(7)"), Ok(FileType::Variable(7)));
    assert_eq!(FileType::from_str("Variable(255)"), Ok(FileType::Variable(255)));
    assert_eq!(FileType::from_str("Variable(256)"), Err(SauceError::InvalidFileType));
    assert_eq!(FileType::from_str("Variable()"), Err(SauceError::InvalidFileType));
    assert_eq!(FileType::from_str("xVariable(7)"), Err(SauceError::InvalidFileType));
    assert_eq!(FileType::Renaissance669.to_string(), "669");
    assert_eq!(FileType::Variable(0).to_string(), "Variable(0)");
    assert_eq!(DataType::from_str("Binary Text"), Ok(DataType::BinaryText));
    assert_eq!(DataType::from_str("binary text"), Err(SauceError::InvalidDataType));
    assert_eq!(DataType::XBin.to_string(), "XBin");
    assert_eq!(AspectRatio::from_str("Legacy"), Ok(AspectRatio::Legacy));
    assert_eq!(
        AspectRatio::from_str("legacy"),
        Err(SauceError::InvalidAspectRatioValue)
    );
    assert_eq!(
        LetterSpacing::from_str("10px"),
        Err(SauceError::InvalidLetterSpacingValue)
    );
    assert_eq!(SauceError::NoSauce.to_string(), "Header missing\n");
    assert_eq!(
        SauceError::FileReadError("a.ans".to_string()).to_string(),
        "An error occured whilst reading the file: a.ans\n"
    );
}

#[test]
fn characters_without_a_glyph_are_refused() {
    assert_eq!(
        CP437String::from_str("snow \u{2603}"),
        Err(CP437Error::NoEquivalentGlyph)
    );
    assert_eq!(
        CP437Error::NoEquivalentGlyph.message(),
        "No equivalent glyph for character"
    );
    let mut comments = Comments::new();
    assert_eq!(comments.push("\u{2603}"), Err(CP437Error::NoEquivalentGlyph));
    assert!(comments.is_empty());
    assert_eq!(
        Comments::try_from_strings(&vec!["ok".to_string(), "\u{2603}".to_string()]),
        Err(CP437Error::NoEquivalentGlyph)
    );
    assert_eq!(
        Comments::try_from_strings(&vec!["one  ".to_string(), "two".to_string()])
            .unwrap()
            .to_string(),
        format!("{:<64}{:<64}", "one", "two")
    );
    assert!(Comments::from_str(&format!("{:<64}\u{2603}", "kept")).is_ok());
    assert_eq!(
        Comments::from_str(&format!("{:<63}\u{2603}", "lost")),
        Err(CP437Error::NoEquivalentGlyph)
    );
    assert_eq!(InfoS::from_str("\u{2603}"), Err(CP437Error::NoEquivalentGlyph));
    let mut text = CP437String::new();
    assert_eq!(text.push('\u{2603}'), Err(CP437Error::NoEquivalentGlyph));
    assert_eq!(text.push('\u{2592}'), Ok(()));
    assert_eq!(text.as_slice(), &[0xB1]);
}

#[test]
fn strings_are_stripped_and_padded() {
    let text = CP437String::from_bytes(b"ab  ");
    assert_eq!(text.len(), 4);
    assert_eq!(text.strip_trailing_spaces().as_slice(), b"ab");
    assert_eq!(text.strip_trailing_nulls().as_slice(), b"ab  ");
    assert_eq!(text.strip_trailing_value(b'b').as_slice(), b"ab  ");
    assert_eq!(CP437String::from_bytes(b"   ").strip_trailing_spaces().len(), 0);
    assert_eq!(text.pad_with_spaces(6).as_slice(), b"ab    ");
    assert_eq!(text.pad_with_nulls(6).as_slice(), b"ab  \0\0");
    assert_eq!(text.pad_with_value(2, b'x').as_slice(), b"ab  ");
    let mut text = CP437String::with_capacity(4);
    assert!(text.is_empty());
    assert_eq!(text.last(), None);
    assert_eq!(text.pop(), None);
    text.push_byte(1);
    text.push_byte(0xDB);
    assert_eq!(text.last(), Some(0xDB));
    assert_eq!(text.chars(), vec!['\u{263A}', '\u{2588}']);
    assert_eq!(text.to_string(), "\u{263A}\u{2588}");
    assert_eq!(text.pop(), Some(0xDB));
    assert!(text.same_as(&CP437String::from_bytes(&[1])));
    assert!(!text.same_as(&CP437String::new()));
    assert_eq!(CP437String::default().len(), 0);
}

#[test]
fn every_glyph_has_a_character_of_its_own() {
    let bytes: Vec<u8> = (0..=255).collect();
    let text = CP437String::from_bytes(&bytes).to_string();
    assert_eq!(text.chars().count(), 256);
    assert_eq!(CP437String::from_str(&text).unwrap().as_slice(), bytes.as_slice());
    assert_eq!(
        text.chars().skip(32).take(95).collect::<String>(),
        (32u8..127).map(|byte| byte as char).collect::<String>()
    );
}

#[test]
fn reading_normalizes_what_was_written() {
    let mut sauce = sample();
    sauce.title = CP437String::from_bytes(b"padded   ");
    sauce.info_s = InfoS::Custom(CP437String::from_bytes(b"IBM VGA\0\0"));
    assert!(sauce.is_encodable());
    assert!(!sauce.is_canonical());
    let mut bytes = sauce.encode();
    let flags_at = bytes.len() - 128 + 105;
    bytes[flags_at] |= 0b1110_0110;
    let read = Sauce::decode(&bytes).unwrap();
    assert!(read.is_canonical());
    assert_eq!(read.title.as_slice(), b"padded");
    assert_eq!(read.info_s, InfoS::IbmVga);
    assert_eq!(read.letter_spacing, LetterSpacing::Undefined);
    assert_eq!(Sauce::decode(&read.encode()).unwrap(), read);
    let mut long = sample();
    long.title = CP437String::from_bytes(&[b'x'; 36]);
    assert!(!long.is_encodable());
    assert!(!Sauce::new().is_encodable());
    let mut mismatched = sample();
    mismatched.filetype = FileType::Gif;
    assert!(mismatched.is_encodable());
    assert!(!mismatched.is_canonical());
}

#[test]
fn records_are_described_line_by_line() {
    let mut sauce = sample();
    sauce.comments.push("a comment").unwrap();
    assert_eq!(
        sauce.to_string(),
        "title: Piranha\nauthor: caphood\ngroup: ACiD\nyear: 1997\nmonth: 03\ndate: 14\n\
         filesize: 16909060\ndatatype: Character\nfiletype: ANSImation\ntype info 1: 80\n\
         type info 2: 25\ntype info 3: 4660\ntype info 4: 0\nice colors: true\n\
         letter spacing: 9px\naspect ratio: Legacy\ninfo string: IBM VGA50\ncomments:\n\
         a comment\n"
    );
    assert_eq!(SauceError::CommentHeaderMissing.to_string(), "Comment header missing\n");
    assert_eq!(SauceError::CommentsMissing.to_string(), "Comments missing\n");
    assert_eq!(SauceError::InvalidDataType.to_string(), "Invalid datatype\n");
    assert_eq!(SauceError::InvalidFileType.to_string(), "Invalid filetype\n");
    assert_eq!(
        SauceError::InvalidLetterSpacingValue.to_string(),
        "Invalid letter spacing value\n"
    );
    assert_eq!(
        SauceError::InvalidAspectRatioValue.to_string(),
        "Invalid aspect ratio value\n"
    );
    assert_eq!(
        SauceError::FileWriteError("b.ans".to_string()).to_string(),
        "An error occured whilst writing the file: b.ans\n"
    );
}

#[test]
fn numbers_are_packed_lowest_byte_first() {
    assert_eq!(pack(0x01020304, 4), vec![4, 3, 2, 1]);
    assert_eq!(pack(0x01020304, 2), vec![4, 3]);
    assert_eq!(pack(7, 0), Vec::<u8>::new());
    assert_eq!(unpack(&[4, 3, 2, 1]), 0x01020304);
    assert_eq!(unpack(&[0xFF, 0xFF]), 65535);
    assert_eq!(unpack(&[]), 0);
}

#[test]
fn one_byte_means_different_kinds_in_different_categories() {
    assert_eq!(DataType::Character.get_filetype(2), Ok(FileType::Ansimation));
    assert_eq!(DataType::Bitmap.get_filetype(2), Ok(FileType::Gif));
    assert_eq!(DataType::Vector.get_filetype(2), Ok(FileType::WpgVector));
    assert_eq!(DataType::Audio.get_filetype(2), Ok(FileType::Stm));
    assert_eq!(DataType::Archive.get_filetype(2), Ok(FileType::Lzh));
    assert_eq!(DataType::BinaryText.get_filetype(2), Ok(FileType::Variable(2)));
    assert_eq!(DataType::XBin.get_filetype(2), Ok(FileType::Variable(2)));
    assert_eq!(DataType::Undefined.get_filetype(2), Err(SauceError::InvalidFileType));
    assert_eq!(DataType::Executable.get_filetype(2), Err(SauceError::InvalidFileType));
    assert_eq!(FileType::Gif.to_byte(), 2);
    assert_eq!(FileType::LbmOrIff.to_byte(), 0);
    assert_eq!(FileType::Ansimation.to_byte(), 2);
    for datatype in [
        DataType::Undefined,
        DataType::Character,
        DataType::Bitmap,
        DataType::Vector,
        DataType::Audio,
        DataType::BinaryText,
        DataType::XBin,
        DataType::Archive,
        DataType::Executable,
    ] {
        for value in 0..=255u8 {
            if let Ok(filetype) = datatype.get_filetype(value) {
                assert_eq!(filetype.to_byte(), value);
                assert!(datatype.accepts(&filetype));
            }
        }
    }
    let mut sauce = sample();
    sauce.datatype = DataType::Bitmap;
    sauce.filetype = FileType::Gif;
    assert!(sauce.is_canonical());
    let bytes = sauce.encode();
    assert_eq!(bytes[bytes.len() - 128 + 95], 2);
    assert_eq!(Sauce::decode(&bytes).unwrap(), sauce);
}
