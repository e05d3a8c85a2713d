use ansiart::music::{
    Articulation, Music, MusicEntity, MusicOperation, Note, NoteInfo, NoteSign, SoundCodeInfo,
    SoundNumber, Variation,
};
use ansiart::music_sequence_iterator::{IntoMusicSequenceIter, MusicSequenceIterator};

fn to_bytes(string: &str) -> Vec<u8> {
    string.chars().map(|char| char as u8).collect::<Vec<u8>>()
}

fn to_f32(number: SoundNumber) -> f32 {
    let fraction = if number.fraction == 0 {
        0.0
    } else {
        let mut scale: usize = 1;
        for _ in 0..number.fraction_digits {
            scale *= 10;
        }
        number.fraction as f32 / scale as f32
    };
    let value = number.whole as f32 + fraction;
    if number.negative {
        -value
    } else {
        value
    }
}

fn test_number(string: &str) -> Option<f32> {
    let bytes = to_bytes(string);
    let mut mus = MusicSequenceIterator::new(&bytes);
    mus.parse_sound_code_number().map(to_f32)
}

fn number(negative: bool, whole: usize, fraction: usize, fraction_digits: usize) -> SoundNumber {
    SoundNumber {
        negative,
        whole,
        fraction,
        fraction_digits,
    }
}

fn track(string: &str) -> Vec<MusicEntity> {
    Music::from_str(string).into_entities()
}

fn note(note: Note, sign: NoteSign, length: Option<usize>, dots: usize) -> MusicEntity {
    MusicEntity::Note {
        note,
        info: NoteInfo { sign, length, dots },
    }
}

#[test]
fn test_operation() {
    assert_eq!(test_number(";"), None);
    assert_eq!(test_number("a"), None);
    assert_eq!(test_number("1").unwrap(), 1.0);
    assert_eq!(test_number("100").unwrap(), 100.0);
    assert_eq!(test_number("1.0").unwrap(), 1.0);
    assert_eq!(test_number("1.12345").unwrap(), 1.12345);
    assert_eq!(test_number("10.0").unwrap(), 10.0);
    assert_eq!(test_number(".0").unwrap(), 0.0);
    assert_eq!(test_number("0..9"), None);
    assert_eq!(test_number("0.9.0"), None);
    assert_eq!(test_number(".9").unwrap(), 0.9);
    assert_eq!(test_number("0.").unwrap(), 0.0);
    assert_eq!(test_number("9.").unwrap(), 9.0);
    assert_eq!(test_number(".").unwrap(), 0.0);
    assert_eq!(test_number("-a"), None);
    assert_eq!(test_number("-1").unwrap(), -1.0);
    assert_eq!(test_number("-100").unwrap(), -100.0);
    assert_eq!(test_number("-1.0").unwrap(), -1.0);
    assert_eq!(test_number("-10.0").unwrap(), -10.0);
    assert_eq!(test_number("-.0").unwrap(), 0.0);
    assert_eq!(test_number("-0..9"), None);
    assert_eq!(test_number("-0.9.0"), None);
    assert_eq!(test_number("-.9").unwrap(), -0.9);
    assert_eq!(test_number("-0.").unwrap(), -0.0);
    assert_eq!(test_number("-9.").unwrap(), -9.0);
    assert_eq!(test_number("-.").unwrap(), 0.0);
    assert_eq!(test_number("a;"), None);
    assert_eq!(test_number("1;").unwrap(), 1.0);
    assert_eq!(test_number("100;").unwrap(), 100.0);
    assert_eq!(test_number("1.0;").unwrap(), 1.0);
    assert_eq!(test_number("10.0;").unwrap(), 10.0);
    assert_eq!(test_number(".0;").unwrap(), 0.0);
    assert_eq!(test_number("0..9;"), None);
    assert_eq!(test_number("0.9.0;"), None);
    assert_eq!(test_number(".9;").unwrap(), 0.9);
    assert_eq!(test_number("0.;").unwrap(), 0.0);
    assert_eq!(test_number("9.;").unwrap(), 9.0);
    assert_eq!(test_number(".;").unwrap(), 0.0);
    assert_eq!(test_number("-a;"), None);
    assert_eq!(test_number("-1;").unwrap(), -1.0);
    assert_eq!(test_number("-100;").unwrap(), -100.0);
    assert_eq!(test_number("-1.0;").unwrap(), -1.0);
    assert_eq!(test_number("-10.0;").unwrap(), -10.0);
    assert_eq!(test_number("-.0;").unwrap(), 0.0);
    assert_eq!(test_number("-0..9;"), None);
    assert_eq!(test_number("-0.9.0;"), None);
    assert_eq!(test_number("-.9;").unwrap(), -0.9);
    assert_eq!(test_number("-0.;").unwrap(), -0.0);
    assert_eq!(test_number("-9.;").unwrap(), -9.0);
    assert_eq!(test_number("-.;").unwrap(), 0.0);
    assert_eq!(test_number("a "), None);
    assert_eq!(test_number("1 ").unwrap(), 1.0);
    assert_eq!(test_number("100 ").unwrap(), 100.0);
    assert_eq!(test_number("1.0 ").unwrap(), 1.0);
    assert_eq!(test_number("10.0 ").unwrap(), 10.0);
    assert_eq!(test_number(".0 ").unwrap(), 0.0);
    assert_eq!(test_number("0..9 "), None);
    assert_eq!(test_number("0.9.0 "), None);
    assert_eq!(test_number(".9 ").unwrap(), 0.9);
    assert_eq!(test_number("0. ").unwrap(), 0.0);
    assert_eq!(test_number("9. ").unwrap(), 9.0);
    assert_eq!(test_number(". ").unwrap(), 0.0);
    assert_eq!(test_number("-a "), None);
    assert_eq!(test_number("-1 ").unwrap(), -1.0);
    assert_eq!(test_number("-100 ").unwrap(), -100.0);
    assert_eq!(test_number("-1.0 ").unwrap(), -1.0);
    assert_eq!(test_number("-10.0 ").unwrap(), -10.0);
    assert_eq!(test_number("-.0 ").unwrap(), 0.0);
    assert_eq!(test_number("-0..9 "), None);
    assert_eq!(test_number("-0.9.0 "), None);
    assert_eq!(test_number("-.9 ").unwrap(), -0.9);
    assert_eq!(test_number("-0. ").unwrap(), -0.0);
    assert_eq!(test_number("-9. ").unwrap(), -9.0);
    assert_eq!(test_number("-. ").unwrap(), 0.0);
}

#[test]
fn sound_numbers_keep_their_digits() {
    let mut mus = MusicSequenceIterator::new(b"-12.050;7");
    assert_eq!(mus.parse_sound_code_number(), Some(number(true, 12, 50, 3)));
    assert_eq!(mus.cursor(), 8);
    assert_eq!(mus.parse_sound_code_number(), Some(number(false, 7, 0, 0)));
    assert_eq!(mus.cursor(), 9);
    let mut mus = MusicSequenceIterator::new(b";5");
    assert_eq!(mus.parse_sound_code_number(), None);
    assert_eq!(mus.cursor(), 1);
    let mut mus = MusicSequenceIterator::new(b" 5");
    assert_eq!(mus.parse_sound_code_number(), None);
    assert_eq!(mus.cursor(), 0);
    let mut mus = MusicSequenceIterator::new(b"12x");
    assert_eq!(mus.parse_sound_code_number(), None);
    assert_eq!(mus.cursor(), 2);
}

#[test]
fn numbers_stop_at_the_largest_value() {
    let mut mus = MusicSequenceIterator::new(b"99999999999999999999999999999999");
    assert_eq!(mus.parse_int(false, false), Some(usize::MAX));
    let mut mus = MusicSequenceIterator::new(b"1 2 3;4");
    assert_eq!(mus.parse_int(true, true), Some(123));
    assert_eq!(mus.cursor(), 6);
    let mut mus = MusicSequenceIterator::new(b"1 2 3;4");
    assert_eq!(mus.parse_int(false, false), Some(1));
    assert_eq!(mus.cursor(), 1);
    let mut mus = MusicSequenceIterator::new(b"  ;");
    assert_eq!(mus.parse_int(true, false), None);
    assert_eq!(mus.cursor(), 2);
}

#[test]
fn notes_take_sign_length_and_dots() {
    assert_eq!(
        track("C a#8 B-2,, g+ , ,e"),
        vec![
            note(Note::C, NoteSign::Natural, None, 0),
            note(Note::A, NoteSign::Sharp, Some(8), 0),
            note(Note::B, NoteSign::Flat, Some(2), 2),
            note(Note::G, NoteSign::Sharp, None, 2),
            note(Note::E, NoteSign::Natural, None, 0),
        ]
    );
    assert_eq!(
        track("T120 L4 C4"),
        vec![
            MusicEntity::Tempo(120),
            MusicEntity::Length(4),
            note(Note::C, NoteSign::Natural, Some(4), 0),
        ]
    );
}

#[test]
fn letters_with_numbers_and_operations() {
    assert_eq!(
        track("t 90 o3 n 42 p8 l16 < > MB MF ML mn Ms M "),
        vec![
            MusicEntity::Tempo(90),
            MusicEntity::Octave(3),
            MusicEntity::RawNote(42),
            MusicEntity::Pause(8),
            MusicEntity::Length(16),
            MusicEntity::DecreaseOctave,
            MusicEntity::IncreaseOctave,
            MusicEntity::Operation(MusicOperation::Background),
            MusicEntity::Operation(MusicOperation::Foreground),
            MusicEntity::Operation(MusicOperation::Articulation(Articulation::Legato)),
            MusicEntity::Operation(MusicOperation::Articulation(Articulation::Normal)),
            MusicEntity::Operation(MusicOperation::Articulation(Articulation::Stacato)),
            MusicEntity::Operation(MusicOperation::Undefined),
        ]
    );
    assert_eq!(track("?!C"), vec![note(Note::C, NoteSign::Natural, None, 0)]);
}

#[test]
fn a_token_without_its_value_yields_nothing() {
    let bytes = to_bytes("C P D");
    let mut mus = bytes.as_slice().into_musical_sequence_iter();
    assert_eq!(mus.next(), Some(note(Note::C, NoteSign::Natural, None, 0)));
    assert_eq!(mus.next(), None);
    assert_eq!(mus.cursor(), 4);
    assert_eq!(mus.next(), Some(note(Note::D, NoteSign::Natural, None, 0)));
    assert_eq!(mus.next(), None);
    assert_eq!(mus.cursor(), 5);
    assert_eq!(track("C P D"), vec![note(Note::C, NoteSign::Natural, None, 0)]);
    assert_eq!(track("C Mx D"), vec![note(Note::C, NoteSign::Natural, None, 0)]);
    assert_eq!(track("C L"), vec![note(Note::C, NoteSign::Natural, None, 0)]);
}

#[test]
fn sound_codes_have_five_fields() {
    assert_eq!(
        track("7000;.12;200;25;-100"),
        vec![MusicEntity::SoundCode(SoundCodeInfo {
            frequency: Some(number(false, 7000, 0, 0)),
            duration: Some(number(false, 0, 12, 2)),
            cycles: Some(200),
            delay: Some(25),
            variation: Some(Variation::Value(number(true, 100, 0, 0))),
        })]
    );
    assert_eq!(
        track("100;2;10;5;*"),
        vec![MusicEntity::SoundCode(SoundCodeInfo {
            frequency: Some(number(false, 100, 0, 0)),
            duration: Some(number(false, 2, 0, 0)),
            cycles: Some(10),
            delay: Some(5),
            variation: Some(Variation::Random),
        })]
    );
    assert_eq!(
        track(";;;900000"),
        vec![MusicEntity::SoundCode(SoundCodeInfo {
            frequency: None,
            duration: None,
            cycles: None,
            delay: Some(900000),
            variation: None,
        })]
    );
    assert_eq!(
        track("57;15 37;25"),
        vec![
            MusicEntity::SoundCode(SoundCodeInfo {
                frequency: Some(number(false, 57, 0, 0)),
                duration: Some(number(false, 15, 0, 0)),
                cycles: None,
                delay: None,
                variation: None,
            }),
            MusicEntity::SoundCode(SoundCodeInfo {
                frequency: Some(number(false, 37, 0, 0)),
                duration: Some(number(false, 25, 0, 0)),
                cycles: None,
                delay: None,
                variation: None,
            }),
        ]
    );
}

#[test]
fn the_tokenizer_can_be_moved() {
    let bytes = to_bytes("C D E");
    let mut mus = MusicSequenceIterator::new(&bytes);
    mus.seek(2);
    assert_eq!(mus.next(), Some(note(Note::D, NoteSign::Natural, None, 0)));
    mus.seek(100);
    assert_eq!(mus.cursor(), 5);
    assert_eq!(mus.next(), None);
    mus.seek(0);
    assert_eq!(mus.collect().len(), 3);
    let mut mus = MusicSequenceIterator::new(b"+-x,, ,y");
    assert_eq!(mus.parse_sign(), NoteSign::Sharp);
    assert_eq!(mus.parse_sign(), NoteSign::Flat);
    assert_eq!(mus.parse_sign(), NoteSign::Natural);
    assert_eq!(mus.parse_operation(), None);
    assert_eq!(mus.cursor(), 3);
    assert_eq!(mus.parse_dots(), 3);
    assert_eq!(mus.cursor(), 7);
    assert_eq!(mus.parse_sound_code_number_or_wildcard(), None);
    assert_eq!(mus.cursor(), 7);
    let mut mus = MusicSequenceIterator::new(b"*");
    assert_eq!(mus.parse_sound_code_number_or_wildcard(), Some(Variation::Random));
    assert_eq!(mus.parse_sound_code_number_or_wildcard(), None);
}

#[test]
fn characters_above_a_byte_keep_their_low_bits() {
    assert_eq!(
        track("\u{0143}"),
        vec![note(Note::C, NoteSign::Natural, None, 0)]
    );
}
