use ansiart::music::{Music, MusicEntity, MusicOperation, Note, NoteInfo, NoteSign};
use ansiart::parser::{read_control_sequence, Outcome};
use ansiart::sauce::{Sauce, SauceError};
use ansiart::cp437::CP437String;
use ansiart::parser::{AnsiParser, Sequence};

fn events_of(parser: &mut AnsiParser) -> Vec<Sequence> {
    let mut events = vec![];
    while let Some(event) = parser.next() {
        events.push(event);
    }
    events
}

fn parse(bytes: &[u8]) -> Vec<Sequence> {
    let mut parser = AnsiParser::with_pacing(None);
    parser.input(bytes.to_vec());
    events_of(&mut parser)
}

#[test]
fn cursor_position_counts_from_zero() {
    assert_eq!(
        parse(b"\x1b[2;5H"),
        vec![Sequence::CursorPosition { row: 1, column: 4 }]
    );
}

#[test]
fn select_graphics_rendition_collects_all_parameters() {
    assert_eq!(
        parse(b"\x1b[31;1m"),
        vec![Sequence::SelectGraphicsRendition(vec![31, 1])]
    );
}

#[test]
fn music_block_is_tokenized() {
    let music = Music::from_str("T120 L4 C4");
    assert_eq!(
        music.entities(),
        &vec![
            MusicEntity::Tempo(120),
            MusicEntity::Length(4),
            MusicEntity::Note {
                note: Note::C,
                info: NoteInfo {
                    sign: NoteSign::Natural,
                    length: Some(4),
                    dots: 0
                }
            },
        ]
    );
}

#[test]
fn three_intervals_of_literals_yield_three_updates() {
    let interval = 30usize;
    let mut parser = AnsiParser::with_baud(interval * 480);
    assert_eq!(parser.interval(), interval);
    let bytes: Vec<u8> = (0..3 * interval).map(|i| b'a' + (i % 26) as u8).collect();
    parser.input(bytes.clone());
    let events = events_of(&mut parser);
    assert_eq!(events.len(), 3 * interval + 3);
    let mut expected = vec![];
    for (index, byte) in bytes.iter().enumerate() {
        expected.push(Sequence::Literal(*byte));
        if (index + 1) % interval == 0 {
            expected.push(Sequence::Update);
        }
    }
    assert_eq!(events, expected);
    assert_eq!(
        events.iter().filter(|event| **event == Sequence::Update).count(),
        3
    );
}

fn literals(bytes: &[u8]) -> Vec<Sequence> {
    bytes.iter().map(|byte| Sequence::Literal(*byte)).collect()
}

#[test]
fn control_bytes_among_glyphs() {
    assert_eq!(
        parse(b"a\tb\r\nc"),
        vec![
            Sequence::Literal(b'a'),
            Sequence::Tab,
            Sequence::Literal(b'b'),
            Sequence::CarriageReturn,
            Sequence::LineFeed,
            Sequence::Literal(b'c'),
        ]
    );
    assert_eq!(parse(b"\x1bxy"), literals(b"xy"));
    assert_eq!(parse(b"\x1b"), vec![]);
}

#[test]
fn cursor_sequences_default_to_one() {
    assert_eq!(
        parse(b"\x1b[A\x1b[3B\x1b[;C\x1b[12;9D"),
        vec![
            Sequence::CursorUp(1),
            Sequence::CursorDown(3),
            Sequence::CursorForward(1),
            Sequence::CursorBack(12),
        ]
    );
    assert_eq!(
        parse(b"\x1b[H\x1b[;7f\x1b[4H\x1b[0;0H"),
        vec![
            Sequence::CursorPosition { row: 0, column: 0 },
            Sequence::CursorPosition { row: 0, column: 6 },
            Sequence::CursorPosition { row: 3, column: 0 },
            Sequence::CursorPosition { row: 0, column: 0 },
        ]
    );
}

#[test]
fn modes_and_erasing() {
    assert_eq!(
        parse(b"\x1b[7h\x1b[7l\x1b[h\x1b[?7h\x1b[J\x1b[2J\x1b[K\x1b[1K\x1b[s\x1b[u"),
        vec![
            Sequence::SetScreenMode(7),
            Sequence::ResetScreenMode(7),
            Sequence::EraseDisplay(0),
            Sequence::EraseDisplay(2),
            Sequence::EraseInLine(0),
            Sequence::EraseInLine(1),
            Sequence::SavePosition,
            Sequence::RestorePosition,
        ]
    );
    assert_eq!(
        parse(b"\x1b[m\x1b[0;?1;44m"),
        vec![
            Sequence::SelectGraphicsRendition(vec![]),
            Sequence::SelectGraphicsRendition(vec![0, 44]),
        ]
    );
}

#[test]
fn true_colour_needs_four_numbers_that_fit() {
    assert_eq!(
        parse(b"\x1b[0;1;2;3t\x1b[1;255;0;128t"),
        vec![
            Sequence::TrueColourBg { r: 1, g: 2, b: 3 },
            Sequence::TrueColourFg {
                r: 255,
                g: 0,
                b: 128
            },
        ]
    );
    assert_eq!(parse(b"\x1b[0;1;2t\x1b[1;256;0;0t\x1b[2;1;1;1tz"), literals(b"z"));
}

#[test]
fn other_terminators_are_unknown() {
    assert_eq!(
        parse(b"\x1b[1;2z\x1b[@\x1b[=3~"),
        vec![
            Sequence::Unknown {
                bytes: b"1;2".to_vec(),
                terminator: b'z'
            },
            Sequence::Unknown {
                bytes: vec![],
                terminator: b'@'
            },
            Sequence::Unknown {
                bytes: b"=3".to_vec(),
                terminator: b'~'
            },
        ]
    );
    assert!(matches!(read_control_sequence(b"1;2", b'9'), Outcome::Continue));
    assert!(matches!(read_control_sequence(b"", b'M'), Outcome::Music));
    assert!(matches!(read_control_sequence(b"", b'h'), Outcome::Nothing));
}

#[test]
fn music_runs_from_its_terminator_to_shift_out() {
    let events = parse(b"a\x1b[MF T120 L4 C4\x0eb");
    assert_eq!(events.len(), 3);
    assert_eq!(events[0], Sequence::Literal(b'a'));
    assert_eq!(events[2], Sequence::Literal(b'b'));
    match &events[1] {
        Sequence::Music(music) => assert_eq!(
            music.entities(),
            &vec![
                MusicEntity::Operation(MusicOperation::Foreground),
                MusicEntity::Tempo(120),
                MusicEntity::Length(4),
                MusicEntity::Note {
                    note: Note::C,
                    info: NoteInfo {
                        sign: NoteSign::Natural,
                        length: Some(4),
                        dots: 0
                    }
                },
            ]
        ),
        other => panic!("no music: {other:?}"),
    }
    assert_eq!(parse(b"\x1b[MC"), vec![]);
}

fn sample() -> Sauce {
    let mut sauce = Sauce::new();
    sauce.title = CP437String::from_str("Title").unwrap();
    sauce.year = CP437String::from_str("2001").unwrap();
    sauce.month = CP437String::from_str("12").unwrap();
    sauce.date = CP437String::from_str("24").unwrap();
    sauce
}

#[test]
fn a_record_behind_the_end_of_file_byte_is_yielded() {
    let sauce = sample();
    let mut bytes = b"ab".to_vec();
    bytes.extend_from_slice(&sauce.encode());
    assert_eq!(
        parse(&bytes),
        vec![
            Sequence::Literal(b'a'),
            Sequence::Literal(b'b'),
            Sequence::SauceRecord(Box::new(sauce.duplicate())),
        ]
    );
    bytes.extend_from_slice(b"cd");
    let events = parse(&bytes);
    assert_eq!(events.len(), 5);
    assert_eq!(events[3..], literals(b"cd")[..]);
}

#[test]
fn a_record_with_comments_is_yielded() {
    let mut sauce = sample();
    sauce.comments.push("one").unwrap();
    sauce.comments.push("two").unwrap();
    sauce.comments.push("three").unwrap();
    let mut bytes = b"x".to_vec();
    bytes.extend_from_slice(&sauce.encode());
    bytes.push(b'y');
    assert_eq!(
        parse(&bytes),
        vec![
            Sequence::Literal(b'x'),
            Sequence::SauceRecord(Box::new(sauce.duplicate())),
            Sequence::Literal(b'y'),
        ]
    );
}

#[test]
fn a_near_miss_gives_the_bytes_back_as_glyphs() {
    assert_eq!(parse(b"a\x1aSAUCE01b"), literals(b"a\x1aSAUCE01b"));
    assert_eq!(parse(b"\x1aCOMNX..z"), literals(b"\x1aCOMNX..z"));
    assert_eq!(parse(b"\x1a\x1b[2Jabcd"), {
        let mut expected = vec![Sequence::Literal(0x1a), Sequence::EraseDisplay(2)];
        expected.extend(literals(b"abcd"));
        expected
    });
    assert_eq!(parse(b"a\x1aSAUCE"), literals(b"a"));
    let sauce = sample();
    let mut bytes = b"\x1a".to_vec();
    bytes.extend_from_slice(&sauce.encode());
    assert_eq!(
        parse(&bytes),
        vec![
            Sequence::Literal(0x1a),
            Sequence::SauceRecord(Box::new(sauce.duplicate())),
        ]
    );
}

#[test]
fn a_record_that_cannot_be_read_is_reported_and_skipped() {
    let mut bytes = sample().encode();
    bytes[1 + 94] = 200;
    bytes.push(b'z');
    let mut parser = AnsiParser::with_pacing(None);
    parser.input(bytes);
    assert_eq!(parser.last_error(), &None);
    assert_eq!(events_of(&mut parser), literals(b"z"));
    assert_eq!(parser.last_error(), &Some(SauceError::InvalidDataType));
    assert_eq!(parser.take_error(), Some(SauceError::InvalidDataType));
    assert_eq!(parser.take_error(), None);
    assert_eq!(parser.last_error(), &None);
}

#[test]
fn bytes_can_be_handed_in_piece_by_piece() {
    let mut parser = AnsiParser::with_pacing(None);
    parser.input(b"a\x1b[3".to_vec());
    assert_eq!(events_of(&mut parser), literals(b"a"));
    parser.input(b"1;".to_vec());
    assert_eq!(parser.next(), None);
    parser.input(b"1mb".to_vec());
    assert_eq!(
        parser.collect(),
        vec![
            Sequence::SelectGraphicsRendition(vec![31, 1]),
            Sequence::Literal(b'b')
        ]
    );
    assert_eq!(parser.position(), parser.len());
}

#[test]
fn updates_follow_every_interval_of_bytes() {
    let mut parser = AnsiParser::with_baud(960);
    assert_eq!(parser.interval(), 2);
    parser.input(b"a\x1b[5Abc\x1aSAUCE01".to_vec());
    assert_eq!(
        parser.collect(),
        vec![
            Sequence::Literal(b'a'),
            Sequence::Update,
            Sequence::Update,
            Sequence::CursorUp(5),
            Sequence::Literal(b'b'),
            Sequence::Update,
            Sequence::Literal(b'c'),
            Sequence::Update,
            Sequence::Update,
            Sequence::Update,
            Sequence::Update,
            Sequence::Literal(0x1a),
            Sequence::Literal(b'S'),
            Sequence::Literal(b'A'),
            Sequence::Literal(b'U'),
            Sequence::Literal(b'C'),
            Sequence::Literal(b'E'),
            Sequence::Literal(b'0'),
            Sequence::Literal(b'1'),
        ]
    );
    assert_eq!(AnsiParser::new().interval(), 30);
    assert_eq!(AnsiParser::with_baud(479).interval(), 0);
    let mut parser = AnsiParser::with_baud(479);
    parser.input(b"abc".to_vec());
    assert_eq!(parser.collect(), literals(b"abc"));
    assert_eq!(parse(b"abcdefgh"), literals(b"abcdefgh"));
}

#[test]
fn a_stream_cut_anywhere_yields_the_same_events() {
    let mut sauce = sample();
    sauce.comments.push("a comment").unwrap();
    let mut stream = b"ab\x1b[2;5H\x1b[31;1mc\r\n\x1a\x1b[0mnear\x1aSAUCE01 miss\x1b[MF T120 L4 C4\x0ed\x1bx".to_vec();
    stream.extend_from_slice(&sauce.encode());
    stream.extend_from_slice(b"\x1b[1;2");
    for baud in [None, Some(480 * 7)] {
        let mut whole = AnsiParser::with_pacing(baud);
        whole.input(stream.clone());
        let expected = whole.collect();
        assert!(expected.contains(&Sequence::CursorPosition { row: 1, column: 4 }));
        assert!(expected.contains(&Sequence::SauceRecord(Box::new(sauce.duplicate()))));
        assert_eq!(
            expected.iter().filter(|event| **event == Sequence::Update).count(),
            if baud.is_some() { stream.len() / 7 } else { 0 }
        );
        for cut in 0..=stream.len() {
            let mut parser = AnsiParser::with_pacing(baud);
            parser.input(stream[..cut].to_vec());
            let mut events = parser.collect();
            parser.input(stream[cut..].to_vec());
            events.extend(parser.collect());
            assert_eq!(events, expected, "cut at {cut}");
        }
    }
}
