//! The entities of ANSI Music: what a block of music between the sequence `ESC [ M` and the
//! shift-out byte is made of.

use vstd::prelude::*;
use crate::music_sequence_iterator::{track_from, IntoMusicSequenceIter};
use crate::text;

verus! {

/// How notes are joined to each other.
#[derive(Clone, Copy, Debug, PartialEq, Eq, Structural)]
pub enum Articulation {
    Legato,
    Normal,
    Stacato,
}

/// What an `M` token asks for.
#[derive(Clone, Copy, Debug, PartialEq, Eq, Structural)]
pub enum MusicOperation {
    /// An `M` followed by a space.
    Undefined,
    Foreground,
    Background,
    Articulation(Articulation),
}

/// The seven notes of an octave.
#[derive(Clone, Copy, Debug, PartialEq, Eq, Structural)]
pub enum Note {
    A,
    B,
    C,
    D,
    E,
    F,
    G,
}

/// Whether a note is raised, left as it is, or lowered.
#[derive(Clone, Copy, Debug, PartialEq, Eq, Structural)]
pub enum NoteSign {
    Sharp,
    Natural,
    Flat,
}

/// What follows the letter of a note.
#[derive(Clone, Copy, Debug, PartialEq, Eq, Structural)]
pub struct NoteInfo {
    pub sign: NoteSign,
    pub length: Option<usize>,
    pub dots: usize,
}

/// A signed decimal number as it is written in a sound code: the digits before the point,
/// and the digits behind it as a number together with their count. It stands for
/// `whole + fraction / 10^fraction_digits`, negated where `negative` is set.
#[derive(Clone, Copy, Debug, PartialEq, Eq, Structural)]
pub struct SoundNumber {
    pub negative: bool,
    pub whole: usize,
    pub fraction: usize,
    pub fraction_digits: usize,
}

/// How the frequency of a sound code changes from cycle to cycle.
#[derive(Clone, Copy, Debug, PartialEq, Eq, Structural)]
pub enum Variation {
    Value(SoundNumber),
    Random,
}

/// The five fields of a sound code. A field that is left out, or that cannot be read, is
/// `None`.
#[derive(Clone, Copy, Debug, PartialEq, Eq, Structural)]
pub struct SoundCodeInfo {
    pub frequency: Option<SoundNumber>,
    pub duration: Option<SoundNumber>,
    pub cycles: Option<usize>,
    pub delay: Option<usize>,
    pub variation: Option<Variation>,
}

/// One entity of a track.
#[derive(Clone, Copy, Debug, PartialEq, Eq, Structural)]
pub enum MusicEntity {
    Operation(MusicOperation),
    Tempo(usize),
    Octave(usize),
    Length(usize),
    RawNote(usize),
    Pause(usize),
    IncreaseOctave,
    DecreaseOctave,
    Note { note: Note, info: NoteInfo },
    SoundCode(SoundCodeInfo),
}

/// A track: the entities of one block of music, in the order in which they are played.
#[derive(Clone, Debug, PartialEq, Eq)]
pub struct Music {
    entities: Vec<MusicEntity>,
}

impl View for Music {
    type V = Seq<MusicEntity>;

    closed spec fn view(&self) -> Seq<MusicEntity> {
        self.entities@
    }
}

impl Music {
    /// Reads a track from the bytes of a block of music: the entities that the tokenizer
    /// yields, up to the first token that yields none.
    pub fn new(bytes: &[u8]) -> (r: Music)
        ensures
            r@ == track_from(bytes@, 0),
    {
        let mut iter = bytes.into_musical_sequence_iter();
        let entities = iter.collect();
        Music { entities }
    }

    /// Reads a track from a text, taking each character for the byte of the same number.
    /// A character above 255 is taken for its lowest eight bits.
    pub fn from_str(s: &str) -> (r: Music)
        ensures
            r@ == track_from(low_bytes(s@), 0),
    {
        let chars = crate::cp437::chars_of(s);
        let mut bytes: Vec<u8> = Vec::with_capacity(chars.len());
        let mut i: usize = 0;
        while i < chars.len()
            invariant
                i <= chars@.len(),
                bytes@ == low_bytes(chars@.take(i as int)),
            decreases chars@.len() - i,
        {
            bytes.push(low_byte(chars[i]));
            i += 1;
            proof {
                assert(bytes@ =~= low_bytes(chars@.take(i as int)));
            }
        }
        proof {
            assert(chars@.take(i as int) =~= chars@);
        }
        Music::new(bytes.as_slice())
    }

    /// The entities of the track.
    pub fn entities(&self) -> (r: &Vec<MusicEntity>)
        ensures
            r@ == self@,
    {
        &self.entities
    }

    /// The track as a list of its entities.
    pub fn into_entities(self) -> (r: Vec<MusicEntity>)
        ensures
            r@ == self@,
    {
        self.entities
    }

    /// The number of entities.
    pub fn len(&self) -> (r: usize)
        ensures
            r == self@.len(),
    {
        self.entities.len()
    }
}

impl Articulation {
    /// The operation that sets the articulation, as it is written in music.
    pub open spec fn text(self) -> Seq<char> {
        match self {
            Articulation::Legato => "ML"@,
            Articulation::Normal => "MN"@,
            Articulation::Stacato => "MS"@,
        }
    }

    /// The operation that sets the articulation, as it is written in music.
    pub fn to_string(&self) -> (r: String)
        ensures
            r@ == self.text(),
    {
        match self {
            Articulation::Legato => text::string_of("ML"),
            Articulation::Normal => text::string_of("MN"),
            Articulation::Stacato => text::string_of("MS"),
        }
    }
}

impl MusicOperation {
    /// The operation as it is written in music.
    pub open spec fn text(self) -> Seq<char> {
        match self {
            MusicOperation::Undefined => "M"@,
            MusicOperation::Foreground => "MF"@,
            MusicOperation::Background => "MB"@,
            MusicOperation::Articulation(articulation) => articulation.text(),
        }
    }

    /// The operation as it is written in music.
    pub fn to_string(&self) -> (r: String)
        ensures
            r@ == self.text(),
    {
        match self {
            MusicOperation::Undefined => text::string_of("M"),
            MusicOperation::Foreground => text::string_of("MF"),
            MusicOperation::Background => text::string_of("MB"),
            MusicOperation::Articulation(articulation) => articulation.to_string(),
        }
    }
}

impl Note {
    /// The letter of the note.
    pub open spec fn text(self) -> Seq<char> {
        match self {
            Note::A => "A"@,
            Note::B => "B"@,
            Note::C => "C"@,
            Note::D => "D"@,
            Note::E => "E"@,
            Note::F => "F"@,
            Note::G => "G"@,
        }
    }

    /// The letter of the note.
    pub fn to_string(&self) -> (r: String)
        ensures
            r@ == self.text(),
    {
        match self {
            Note::A => text::string_of("A"),
            Note::B => text::string_of("B"),
            Note::C => text::string_of("C"),
            Note::D => text::string_of("D"),
            Note::E => text::string_of("E"),
            Note::F => text::string_of("F"),
            Note::G => text::string_of("G"),
        }
    }
}

impl NoteSign {
    /// The sign as it is written in music: `+`, nothing, or `-`.
    pub open spec fn text(self) -> Seq<char> {
        match self {
            NoteSign::Sharp => "+"@,
            NoteSign::Natural => ""@,
            NoteSign::Flat => "-"@,
        }
    }

    /// The sign as it is written in music.
    pub fn to_string(&self) -> (r: String)
        ensures
            r@ == self.text(),
    {
        match self {
            NoteSign::Sharp => text::string_of("+"),
            NoteSign::Natural => text::string_of(""),
            NoteSign::Flat => text::string_of("-"),
        }
    }
}

/// A number in decimal, or nothing where there is none.
pub open spec fn optional_digits(value: Option<usize>) -> Seq<char> {
    match value {
        Some(value) => text::decimal_digits(value as nat),
        None => Seq::empty(),
    }
}

/// Appends a number in decimal to `out`, or nothing where there is none.
pub fn push_optional_digits(out: &mut String, value: Option<usize>)
    ensures
        final(out)@ == old(out)@ + optional_digits(value),
{
    match value {
        Some(value) => {
            let digits = text::decimal_string(value);
            text::append(out, digits.as_str());
        },
        None => {
            proof {
                assert(out@ =~= old(out)@ + Seq::<char>::empty());
            }
        },
    }
}

impl NoteInfo {
    /// What follows the letter of a note: the sign, the length if there is one, and a `.`
    /// for each dot.
    pub open spec fn text(self) -> Seq<char> {
        self.sign.text() + optional_digits(self.length) + text::repeated('.', self.dots as nat)
    }

    /// What follows the letter of a note.
    pub fn to_string(&self) -> (r: String)
        ensures
            r@ == self.text(),
    {
        let mut out = self.sign.to_string();
        push_optional_digits(&mut out, self.length);
        text::push_repeated(&mut out, '.', self.dots);
        out
    }
}

impl SoundNumber {
    /// The digits behind the point: the fraction in decimal, with zeros before it up to the
    /// count of digits.
    pub open spec fn fraction_text(self) -> Seq<char> {
        let digits = text::decimal_digits(self.fraction as nat);
        if digits.len() < self.fraction_digits {
            text::repeated('0', (self.fraction_digits - digits.len()) as nat) + digits
        } else {
            digits
        }
    }

    /// The number as it is written: a `-` where it is negative, the digits before the
    /// point, and the point with the digits behind it where there are any.
    pub open spec fn text(self) -> Seq<char> {
        (if self.negative {
            "-"@
        } else {
            ""@
        }) + text::decimal_digits(self.whole as nat) + (if self.fraction_digits > 0 {
            "."@ + self.fraction_text()
        } else {
            ""@
        })
    }

    /// The number as it is written.
    pub fn to_string(&self) -> (r: String)
        ensures
            r@ == self.text(),
    {
        let mut out = if self.negative {
            text::string_of("-")
        } else {
            text::string_of("")
        };
        let whole = text::decimal_string(self.whole);
        text::append(&mut out, whole.as_str());
        if self.fraction_digits > 0 {
            let ghost before = out@;
            text::append(&mut out, ".");
            let length = text::decimal_len(self.fraction);
            if length < self.fraction_digits {
                text::push_repeated(&mut out, '0', self.fraction_digits - length);
            }
            let digits = text::decimal_string(self.fraction);
            text::append(&mut out, digits.as_str());
            proof {
                assert(out@ =~= before + ("."@ + self.fraction_text()));
            }
        } else {
            proof {
                assert(out@ =~= out@ + ""@) by {
                    reveal_strlit("");
                }
            }
        }
        out
    }
}

impl Variation {
    /// The variation as it is written: a number, or `*`.
    pub open spec fn text(self) -> Seq<char> {
        match self {
            Variation::Value(number) => number.text(),
            Variation::Random => "*"@,
        }
    }

    /// The variation as it is written.
    pub fn to_string(&self) -> (r: String)
        ensures
            r@ == self.text(),
    {
        match self {
            Variation::Value(number) => number.to_string(),
            Variation::Random => text::string_of("*"),
        }
    }
}

/// A number as it is written, or nothing where there is none.
pub open spec fn optional_number(value: Option<SoundNumber>) -> Seq<char> {
    match value {
        Some(number) => number.text(),
        None => Seq::empty(),
    }
}

/// A variation as it is written, or nothing where there is none.
pub open spec fn optional_variation(value: Option<Variation>) -> Seq<char> {
    match value {
        Some(variation) => variation.text(),
        None => Seq::empty(),
    }
}

/// Appends a number as it is written to `out`, or nothing where there is none.
pub fn push_optional_number(out: &mut String, value: Option<SoundNumber>)
    ensures
        final(out)@ == old(out)@ + optional_number(value),
{
    match value {
        Some(number) => {
            let digits = number.to_string();
            text::append(out, digits.as_str());
        },
        None => {
            proof {
                assert(out@ =~= old(out)@ + Seq::<char>::empty());
            }
        },
    }
}

impl SoundCodeInfo {
    /// The sound code as it is written: frequency, duration, cycles and delay, each with a
    /// `;` behind it, and the variation.
    pub open spec fn text(self) -> Seq<char> {
        optional_number(self.frequency) + ";"@ + optional_number(self.duration) + ";"@
            + optional_digits(self.cycles) + ";"@ + optional_digits(self.delay) + ";"@
            + optional_variation(self.variation)
    }

    /// The sound code as it is written.
    pub fn to_string(&self) -> (r: String)
        ensures
            r@ == self.text(),
    {
        let mut out = String::new();
        push_optional_number(&mut out, self.frequency);
        text::append(&mut out, ";");
        push_optional_number(&mut out, self.duration);
        text::append(&mut out, ";");
        push_optional_digits(&mut out, self.cycles);
        text::append(&mut out, ";");
        push_optional_digits(&mut out, self.delay);
        text::append(&mut out, ";");
        match self.variation {
            Some(variation) => {
                let written = variation.to_string();
                text::append(&mut out, written.as_str());
            },
            None => {},
        }
        proof {
            assert(out@ =~= self.text());
        }
        out
    }
}

impl MusicEntity {
    /// The entity as it is written in music.
    pub open spec fn text(self) -> Seq<char> {
        match self {
            MusicEntity::Operation(operation) => operation.text(),
            MusicEntity::Tempo(value) => "T"@ + text::decimal_digits(value as nat),
            MusicEntity::Octave(value) => "O"@ + text::decimal_digits(value as nat),
            MusicEntity::Length(value) => "L"@ + text::decimal_digits(value as nat),
            MusicEntity::RawNote(value) => "N"@ + text::decimal_digits(value as nat),
            MusicEntity::Pause(value) => "P"@ + text::decimal_digits(value as nat),
            MusicEntity::IncreaseOctave => ">"@,
            MusicEntity::DecreaseOctave => "<"@,
            MusicEntity::Note { note, info } => note.text() + info.text(),
            MusicEntity::SoundCode(info) => info.text(),
        }
    }

    /// The entity as it is written in music.
    pub fn to_string(&self) -> (r: String)
        ensures
            r@ == self.text(),
    {
        match self {
            MusicEntity::Operation(operation) => operation.to_string(),
            MusicEntity::Tempo(value) => letter_and_number("T", *value),
            MusicEntity::Octave(value) => letter_and_number("O", *value),
            MusicEntity::Length(value) => letter_and_number("L", *value),
            MusicEntity::RawNote(value) => letter_and_number("N", *value),
            MusicEntity::Pause(value) => letter_and_number("P", *value),
            MusicEntity::IncreaseOctave => text::string_of(">"),
            MusicEntity::DecreaseOctave => text::string_of("<"),
            MusicEntity::Note { note, info } => {
                let mut out = note.to_string();
                let rest = info.to_string();
                text::append(&mut out, rest.as_str());
                out
            },
            MusicEntity::SoundCode(info) => info.to_string(),
        }
    }
}

/// A letter and a number in decimal behind it.
pub fn letter_and_number(letter: &str, value: usize) -> (r: String)
    ensures
        r@ == letter@ + text::decimal_digits(value as nat),
{
    let mut out = text::string_of(letter);
    let digits = text::decimal_string(value);
    text::append(&mut out, digits.as_str());
    out
}

/// The entities as they are written in music, with a space between each two.
pub open spec fn track_text(track: Seq<MusicEntity>) -> Seq<char>
    decreases track.len(),
{
    if track.len() == 0 {
        Seq::empty()
    } else if track.len() == 1 {
        track[0].text()
    } else {
        track_text(track.drop_last()) + " "@ + track.last().text()
    }
}

impl Music {
    /// The track as it is written in music.
    pub fn to_string(&self) -> (r: String)
        ensures
            r@ == track_text(self@),
    {
        let mut out = String::new();
        let mut i: usize = 0;
        while i < self.entities.len()
            invariant
                i <= self.entities@.len(),
                out@ == track_text(self.entities@.take(i as int)),
            decreases self.entities@.len() - i,
        {
            proof {
                assert(self.entities@.take(i + 1).drop_last() =~= self.entities@.take(i as int));
            }
            if i > 0 {
                text::append(&mut out, " ");
            }
            let written = self.entities[i].to_string();
            text::append(&mut out, written.as_str());
            proof {
                if i == 0 {
                    assert(out@ =~= self.entities@[0].text());
                }
            }
            i += 1;
        }
        proof {
            assert(self.entities@.take(i as int) =~= self.entities@);
        }
        out
    }
}

/// The lowest eight bits of the number of a character.
pub open spec fn low_byte_of(ch: char) -> u8 {
    (ch as u32 % 256) as u8
}

/// The lowest eight bits of each character.
pub open spec fn low_bytes(chars: Seq<char>) -> Seq<u8> {
    chars.map_values(|ch: char| low_byte_of(ch))
}

/// The lowest eight bits of the number of a character.
pub fn low_byte(ch: char) -> (r: u8)
    ensures
        r == low_byte_of(ch),
{
    ((ch as u32) % 256) as u8
}

} // verus!
