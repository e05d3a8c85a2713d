//! The tokenizer of a stream of terminal art.
//!
//! [`AnsiParser`] walks over the bytes that were handed to it and yields one [`Sequence`] for
//! each call of [`AnsiParser::next`]: a glyph, a cursor movement, a change of rendition, the
//! metadata record of the file, a track of music, or the pacing marker `Update`.
//!
//! The bytes are read in one of seven states. In the state `Literal` a byte is a glyph or one
//! of the control bytes. `ESC [` opens a control sequence, whose parameters run up to a
//! terminator in the range `@` to `~`. The end-of-file byte opens a probe for a metadata
//! trailer: the comment block `COMNT`, or the record `SAUCE00` at once. Where neither
//! follows, the end-of-file byte is yielded as a glyph and the bytes behind it are read
//! again as ordinary bytes. The terminator `M` opens a block of music, which the shift-out
//! byte closes.
//!
//! With a baud rate, an `Update` follows whenever the number of bytes that were read reaches
//! a multiple of the bytes of one sixtieth of a second, `baud_rate / 8 / 60`.

use vstd::prelude::*;
use vstd::slice::{slice_subrange, slice_to_vec};
use crate::ascii;
use crate::cp437::slices_equal;
use crate::music::{Music, MusicEntity};
use crate::music_sequence_iterator::track_from;
use crate::number::{values, IntoNumberSequenceIter, NumberSequenceIterator};
use crate::sauce::layout::{decode, SauceView};
use crate::sauce::{Sauce, SauceError, COMNT_HEAD, SAUCE_HEAD};

verus! {

/// What the tokenizer yields.
#[derive(Clone, Debug, PartialEq, Eq)]
pub enum Sequence {
    Literal(u8),
    CarriageReturn,
    LineFeed,
    Tab,
    CursorUp(usize),
    CursorDown(usize),
    CursorForward(usize),
    CursorBack(usize),
    /// Row and column count from zero.
    CursorPosition { row: usize, column: usize },
    SetScreenMode(usize),
    ResetScreenMode(usize),
    EraseDisplay(usize),
    EraseInLine(usize),
    SelectGraphicsRendition(Vec<usize>),
    SavePosition,
    RestorePosition,
    SauceRecord(Box<Sauce>),
    TrueColourBg { r: u8, g: u8, b: u8 },
    TrueColourFg { r: u8, g: u8, b: u8 },
    Music(Music),
    Unknown { bytes: Vec<u8>, terminator: u8 },
    /// The pacing marker.
    Update,
}

/// What the tokenizer yields, as plain values.
pub enum SequenceView {
    Literal(u8),
    CarriageReturn,
    LineFeed,
    Tab,
    CursorUp(usize),
    CursorDown(usize),
    CursorForward(usize),
    CursorBack(usize),
    CursorPosition { row: usize, column: usize },
    SetScreenMode(usize),
    ResetScreenMode(usize),
    EraseDisplay(usize),
    EraseInLine(usize),
    SelectGraphicsRendition(Seq<usize>),
    SavePosition,
    RestorePosition,
    SauceRecord(SauceView),
    TrueColourBg { r: u8, g: u8, b: u8 },
    TrueColourFg { r: u8, g: u8, b: u8 },
    Music(Seq<MusicEntity>),
    Unknown { bytes: Seq<u8>, terminator: u8 },
    Update,
}

impl View for Sequence {
    type V = SequenceView;

    open spec fn view(&self) -> SequenceView {
        match self {
            Sequence::Literal(byte) => SequenceView::Literal(*byte),
            Sequence::CarriageReturn => SequenceView::CarriageReturn,
            Sequence::LineFeed => SequenceView::LineFeed,
            Sequence::Tab => SequenceView::Tab,
            Sequence::CursorUp(amount) => SequenceView::CursorUp(*amount),
            Sequence::CursorDown(amount) => SequenceView::CursorDown(*amount),
            Sequence::CursorForward(amount) => SequenceView::CursorForward(*amount),
            Sequence::CursorBack(amount) => SequenceView::CursorBack(*amount),
            Sequence::CursorPosition { row, column } => SequenceView::CursorPosition {
                row: *row,
                column: *column,
            },
            Sequence::SetScreenMode(value) => SequenceView::SetScreenMode(*value),
            Sequence::ResetScreenMode(value) => SequenceView::ResetScreenMode(*value),
            Sequence::EraseDisplay(value) => SequenceView::EraseDisplay(*value),
            Sequence::EraseInLine(value) => SequenceView::EraseInLine(*value),
            Sequence::SelectGraphicsRendition(values) => SequenceView::SelectGraphicsRendition(
                values@,
            ),
            Sequence::SavePosition => SequenceView::SavePosition,
            Sequence::RestorePosition => SequenceView::RestorePosition,
            Sequence::SauceRecord(sauce) => SequenceView::SauceRecord(sauce@),
            Sequence::TrueColourBg { r, g, b } => SequenceView::TrueColourBg {
                r: *r,
                g: *g,
                b: *b,
            },
            Sequence::TrueColourFg { r, g, b } => SequenceView::TrueColourFg {
                r: *r,
                g: *g,
                b: *b,
            },
            Sequence::Music(music) => SequenceView::Music(music@),
            Sequence::Unknown { bytes, terminator } => SequenceView::Unknown {
                bytes: bytes@,
                terminator: *terminator,
            },
            Sequence::Update => SequenceView::Update,
        }
    }
}

/// The view of what a call may yield.
pub open spec fn yielded(event: Option<Sequence>) -> Option<SequenceView> {
    match event {
        Some(event) => Some(event@),
        None => None,
    }
}

/// The states of the tokenizer. The numbers are indices into the bytes.
#[derive(Clone, Copy, Debug, PartialEq, Eq, Structural)]
pub enum State {
    Literal,
    /// Behind an escape byte.
    Escape,
    /// Behind an end-of-file byte; the probed bytes begin at the index.
    EndOfFile(usize),
    /// Within a control sequence; its parameters begin at the index.
    Sequence(usize),
    /// Within a record that begins at `sauce_start`.
    SauceRecord { eof_start: usize, sauce_start: usize },
    /// Within a comment block whose lines begin at `comments_start`.
    SauceComment { eof_start: usize, comments_start: usize },
    /// Within a block of music that begins at the index, on its `M`.
    Music(usize),
}

/// What a control sequence comes to.
pub enum Outcome {
    /// The sequence yields an event.
    Event(Sequence),
    /// The sequence is over and yields nothing.
    Nothing,
    /// The sequence opens a block of music.
    Music,
    /// The byte was no terminator: the sequence goes on.
    Continue,
}

/// What a control sequence comes to, as plain values.
pub enum OutcomeView {
    Event(SequenceView),
    Nothing,
    Music,
    Continue,
}

impl View for Outcome {
    type V = OutcomeView;

    open spec fn view(&self) -> OutcomeView {
        match self {
            Outcome::Event(event) => OutcomeView::Event(event@),
            Outcome::Nothing => OutcomeView::Nothing,
            Outcome::Music => OutcomeView::Music,
            Outcome::Continue => OutcomeView::Continue,
        }
    }
}

/// The first number of a list, or `default` where the list is empty.
pub open spec fn first_or(list: Seq<usize>, default: usize) -> usize {
    if list.len() > 0 {
        list[0]
    } else {
        default
    }
}

/// The second number of a list, or `default` where the list has none.
pub open spec fn second_or(list: Seq<usize>, default: usize) -> usize {
    if list.len() > 1 {
        list[1]
    } else {
        default
    }
}

/// A position that counts from one, as one that counts from zero. Zero stays zero.
pub open spec fn from_one(value: usize) -> usize {
    if value > 0 {
        (value - 1) as usize
    } else {
        0
    }
}

/// What the true-colour sequence with the parameters `list` yields: the first number
/// chooses background (0) or foreground (1), the next three are red, green and blue. The
/// sequence yields nothing where a number is missing, a colour does not fit a byte, or the
/// first number is neither 0 nor 1.
pub open spec fn true_colour(list: Seq<usize>) -> OutcomeView {
    if list.len() >= 4 && list[1] <= 255 && list[2] <= 255 && list[3] <= 255 {
        if list[0] == 0 {
            OutcomeView::Event(
                SequenceView::TrueColourBg { r: list[1] as u8, g: list[2] as u8, b: list[3] as u8 },
            )
        } else if list[0] == 1 {
            OutcomeView::Event(
                SequenceView::TrueColourFg { r: list[1] as u8, g: list[2] as u8, b: list[3] as u8 },
            )
        } else {
            OutcomeView::Nothing
        }
    } else {
        OutcomeView::Nothing
    }
}

/// What the control sequence with the parameter bytes `params` comes to at the byte
/// `terminator`.
pub open spec fn control_sequence(params: Seq<u8>, terminator: u8) -> OutcomeView {
    let plain = values(params, None);
    let ones = values(params, Some(1usize));
    let zeros = values(params, Some(0usize));
    if terminator == ascii::UPPERCASE_A {
        OutcomeView::Event(SequenceView::CursorUp(first_or(ones, 1)))
    } else if terminator == ascii::UPPERCASE_B {
        OutcomeView::Event(SequenceView::CursorDown(first_or(ones, 1)))
    } else if terminator == ascii::UPPERCASE_C {
        OutcomeView::Event(SequenceView::CursorForward(first_or(ones, 1)))
    } else if terminator == ascii::UPPERCASE_D {
        OutcomeView::Event(SequenceView::CursorBack(first_or(ones, 1)))
    } else if terminator == ascii::LOWERCASE_F || terminator == ascii::UPPERCASE_H {
        OutcomeView::Event(
            SequenceView::CursorPosition {
                row: from_one(first_or(ones, 1)),
                column: from_one(second_or(ones, 1)),
            },
        )
    } else if terminator == ascii::LOWERCASE_H {
        if plain.len() > 0 {
            OutcomeView::Event(SequenceView::SetScreenMode(plain[0]))
        } else {
            OutcomeView::Nothing
        }
    } else if terminator == ascii::LOWERCASE_L {
        if plain.len() > 0 {
            OutcomeView::Event(SequenceView::ResetScreenMode(plain[0]))
        } else {
            OutcomeView::Nothing
        }
    } else if terminator == ascii::UPPERCASE_J {
        OutcomeView::Event(SequenceView::EraseDisplay(first_or(zeros, 0)))
    } else if terminator == ascii::UPPERCASE_K {
        OutcomeView::Event(SequenceView::EraseInLine(first_or(zeros, 0)))
    } else if terminator == ascii::UPPERCASE_M {
        OutcomeView::Music
    } else if terminator == ascii::LOWERCASE_M {
        OutcomeView::Event(SequenceView::SelectGraphicsRendition(plain))
    } else if terminator == ascii::LOWERCASE_S {
        OutcomeView::Event(SequenceView::SavePosition)
    } else if terminator == ascii::LOWERCASE_T {
        true_colour(plain)
    } else if terminator == ascii::LOWERCASE_U {
        OutcomeView::Event(SequenceView::RestorePosition)
    } else if ascii::AT_SIGN <= terminator <= ascii::TILDE {
        OutcomeView::Event(SequenceView::Unknown { bytes: params, terminator })
    } else {
        OutcomeView::Continue
    }
}

/// The first number of the list `params`, read with `default` for an empty segment, or
/// `default` where the list yields none.
pub fn first_number(params: &[u8], default: usize) -> (r: usize)
    ensures
        r == first_or(values(params@, Some(default)), default),
{
    let mut list = params.into_sequence_iter_with_default(default);
    match list.next() {
        Some(value) => value,
        None => default,
    }
}

/// The first number of the list `params`, read without a default, if it yields one.
pub fn first_plain_number(params: &[u8]) -> (r: Option<usize>)
    ensures
        match r {
            Some(value) => values(params@, None).len() > 0 && value == values(params@, None)[0],
            None => values(params@, None).len() == 0,
        },
{
    let mut list = params.into_sequence_iter();
    list.next()
}

/// A position that counts from one, as one that counts from zero.
pub fn position_from_one(value: usize) -> (r: usize)
    ensures
        r == from_one(value),
{
    if value > 0 {
        value - 1
    } else {
        0
    }
}

/// What the true-colour sequence with the parameter bytes `params` yields.
pub fn true_colour_sequence(params: &[u8]) -> (r: Outcome)
    ensures
        r@ == true_colour(values(params@, None)),
{
    let mut list = params.into_sequence_iter();
    let ghost all = list.remaining();
    let first = list.next();
    let second = list.next();
    let third = list.next();
    let fourth = list.next();
    match (first, second, third, fourth) {
        (Some(selector), Some(red), Some(green), Some(blue)) => {
            proof {
                assert(all.len() >= 4);
                assert(all[0] == selector && all[1] == red && all[2] == green && all[3] == blue);
            }
            if red <= 255 && green <= 255 && blue <= 255 {
                if selector == 0 {
                    Outcome::Event(
                        Sequence::TrueColourBg { r: red as u8, g: green as u8, b: blue as u8 },
                    )
                } else if selector == 1 {
                    Outcome::Event(
                        Sequence::TrueColourFg { r: red as u8, g: green as u8, b: blue as u8 },
                    )
                } else {
                    Outcome::Nothing
                }
            } else {
                Outcome::Nothing
            }
        },
        _ => {
            proof {
                assert(all.len() < 4);
            }
            Outcome::Nothing
        },
    }
}

/// What the control sequence with the parameter bytes `params` comes to at the byte
/// `terminator`.
pub fn read_control_sequence(params: &[u8], terminator: u8) -> (r: Outcome)
    ensures
        r@ == control_sequence(params@, terminator),
{
    if terminator == ascii::UPPERCASE_A {
        Outcome::Event(Sequence::CursorUp(first_number(params, 1)))
    } else if terminator == ascii::UPPERCASE_B {
        Outcome::Event(Sequence::CursorDown(first_number(params, 1)))
    } else if terminator == ascii::UPPERCASE_C {
        Outcome::Event(Sequence::CursorForward(first_number(params, 1)))
    } else if terminator == ascii::UPPERCASE_D {
        Outcome::Event(Sequence::CursorBack(first_number(params, 1)))
    } else if terminator == ascii::LOWERCASE_F || terminator == ascii::UPPERCASE_H {
        let mut list = params.into_sequence_iter_with_default(1);
        let ghost all = list.remaining();
        let first = list.next();
        let second = list.next();
        let row = match first {
            Some(value) => value,
            None => 1,
        };
        let column = match second {
            Some(value) => value,
            None => 1,
        };
        proof {
            assert(row == first_or(all, 1));
            assert(column == second_or(all, 1));
        }
        Outcome::Event(
            Sequence::CursorPosition {
                row: position_from_one(row),
                column: position_from_one(column),
            },
        )
    } else if terminator == ascii::LOWERCASE_H {
        match first_plain_number(params) {
            Some(value) => Outcome::Event(Sequence::SetScreenMode(value)),
            None => Outcome::Nothing,
        }
    } else if terminator == ascii::LOWERCASE_L {
        match first_plain_number(params) {
            Some(value) => Outcome::Event(Sequence::ResetScreenMode(value)),
            None => Outcome::Nothing,
        }
    } else if terminator == ascii::UPPERCASE_J {
        Outcome::Event(Sequence::EraseDisplay(first_number(params, 0)))
    } else if terminator == ascii::UPPERCASE_K {
        Outcome::Event(Sequence::EraseInLine(first_number(params, 0)))
    } else if terminator == ascii::UPPERCASE_M {
        Outcome::Music
    } else if terminator == ascii::LOWERCASE_M {
        let mut list = params.into_sequence_iter();
        Outcome::Event(Sequence::SelectGraphicsRendition(list.collect()))
    } else if terminator == ascii::LOWERCASE_S {
        Outcome::Event(Sequence::SavePosition)
    } else if terminator == ascii::LOWERCASE_T {
        true_colour_sequence(params)
    } else if terminator == ascii::LOWERCASE_U {
        Outcome::Event(Sequence::RestorePosition)
    } else if ascii::AT_SIGN <= terminator && terminator <= ascii::TILDE {
        Outcome::Event(Sequence::Unknown { bytes: slice_to_vec(params), terminator })
    } else {
        Outcome::Continue
    }
}

/// The number of bytes after which an `Update` is due: the bytes of one sixtieth of a second
/// at `baud_rate`. Zero stands for never.
pub open spec fn interval_of(baud_rate: Option<usize>) -> nat {
    match baud_rate {
        Some(rate) => (rate / 8 / 60) as nat,
        None => 0,
    }
}

/// The tokenizer as a plain value.
pub struct ParserView {
    pub state: State,
    pub bytes: Seq<u8>,
    /// The index of the next byte to read.
    pub position: usize,
    pub baud_rate: Option<usize>,
    /// The number of bytes that were read at least once.
    pub consumed: usize,
    /// An `Update` is to be yielded next.
    pub update_due: bool,
    /// Why the last trailer that was found could not be read, if it could not.
    pub error: Option<SauceError>,
}

/// What reading one byte comes to: the state and the position behind it, what it yields,
/// and the error that it raises.
pub struct Step {
    pub state: State,
    pub position: usize,
    pub event: Option<SequenceView>,
    pub error: Option<SauceError>,
}

impl ParserView {
    /// The tokenizer before any byte was handed to it.
    pub open spec fn fresh(baud_rate: Option<usize>) -> ParserView {
        ParserView {
            state: State::Literal,
            bytes: Seq::empty(),
            position: 0,
            baud_rate,
            consumed: 0,
            update_due: false,
            error: None,
        }
    }

    /// No byte behind the cursor is counted as not read, and the indices of the state lie
    /// before the cursor, as far from it as the state says.
    pub open spec fn wf(self) -> bool {
        &&& self.position <= self.consumed
        &&& match self.state {
            State::Literal => true,
            State::Escape => true,
            State::EndOfFile(eof_start) => eof_start <= self.position < eof_start + 7,
            State::Sequence(start) => start <= self.position,
            State::SauceRecord { eof_start, sauce_start } => eof_start <= sauce_start
                && sauce_start + 7 <= self.position < sauce_start + 128,
            State::SauceComment { eof_start, comments_start } => eof_start + 5 == comments_start
                && comments_start <= self.position,
            State::Music(start) => start < self.position,
        }
    }

    /// The number of bytes after which an `Update` is due, zero for never.
    pub open spec fn interval(self) -> nat {
        interval_of(self.baud_rate)
    }

    /// The byte to read next.
    pub open spec fn byte(self) -> u8 {
        self.bytes[self.position as int]
    }

    /// The position behind the byte to read next.
    pub open spec fn behind(self) -> usize {
        (self.position + 1) as usize
    }

    /// Reading a byte in the state `Literal`.
    pub open spec fn step_literal(self) -> Step {
        let byte = self.byte();
        let position = self.behind();
        if byte == ascii::HORIZONTAL_TAB {
            Step { state: State::Literal, position, event: Some(SequenceView::Tab), error: None }
        } else if byte == ascii::LINE_FEED {
            Step {
                state: State::Literal,
                position,
                event: Some(SequenceView::LineFeed),
                error: None,
            }
        } else if byte == ascii::CARRIAGE_RETURN {
            Step {
                state: State::Literal,
                position,
                event: Some(SequenceView::CarriageReturn),
                error: None,
            }
        } else if byte == ascii::END_OF_FILE {
            Step { state: State::EndOfFile(position), position, event: None, error: None }
        } else if byte == ascii::ESCAPE {
            Step { state: State::Escape, position, event: None, error: None }
        } else {
            Step {
                state: State::Literal,
                position,
                event: Some(SequenceView::Literal(byte)),
                error: None,
            }
        }
    }

    /// Reading the byte behind an escape byte: `[` opens a control sequence, any other byte
    /// is yielded as a glyph.
    pub open spec fn step_escape(self) -> Step {
        let byte = self.byte();
        let position = self.behind();
        if byte == ascii::LEFT_SQUARE_BRACKET {
            Step { state: State::Sequence(position), position, event: None, error: None }
        } else {
            Step {
                state: State::Literal,
                position,
                event: Some(SequenceView::Literal(byte)),
                error: None,
            }
        }
    }

    /// Reading a byte of a control sequence whose parameters begin at `start`.
    pub open spec fn step_sequence(self, start: usize) -> Step {
        let position = self.behind();
        match control_sequence(
            self.bytes.subrange(start as int, self.position as int),
            self.byte(),
        ) {
            OutcomeView::Event(event) => Step {
                state: State::Literal,
                position,
                event: Some(event),
                error: None,
            },
            OutcomeView::Nothing => Step {
                state: State::Literal,
                position,
                event: None,
                error: None,
            },
            OutcomeView::Music => Step {
                state: State::Music(self.position),
                position,
                event: None,
                error: None,
            },
            OutcomeView::Continue => Step {
                state: State::Sequence(start),
                position,
                event: None,
                error: None,
            },
        }
    }

    /// Reading a byte of the probe behind an end-of-file byte. After five bytes that read
    /// `COMNT` a comment block is scanned; after seven bytes that read `SAUCE00` a record is
    /// scanned; after seven other bytes the end-of-file byte is yielded as a glyph, and the
    /// reading goes back to the first byte behind it.
    pub open spec fn step_end_of_file(self, eof_start: usize) -> Step {
        let position = self.behind();
        let probed = self.bytes.subrange(eof_start as int, position as int);
        if position - eof_start == 5 && probed == COMNT_HEAD@ {
            Step {
                state: State::SauceComment { eof_start, comments_start: position },
                position,
                event: None,
                error: None,
            }
        } else if position - eof_start == 7 {
            if probed == SAUCE_HEAD@ {
                Step {
                    state: State::SauceRecord { eof_start, sauce_start: eof_start },
                    position,
                    event: None,
                    error: None,
                }
            } else {
                Step {
                    state: State::Literal,
                    position: eof_start,
                    event: Some(SequenceView::Literal(ascii::END_OF_FILE)),
                    error: None,
                }
            }
        } else {
            Step { state: State::EndOfFile(eof_start), position, event: None, error: None }
        }
    }

    /// Reading a byte of a comment block. Where the seven bytes up to here read `SAUCE00`
    /// and begin a whole number of lines, and at least one, behind the start of the lines, a
    /// record is scanned from their first byte on.
    pub open spec fn step_comment(self, eof_start: usize, comments_start: usize) -> Step {
        let position = self.behind();
        let offset = position - comments_start;
        if offset >= 71 && (offset - 7) % 64 == 0 && self.bytes.subrange(position - 7, position as int)
            == SAUCE_HEAD@ {
            Step {
                state: State::SauceRecord { eof_start, sauce_start: (position - 7) as usize },
                position,
                event: None,
                error: None,
            }
        } else {
            Step {
                state: State::SauceComment { eof_start, comments_start },
                position,
                event: None,
                error: None,
            }
        }
    }

    /// Reading a byte of a record. With its last byte, the bytes from behind the end-of-file
    /// byte up to here are decoded: the record is yielded, or the error is kept.
    pub open spec fn step_record(self, eof_start: usize, sauce_start: usize) -> Step {
        let position = self.behind();
        if position - sauce_start == 128 {
            match decode(self.bytes.subrange(eof_start as int, position as int)) {
                Ok(record) => Step {
                    state: State::Literal,
                    position,
                    event: Some(SequenceView::SauceRecord(record)),
                    error: None,
                },
                Err(error) => Step {
                    state: State::Literal,
                    position,
                    event: None,
                    error: Some(error),
                },
            }
        } else {
            Step {
                state: State::SauceRecord { eof_start, sauce_start },
                position,
                event: None,
                error: None,
            }
        }
    }

    /// Reading a byte of a block of music that began at `start`. The shift-out byte closes
    /// the block, and the track of the bytes before it is yielded.
    pub open spec fn step_music(self, start: usize) -> Step {
        let position = self.behind();
        if self.byte() == ascii::SHIFT_OUT {
            Step {
                state: State::Literal,
                position,
                event: Some(
                    SequenceView::Music(
                        track_from(self.bytes.subrange(start as int, self.position as int), 0),
                    ),
                ),
                error: None,
            }
        } else {
            Step { state: State::Music(start), position, event: None, error: None }
        }
    }

    /// Reading the next byte.
    pub open spec fn step(self) -> Step {
        match self.state {
            State::Literal => self.step_literal(),
            State::Escape => self.step_escape(),
            State::EndOfFile(eof_start) => self.step_end_of_file(eof_start),
            State::Sequence(start) => self.step_sequence(start),
            State::SauceRecord { eof_start, sauce_start } => self.step_record(
                eof_start,
                sauce_start,
            ),
            State::SauceComment { eof_start, comments_start } => self.step_comment(
                eof_start,
                comments_start,
            ),
            State::Music(start) => self.step_music(start),
        }
    }

    /// The tokenizer after the next byte was read. An `Update` becomes due where the byte
    /// was read for the first time and the number of bytes read is a multiple of the
    /// interval.
    pub open spec fn advanced(self) -> ParserView {
        let step = self.step();
        let behind = self.behind();
        let first_time = behind > self.consumed;
        ParserView {
            state: step.state,
            bytes: self.bytes,
            position: step.position,
            baud_rate: self.baud_rate,
            consumed: if first_time {
                behind
            } else {
                self.consumed
            },
            update_due: first_time && self.interval() > 0 && behind as nat % self.interval() == 0,
            error: match step.error {
                Some(error) => Some(error),
                None => self.error,
            },
        }
    }

    /// What the next call yields, and the tokenizer after it: a due `Update`; else what the
    /// reading of bytes comes to, up to the first byte that yields something; `None` where
    /// the bytes are used up before.
    pub open spec fn next_event(self) -> (ParserView, Option<SequenceView>)
        decreases self.bytes.len() - self.position,
    {
        if self.update_due {
            (ParserView { update_due: false, ..self }, Some(SequenceView::Update))
        } else if self.position >= self.bytes.len() {
            (self, None)
        } else if self.step().event is Some || self.advanced().position <= self.position {
            (self.advanced(), self.step().event)
        } else {
            self.advanced().next_event()
        }
    }
}

/// The cursor of the tokenizer: what changes in one piece with every byte.
struct Progress {
    state: State,
    position: usize,
    consumed: usize,
    update_due: bool,
}

/// The tokenizer of a stream of terminal art.
pub struct AnsiParser {
    progress: Progress,
    bytes: Vec<u8>,
    baud_rate: Option<usize>,
    error: Option<SauceError>,
}

impl View for AnsiParser {
    type V = ParserView;

    closed spec fn view(&self) -> ParserView {
        ParserView {
            state: self.progress.state,
            bytes: self.bytes@,
            position: self.progress.position,
            baud_rate: self.baud_rate,
            consumed: self.progress.consumed,
            update_due: self.progress.update_due,
            error: self.error,
        }
    }
}

impl Default for AnsiParser {
    fn default() -> (r: Self)
        ensures
            r@ == ParserView::fresh(Some(14400usize)),
    {
        AnsiParser::new()
    }
}

impl AnsiParser {
    #[verifier::type_invariant]
    spec fn inv(self) -> bool {
        self@.wf()
    }

    /// A tokenizer without bytes, paced for 14400 baud.
    pub fn new() -> (r: AnsiParser)
        ensures
            r@ == ParserView::fresh(Some(14400usize)),
    {
        AnsiParser::with_pacing(Some(14400))
    }

    /// A tokenizer without bytes, paced for `baud_rate`.
    pub fn with_baud(baud_rate: usize) -> (r: AnsiParser)
        ensures
            r@ == ParserView::fresh(Some(baud_rate)),
    {
        AnsiParser::with_pacing(Some(baud_rate))
    }

    /// A tokenizer without bytes, paced for `baud_rate`, or not paced at all for `None`.
    pub fn with_pacing(baud_rate: Option<usize>) -> (r: AnsiParser)
        ensures
            r@ == ParserView::fresh(baud_rate),
    {
        AnsiParser {
            progress: Progress {
                state: State::Literal,
                position: 0,
                consumed: 0,
                update_due: false,
            },
            bytes: Vec::new(),
            baud_rate,
            error: None,
        }
    }

    /// Hands further bytes to the tokenizer, behind those that it holds.
    pub fn input(&mut self, bytes: Vec<u8>)
        ensures
            final(self)@ == (ParserView { bytes: old(self)@.bytes + bytes@, ..old(self)@ }),
            final(self)@.wf(),
    {
        proof {
            use_type_invariant(&*self);
        }
        let mut bytes = bytes;
        let mut all: Vec<u8> = Vec::new();
        core::mem::swap(&mut self.bytes, &mut all);
        all.append(&mut bytes);
        core::mem::swap(&mut self.bytes, &mut all);
    }

    /// The index of the next byte to read.
    pub fn position(&self) -> (r: usize)
        ensures
            r == self@.position,
            self@.wf(),
    {
        proof {
            use_type_invariant(self);
        }
        self.progress.position
    }

    /// The number of bytes that the tokenizer holds.
    pub fn len(&self) -> (r: usize)
        ensures
            r == self@.bytes.len(),
    {
        self.bytes.len()
    }

    /// The number of bytes after which an `Update` is due, zero for never.
    pub fn interval(&self) -> (r: usize)
        ensures
            r == self@.interval(),
    {
        match self.baud_rate {
            Some(rate) => rate / 8 / 60,
            None => 0,
        }
    }

    /// Why the last trailer that was found could not be read, if it could not. The error is
    /// kept until the next one.
    pub fn last_error(&self) -> (r: &Option<SauceError>)
        ensures
            *r == self@.error,
    {
        &self.error
    }

    /// Hands out why the last trailer that was found could not be read, if it could not,
    /// and forgets it: each error is handed out once.
    pub fn take_error(&mut self) -> (r: Option<SauceError>)
        ensures
            r == old(self)@.error,
            final(self)@ == (ParserView { error: None, ..old(self)@ }),
            final(self)@.wf(),
    {
        proof {
            use_type_invariant(&*self);
        }
        let mut error: Option<SauceError> = None;
        core::mem::swap(&mut self.error, &mut error);
        error
    }

    /// Reads the next byte, in whatever state the tokenizer is.
    fn read_byte(&self) -> (r: (State, usize, Option<Sequence>, Option<SauceError>))
        requires
            self@.wf(),
            self@.position < self@.bytes.len(),
        ensures
            r.0 == self@.step().state,
            r.1 == self@.step().position,
            yielded(r.2) == self@.step().event,
            r.3 == self@.step().error,
    {
        let at = self.progress.position;
        let length = self.bytes.len();
        let byte = self.bytes[at];
        let behind = at + 1;
        let bytes = self.bytes.as_slice();
        match self.progress.state {
            State::Literal => {
                if byte == ascii::HORIZONTAL_TAB {
                    (State::Literal, behind, Some(Sequence::Tab), None)
                } else if byte == ascii::LINE_FEED {
                    (State::Literal, behind, Some(Sequence::LineFeed), None)
                } else if byte == ascii::CARRIAGE_RETURN {
                    (State::Literal, behind, Some(Sequence::CarriageReturn), None)
                } else if byte == ascii::END_OF_FILE {
                    (State::EndOfFile(behind), behind, None, None)
                } else if byte == ascii::ESCAPE {
                    (State::Escape, behind, None, None)
                } else {
                    (State::Literal, behind, Some(Sequence::Literal(byte)), None)
                }
            },
            State::Escape => {
                if byte == ascii::LEFT_SQUARE_BRACKET {
                    (State::Sequence(behind), behind, None, None)
                } else {
                    (State::Literal, behind, Some(Sequence::Literal(byte)), None)
                }
            },
            State::Sequence(start) => {
                match read_control_sequence(slice_subrange(bytes, start, at), byte) {
                    Outcome::Event(event) => (State::Literal, behind, Some(event), None),
                    Outcome::Nothing => (State::Literal, behind, None, None),
                    Outcome::Music => (State::Music(at), behind, None, None),
                    Outcome::Continue => (State::Sequence(start), behind, None, None),
                }
            },
            State::EndOfFile(eof_start) => {
                let probed = slice_subrange(bytes, eof_start, behind);
                if behind - eof_start == 5 && slices_equal(probed, COMNT_HEAD.as_slice()) {
                    (
                        State::SauceComment { eof_start, comments_start: behind },
                        behind,
                        None,
                        None,
                    )
                } else if behind - eof_start == 7 {
                    if slices_equal(probed, SAUCE_HEAD.as_slice()) {
                        (
                            State::SauceRecord { eof_start, sauce_start: eof_start },
                            behind,
                            None,
                            None,
                        )
                    } else {
                        (
                            State::Literal,
                            eof_start,
                            Some(Sequence::Literal(ascii::END_OF_FILE)),
                            None,
                        )
                    }
                } else {
                    (State::EndOfFile(eof_start), behind, None, None)
                }
            },
            State::SauceComment { eof_start, comments_start } => {
                let offset = behind - comments_start;
                if offset >= 71 && (offset - 7) % 64 == 0 && slices_equal(
                    slice_subrange(bytes, behind - 7, behind),
                    SAUCE_HEAD.as_slice(),
                ) {
                    (
                        State::SauceRecord { eof_start, sauce_start: behind - 7 },
                        behind,
                        None,
                        None,
                    )
                } else {
                    (State::SauceComment { eof_start, comments_start }, behind, None, None)
                }
            },
            State::SauceRecord { eof_start, sauce_start } => {
                if behind - sauce_start == 128 {
                    match Sauce::decode(slice_subrange(bytes, eof_start, behind)) {
                        Ok(sauce) => (
                            State::Literal,
                            behind,
                            Some(Sequence::SauceRecord(Box::new(sauce))),
                            None,
                        ),
                        Err(error) => (State::Literal, behind, None, Some(error)),
                    }
                } else {
                    (State::SauceRecord { eof_start, sauce_start }, behind, None, None)
                }
            },
            State::Music(start) => {
                if byte == ascii::SHIFT_OUT {
                    let music = Music::new(slice_subrange(bytes, start, at));
                    (State::Literal, behind, Some(Sequence::Music(music)), None)
                } else {
                    (State::Music(start), behind, None, None)
                }
            },
        }
    }

    /// Reads the next byte and keeps the books of the pacing.
    fn advance(&mut self) -> (r: Option<Sequence>)
        requires
            old(self)@.position < old(self)@.bytes.len(),
        ensures
            final(self)@ == old(self)@.advanced(),
            yielded(r) == old(self)@.step().event,
            final(self)@.wf(),
    {
        let length = self.bytes.len();
        proof {
            use_type_invariant(&*self);
            lemma_step_wf(self@);
        }
        let behind = self.progress.position + 1;
        let interval = self.interval();
        let (state, position, event, error) = self.read_byte();
        let first_time = behind > self.progress.consumed;
        let consumed = if first_time {
            behind
        } else {
            self.progress.consumed
        };
        let update_due = first_time && interval > 0 && behind % interval == 0;
        if let Some(error) = error {
            self.error = Some(error);
        }
        self.progress = Progress { state, position, consumed, update_due };
        event
    }

    /// Yields the next event: an `Update` that is due, or what the bytes come to. `None`
    /// tells that the bytes are used up; after more bytes were handed in, the reading goes
    /// on where it stopped.
    pub fn next(&mut self) -> (r: Option<Sequence>)
        ensures
            final(self)@ == old(self)@.next_event().0,
            yielded(r) == old(self)@.next_event().1,
            final(self)@.wf(),
    {
        loop
            invariant
                self@.next_event() == old(self)@.next_event(),
            decreases self@.bytes.len() - self@.position,
        {
            proof {
                use_type_invariant(&*self);
            }
            if self.progress.update_due {
                self.progress = Progress {
                    state: self.progress.state,
                    position: self.progress.position,
                    consumed: self.progress.consumed,
                    update_due: false,
                };
                return Some(Sequence::Update);
            }
            if self.progress.position >= self.bytes.len() {
                return None;
            }
            proof {
                lemma_step_wf(self@);
            }
            let event = self.advance();
            if event.is_some() {
                return event;
            }
        }
    }
}

/// Reading a byte keeps the tokenizer well-formed, and moves it on by one byte unless it
/// yields something.
pub proof fn lemma_step_wf(parser: ParserView)
    requires
        parser.wf(),
        parser.position < parser.bytes.len() <= usize::MAX,
    ensures
        parser.advanced().wf(),
        parser.advanced().bytes == parser.bytes,
        parser.step().event is None ==> parser.advanced().position == parser.position + 1,
        parser.advanced().position <= parser.position + 1,
{
}

} // verus!
