//! The tokenizer of ANSI Music.
//!
//! The first byte of a token chooses its rule:
//!
//! * a letter `A` to `G`, in either case, begins a note: an optional sign (`+` or `#` for
//!   sharp, `-` for flat), an optional length in digits, and any number of `,`, each of which
//!   counts as a dot;
//! * `L`, `O`, `N`, `T` and `P` take a number and give a length, an octave, a raw note, a
//!   tempo and a pause;
//! * `M` takes one byte and gives an operation;
//! * `<` and `>` lower and raise the octave;
//! * a digit, `-`, `.` or `;` begins a sound code of five fields;
//! * every other byte is passed over.
//!
//! A token whose number or operation byte is missing or unknown yields no entity.

use vstd::prelude::*;
use crate::ascii;
use crate::music::{
    Articulation, MusicEntity, MusicOperation, Note, NoteInfo, NoteSign, SoundCodeInfo,
    SoundNumber, Variation,
};
use crate::number::{clamped_value, lemma_clamped_push, push_digit};

verus! {

/// The test for an ASCII digit, as a function value.
pub open spec fn digit_pred() -> spec_fn(u8) -> bool {
    |byte: u8| ascii::is_digit(byte)
}

/// The test for a `,`, as a function value.
pub open spec fn comma_pred() -> spec_fn(u8) -> bool {
    |byte: u8| byte == ascii::COMMA
}

/// Filtering a sequence with one more element keeps that element where it passes the test.
pub proof fn lemma_filter_push(s: Seq<u8>, x: u8, pred: spec_fn(u8) -> bool)
    ensures
        s.push(x).filter(pred) == if pred(x) {
            s.filter(pred).push(x)
        } else {
            s.filter(pred)
        },
{
    reveal(Seq::filter);
    assert(s.push(x).drop_last() =~= s);
}

/// Filtering nothing leaves nothing.
pub proof fn lemma_filter_empty(pred: spec_fn(u8) -> bool)
    ensures
        Seq::<u8>::empty().filter(pred) == Seq::<u8>::empty(),
{
    reveal(Seq::filter);
}

/// A byte that goes on a number: a digit, or a space where spaces are passed over.
pub open spec fn int_byte(byte: u8, spaces: bool) -> bool {
    ascii::is_digit(byte) || (spaces && byte == ascii::SPACE)
}

/// The index of the first byte at or after `pos` that does not go on a number, or the length
/// where none follows.
pub open spec fn int_end(bytes: Seq<u8>, pos: int, spaces: bool) -> int
    decreases bytes.len() - pos,
{
    if pos < 0 || pos >= bytes.len() {
        bytes.len() as int
    } else if int_byte(bytes[pos], spaces) {
        int_end(bytes, pos + 1, spaces)
    } else {
        pos
    }
}

/// The digits of the number that begins at `pos`.
pub open spec fn int_digits(bytes: Seq<u8>, pos: int, spaces: bool) -> Seq<u8> {
    bytes.subrange(pos, int_end(bytes, pos, spaces)).filter(digit_pred())
}

/// The number that begins at `pos`: the decimal value of its digits, at most `usize::MAX`,
/// or `None` where there is no digit.
pub open spec fn int_value(bytes: Seq<u8>, pos: int, spaces: bool) -> Option<usize> {
    if int_digits(bytes, pos, spaces).len() == 0 {
        None
    } else {
        Some(clamped_value(int_digits(bytes, pos, spaces)))
    }
}

/// Where the reading stands after the number that begins at `pos`: behind the `;` that
/// follows it where `semi` is set, else behind its last byte.
pub open spec fn int_next(bytes: Seq<u8>, pos: int, spaces: bool, semi: bool) -> int {
    let end = int_end(bytes, pos, spaces);
    if semi && end < bytes.len() && bytes[end] == ascii::SEMI_COLON {
        end + 1
    } else {
        end
    }
}

/// The end of a number lies at or behind its start and within the bytes; every byte before
/// it goes on the number, and the byte at it does not.
pub proof fn lemma_int_end(bytes: Seq<u8>, pos: int, spaces: bool)
    requires
        0 <= pos <= bytes.len(),
    ensures
        pos <= int_end(bytes, pos, spaces) <= bytes.len(),
        forall|i: int| pos <= i < int_end(bytes, pos, spaces) ==> int_byte(bytes[i], spaces),
        int_end(bytes, pos, spaces) < bytes.len() ==> !int_byte(
            bytes[int_end(bytes, pos, spaces)],
            spaces,
        ),
    decreases bytes.len() - pos,
{
    if pos < bytes.len() && int_byte(bytes[pos], spaces) {
        lemma_int_end(bytes, pos + 1, spaces);
    }
}

/// A byte that goes on the dots of a note: a `,` or a space.
pub open spec fn dots_byte(byte: u8) -> bool {
    byte == ascii::COMMA || byte == ascii::SPACE
}

/// The index of the first byte at or after `pos` that does not go on the dots of a note.
pub open spec fn dots_end(bytes: Seq<u8>, pos: int) -> int
    decreases bytes.len() - pos,
{
    if pos < 0 || pos >= bytes.len() {
        bytes.len() as int
    } else if dots_byte(bytes[pos]) {
        dots_end(bytes, pos + 1)
    } else {
        pos
    }
}

/// The number of dots that begin at `pos`: the `,` before the end of the dots.
pub open spec fn dots_count(bytes: Seq<u8>, pos: int) -> nat {
    bytes.subrange(pos, dots_end(bytes, pos)).filter(comma_pred()).len()
}

/// The end of the dots lies at or behind their start and within the bytes.
pub proof fn lemma_dots_end(bytes: Seq<u8>, pos: int)
    requires
        0 <= pos <= bytes.len(),
    ensures
        pos <= dots_end(bytes, pos) <= bytes.len(),
        forall|i: int| pos <= i < dots_end(bytes, pos) ==> dots_byte(bytes[i]),
        dots_end(bytes, pos) < bytes.len() ==> !dots_byte(bytes[dots_end(bytes, pos)]),
    decreases bytes.len() - pos,
{
    if pos < bytes.len() && dots_byte(bytes[pos]) {
        lemma_dots_end(bytes, pos + 1);
    }
}

/// The operation that the byte behind an `M` stands for, if any.
pub open spec fn operation_of(byte: u8) -> Option<MusicOperation> {
    if byte == ascii::UPPERCASE_B {
        Some(MusicOperation::Background)
    } else if byte == ascii::UPPERCASE_F {
        Some(MusicOperation::Foreground)
    } else if byte == ascii::UPPERCASE_L || byte == ascii::LOWERCASE_L {
        Some(MusicOperation::Articulation(Articulation::Legato))
    } else if byte == ascii::UPPERCASE_N || byte == ascii::LOWERCASE_N {
        Some(MusicOperation::Articulation(Articulation::Normal))
    } else if byte == ascii::UPPERCASE_S || byte == ascii::LOWERCASE_S {
        Some(MusicOperation::Articulation(Articulation::Stacato))
    } else if byte == ascii::SPACE {
        Some(MusicOperation::Undefined)
    } else {
        None
    }
}

/// The operation behind an `M` at `pos`, and where the reading stands then. The byte is
/// taken even where it stands for no operation.
pub open spec fn operation_at(bytes: Seq<u8>, pos: int) -> (Option<MusicOperation>, int) {
    if 0 <= pos < bytes.len() {
        (operation_of(bytes[pos]), pos + 1)
    } else {
        (None, pos)
    }
}

/// The sign at `pos`, and where the reading stands then.
pub open spec fn sign_at(bytes: Seq<u8>, pos: int) -> (NoteSign, int) {
    if 0 <= pos < bytes.len() && (bytes[pos] == ascii::PLUS || bytes[pos] == ascii::NUMBER_SIGN) {
        (NoteSign::Sharp, pos + 1)
    } else if 0 <= pos < bytes.len() && bytes[pos] == ascii::MINUS {
        (NoteSign::Flat, pos + 1)
    } else {
        (NoteSign::Natural, pos)
    }
}

/// What follows the letter of a note, read from `pos`, and where the reading stands then.
pub open spec fn note_info_at(bytes: Seq<u8>, pos: int) -> (NoteInfo, int) {
    let (sign, after_sign) = sign_at(bytes, pos);
    let after_length = int_next(bytes, after_sign, false, false);
    (
        NoteInfo {
            sign,
            length: int_value(bytes, after_sign, false),
            dots: dots_count(bytes, after_length) as usize,
        },
        dots_end(bytes, after_length),
    )
}

/// The value of an optional number, zero where there is none.
pub open spec fn or_zero(value: Option<usize>) -> usize {
    match value {
        Some(value) => value,
        None => 0,
    }
}

/// The signed decimal number at `pos`, and where the reading stands then.
///
/// A `;` at once gives no number and is taken; a space at once gives no number and is left.
/// Else the number is an optional `-`, digits, and an optional `.` with digits behind it.
/// It holds where a `;`, which is taken, a space or the end of the bytes follows; any other
/// byte behind it gives no number and is left.
pub open spec fn number_at(bytes: Seq<u8>, pos: int) -> (Option<SoundNumber>, int) {
    if 0 <= pos < bytes.len() && bytes[pos] == ascii::SEMI_COLON {
        (None, pos + 1)
    } else if 0 <= pos < bytes.len() && bytes[pos] == ascii::SPACE {
        (None, pos)
    } else {
        let negative = 0 <= pos < bytes.len() && bytes[pos] == ascii::MINUS;
        let whole_start = if negative {
            pos + 1
        } else {
            pos
        };
        let whole_end = int_end(bytes, whole_start, false);
        let point = whole_end < bytes.len() && bytes[whole_end] == ascii::PERIOD;
        let fraction_start = if point {
            whole_end + 1
        } else {
            whole_end
        };
        let fraction_end = if point {
            int_end(bytes, fraction_start, false)
        } else {
            fraction_start
        };
        let number = SoundNumber {
            negative,
            whole: or_zero(int_value(bytes, whole_start, false)),
            fraction: if point {
                or_zero(int_value(bytes, fraction_start, false))
            } else {
                0
            },
            fraction_digits: (fraction_end - fraction_start) as usize,
        };
        if fraction_end < bytes.len() && bytes[fraction_end] == ascii::SEMI_COLON {
            (Some(number), fraction_end + 1)
        } else if fraction_end >= bytes.len() || bytes[fraction_end] == ascii::SPACE {
            (Some(number), fraction_end)
        } else {
            (None, fraction_end)
        }
    }
}

/// The variation at `pos`, and where the reading stands then: `*` for a random one, else a
/// signed decimal number; none at the end of the bytes.
pub open spec fn variation_at(bytes: Seq<u8>, pos: int) -> (Option<Variation>, int) {
    if pos < 0 || pos >= bytes.len() {
        (None, pos)
    } else if bytes[pos] == ascii::ASTERISK {
        (Some(Variation::Random), pos + 1)
    } else {
        match number_at(bytes, pos).0 {
            Some(number) => (Some(Variation::Value(number)), number_at(bytes, pos).1),
            None => (None, number_at(bytes, pos).1),
        }
    }
}

/// The sound code at `pos`, and where the reading stands then: frequency and duration as
/// signed decimal numbers, cycles and delay as numbers that a `;` closes, and the variation.
pub open spec fn sound_code_at(bytes: Seq<u8>, pos: int) -> (SoundCodeInfo, int) {
    let (frequency, after_frequency) = number_at(bytes, pos);
    let (duration, after_duration) = number_at(bytes, after_frequency);
    let cycles = int_value(bytes, after_duration, false);
    let after_cycles = int_next(bytes, after_duration, false, true);
    let delay = int_value(bytes, after_cycles, false);
    let after_delay = int_next(bytes, after_cycles, false, true);
    let (variation, after_variation) = variation_at(bytes, after_delay);
    (SoundCodeInfo { frequency, duration, cycles, delay, variation }, after_variation)
}

/// The note that a letter stands for, in either case.
pub open spec fn note_of(byte: u8) -> Option<Note> {
    if byte == ascii::UPPERCASE_A || byte == ascii::LOWERCASE_A {
        Some(Note::A)
    } else if byte == ascii::UPPERCASE_B || byte == ascii::LOWERCASE_B {
        Some(Note::B)
    } else if byte == ascii::UPPERCASE_C || byte == ascii::LOWERCASE_C {
        Some(Note::C)
    } else if byte == ascii::UPPERCASE_D || byte == ascii::LOWERCASE_D {
        Some(Note::D)
    } else if byte == ascii::UPPERCASE_E || byte == ascii::LOWERCASE_E {
        Some(Note::E)
    } else if byte == ascii::UPPERCASE_F || byte == ascii::LOWERCASE_F {
        Some(Note::F)
    } else if byte == ascii::UPPERCASE_G || byte == ascii::LOWERCASE_G {
        Some(Note::G)
    } else {
        None
    }
}

/// A byte that begins a sound code: a digit, `-`, `.` or `;`.
pub open spec fn begins_sound_code(byte: u8) -> bool {
    byte == ascii::MINUS || byte == ascii::PERIOD || ascii::is_digit(byte) || byte
        == ascii::SEMI_COLON
}

/// The rules that a first byte can choose.
pub enum TokenKind {
    SoundCode,
    Note(Note),
    Length,
    Operation,
    RawNote,
    Octave,
    Pause,
    Tempo,
    DecreaseOctave,
    IncreaseOctave,
    Skipped,
}

/// The rule that the first byte of a token chooses.
pub open spec fn kind_of(byte: u8) -> TokenKind {
    if begins_sound_code(byte) {
        TokenKind::SoundCode
    } else if note_of(byte) is Some {
        TokenKind::Note(note_of(byte)->0)
    } else if byte == ascii::UPPERCASE_L || byte == ascii::LOWERCASE_L {
        TokenKind::Length
    } else if byte == ascii::UPPERCASE_M || byte == ascii::LOWERCASE_M {
        TokenKind::Operation
    } else if byte == ascii::UPPERCASE_N || byte == ascii::LOWERCASE_N {
        TokenKind::RawNote
    } else if byte == ascii::UPPERCASE_O || byte == ascii::LOWERCASE_O {
        TokenKind::Octave
    } else if byte == ascii::UPPERCASE_P || byte == ascii::LOWERCASE_P {
        TokenKind::Pause
    } else if byte == ascii::UPPERCASE_T || byte == ascii::LOWERCASE_T {
        TokenKind::Tempo
    } else if byte == ascii::LESS_THAN_SIGN {
        TokenKind::DecreaseOctave
    } else if byte == ascii::GREATER_THAN_SIGN {
        TokenKind::IncreaseOctave
    } else {
        TokenKind::Skipped
    }
}

/// The entity of the token whose first byte, of kind `kind`, stands at `pos`, and where the
/// reading stands then. `kind` is not `Skipped`.
pub open spec fn token_at(bytes: Seq<u8>, pos: int, kind: TokenKind) -> (Option<MusicEntity>, int) {
    match kind {
        TokenKind::SoundCode => (
            Some(MusicEntity::SoundCode(sound_code_at(bytes, pos).0)),
            sound_code_at(bytes, pos).1,
        ),
        TokenKind::Note(note) => (
            Some(MusicEntity::Note { note, info: note_info_at(bytes, pos + 1).0 }),
            note_info_at(bytes, pos + 1).1,
        ),
        TokenKind::Length => (
            match int_value(bytes, pos + 1, true) {
                Some(value) => Some(MusicEntity::Length(value)),
                None => None,
            },
            int_next(bytes, pos + 1, true, false),
        ),
        TokenKind::RawNote => (
            match int_value(bytes, pos + 1, true) {
                Some(value) => Some(MusicEntity::RawNote(value)),
                None => None,
            },
            int_next(bytes, pos + 1, true, false),
        ),
        TokenKind::Octave => (
            match int_value(bytes, pos + 1, true) {
                Some(value) => Some(MusicEntity::Octave(value)),
                None => None,
            },
            int_next(bytes, pos + 1, true, false),
        ),
        TokenKind::Pause => (
            match int_value(bytes, pos + 1, true) {
                Some(value) => Some(MusicEntity::Pause(value)),
                None => None,
            },
            int_next(bytes, pos + 1, true, false),
        ),
        TokenKind::Tempo => (
            match int_value(bytes, pos + 1, true) {
                Some(value) => Some(MusicEntity::Tempo(value)),
                None => None,
            },
            int_next(bytes, pos + 1, true, false),
        ),
        TokenKind::Operation => (
            match operation_at(bytes, pos + 1).0 {
                Some(operation) => Some(MusicEntity::Operation(operation)),
                None => None,
            },
            operation_at(bytes, pos + 1).1,
        ),
        TokenKind::DecreaseOctave => (Some(MusicEntity::DecreaseOctave), pos + 1),
        TokenKind::IncreaseOctave => (Some(MusicEntity::IncreaseOctave), pos + 1),
        TokenKind::Skipped => (None, pos + 1),
    }
}

/// The entity that the next token at or after `pos` yields, and where the reading stands
/// then. Bytes that begin no token are passed over. `None` tells that the bytes are used up
/// or that the token yields no entity.
pub open spec fn entity_at(bytes: Seq<u8>, pos: int) -> (Option<MusicEntity>, int)
    decreases bytes.len() - pos,
{
    if pos < 0 || pos >= bytes.len() {
        (None, pos)
    } else if kind_of(bytes[pos]) is Skipped {
        entity_at(bytes, pos + 1)
    } else {
        token_at(bytes, pos, kind_of(bytes[pos]))
    }
}

/// The entities that the bytes yield from `pos` on, up to the first token that yields none.
pub open spec fn track_from(bytes: Seq<u8>, pos: int) -> Seq<MusicEntity>
    decreases bytes.len() - pos,
{
    if pos < 0 || pos >= bytes.len() {
        Seq::empty()
    } else {
        match entity_at(bytes, pos).0 {
            Some(entity) => if pos < entity_at(bytes, pos).1 <= bytes.len() {
                seq![entity] + track_from(bytes, entity_at(bytes, pos).1)
            } else {
                seq![entity]
            },
            None => Seq::empty(),
        }
    }
}

/// Where the reading stands after the entities of [`track_from`] were yielded: behind the
/// first token that yields no entity, or at the end of the bytes.
pub open spec fn track_end(bytes: Seq<u8>, pos: int) -> int
    decreases bytes.len() - pos,
{
    if pos < 0 || pos >= bytes.len() {
        pos
    } else {
        match entity_at(bytes, pos).0 {
            Some(_) => if pos < entity_at(bytes, pos).1 <= bytes.len() {
                track_end(bytes, entity_at(bytes, pos).1)
            } else {
                entity_at(bytes, pos).1
            },
            None => entity_at(bytes, pos).1,
        }
    }
}

/// A number read ends at or behind its start, within the bytes.
pub proof fn lemma_number_at(bytes: Seq<u8>, pos: int)
    requires
        0 <= pos <= bytes.len(),
    ensures
        pos <= number_at(bytes, pos).1 <= bytes.len(),
        pos < bytes.len() && begins_sound_code(bytes[pos]) ==> pos < number_at(bytes, pos).1,
{
    let negative = pos < bytes.len() && bytes[pos] == ascii::MINUS;
    let whole_start = if negative {
        pos + 1
    } else {
        pos
    };
    lemma_int_end(bytes, whole_start, false);
    let whole_end = int_end(bytes, whole_start, false);
    if whole_end < bytes.len() {
        lemma_int_end(bytes, whole_end + 1, false);
    }
    if pos < bytes.len() && ascii::is_digit(bytes[pos]) {
        lemma_int_end(bytes, pos + 1, false);
    }
}

/// A sound code read ends behind its start, within the bytes, where its first byte begins
/// a sound code.
pub proof fn lemma_sound_code_at(bytes: Seq<u8>, pos: int)
    requires
        0 <= pos <= bytes.len(),
    ensures
        pos <= sound_code_at(bytes, pos).1 <= bytes.len(),
        pos < bytes.len() && begins_sound_code(bytes[pos]) ==> pos < sound_code_at(bytes, pos).1,
{
    lemma_number_at(bytes, pos);
    let after_frequency = number_at(bytes, pos).1;
    lemma_number_at(bytes, after_frequency);
    let after_duration = number_at(bytes, after_frequency).1;
    lemma_int_end(bytes, after_duration, false);
    let after_cycles = int_next(bytes, after_duration, false, true);
    lemma_int_end(bytes, after_cycles, false);
    let after_delay = int_next(bytes, after_cycles, false, true);
    if after_delay < bytes.len() {
        lemma_number_at(bytes, after_delay);
    }
}

/// The token at `pos` ends behind `pos`, within the bytes.
pub proof fn lemma_token_at(bytes: Seq<u8>, pos: int)
    requires
        0 <= pos < bytes.len(),
    ensures
        pos < token_at(bytes, pos, kind_of(bytes[pos])).1 <= bytes.len(),
{
    lemma_sound_code_at(bytes, pos);
    lemma_int_end(bytes, pos + 1, true);
    let after_sign = sign_at(bytes, pos + 1).1;
    lemma_int_end(bytes, after_sign, false);
    lemma_dots_end(bytes, int_end(bytes, after_sign, false));
}

/// The next entity is found behind `pos`, within the bytes, unless the bytes are used up.
pub proof fn lemma_entity_at(bytes: Seq<u8>, pos: int)
    requires
        0 <= pos <= bytes.len(),
    ensures
        pos <= entity_at(bytes, pos).1 <= bytes.len(),
        pos < bytes.len() ==> pos < entity_at(bytes, pos).1,
        entity_at(bytes, pos).0 is Some ==> pos < entity_at(bytes, pos).1,
    decreases bytes.len() - pos,
{
    if pos < bytes.len() {
        if kind_of(bytes[pos]) is Skipped {
            lemma_entity_at(bytes, pos + 1);
        } else {
            lemma_token_at(bytes, pos);
        }
    }
}

/// A tokenizer over the bytes of a block of music.
pub struct MusicSequenceIterator<'a> {
    bytes: &'a [u8],
    position: usize,
}

impl<'a> MusicSequenceIterator<'a> {
    #[verifier::type_invariant]
    spec fn inv(self) -> bool {
        self.position <= self.bytes@.len()
    }

    /// The bytes that are read.
    pub closed spec fn bytes(&self) -> Seq<u8> {
        self.bytes@
    }

    /// The index of the next byte to read.
    pub closed spec fn position(&self) -> int {
        self.position as int
    }

    /// A tokenizer at the start of `bytes`.
    pub fn new(bytes: &'a [u8]) -> (r: MusicSequenceIterator<'a>)
        ensures
            r.bytes() == bytes@,
            r.position() == 0,
    {
        MusicSequenceIterator { bytes, position: 0 }
    }

    /// The index of the next byte to read.
    pub fn cursor(&self) -> (r: usize)
        ensures
            r == self.position(),
            r <= self.bytes().len(),
    {
        proof {
            use_type_invariant(self);
        }
        self.position
    }

    /// Moves the tokenizer to `position`, or to the end of the bytes where `position` lies
    /// behind it.
    pub fn seek(&mut self, position: usize)
        ensures
            final(self).bytes() == old(self).bytes(),
            final(self).position() == if position <= old(self).bytes().len() {
                position as int
            } else {
                old(self).bytes().len() as int
            },
    {
        if position <= self.bytes.len() {
            self.position = position;
        } else {
            self.position = self.bytes.len();
        }
    }

    /// Counts the `,` from the cursor on, passing over spaces, up to the first other byte.
    pub fn parse_dots(&mut self) -> (r: usize)
        ensures
            final(self).bytes() == old(self).bytes(),
            r == dots_count(old(self).bytes(), old(self).position()),
            final(self).position() == dots_end(old(self).bytes(), old(self).position()),
    {
        proof {
            use_type_invariant(&*self);
        }
        let bytes = self.bytes;
        let start = self.position;
        let mut position = self.position;
        let mut amount: usize = 0;
        proof {
            lemma_dots_end(bytes@, start as int);
            lemma_filter_empty(comma_pred());
            assert(bytes@.subrange(start as int, position as int) =~= Seq::<u8>::empty());
        }
        while position < bytes.len() && (bytes[position] == ascii::COMMA || bytes[position]
            == ascii::SPACE)
            invariant
                start <= position <= bytes@.len(),
                dots_end(bytes@, position as int) == dots_end(bytes@, start as int),
                amount == bytes@.subrange(start as int, position as int).filter(
                    comma_pred(),
                ).len(),
                amount <= position - start,
            decreases bytes@.len() - position,
        {
            proof {
                let before = bytes@.subrange(start as int, position as int);
                assert(bytes@.subrange(start as int, position + 1) =~= before.push(
                    bytes@[position as int],
                ));
                lemma_filter_push(before, bytes@[position as int], comma_pred());
            }
            if bytes[position] == ascii::COMMA {
                amount += 1;
            }
            position += 1;
        }
        proof {
            lemma_dots_end(bytes@, position as int);
        }
        self.position = position;
        amount
    }

    /// Reads the byte behind an `M` and gives the operation that it stands for. The byte is
    /// taken even where it stands for none.
    pub fn parse_operation(&mut self) -> (r: Option<MusicOperation>)
        ensures
            final(self).bytes() == old(self).bytes(),
            r == operation_at(old(self).bytes(), old(self).position()).0,
            final(self).position() == operation_at(old(self).bytes(), old(self).position()).1,
    {
        proof {
            use_type_invariant(&*self);
        }
        if self.position < self.bytes.len() {
            let byte = self.bytes[self.position];
            self.position += 1;
            if byte == ascii::UPPERCASE_B {
                Some(MusicOperation::Background)
            } else if byte == ascii::UPPERCASE_F {
                Some(MusicOperation::Foreground)
            } else if byte == ascii::UPPERCASE_L || byte == ascii::LOWERCASE_L {
                Some(MusicOperation::Articulation(Articulation::Legato))
            } else if byte == ascii::UPPERCASE_N || byte == ascii::LOWERCASE_N {
                Some(MusicOperation::Articulation(Articulation::Normal))
            } else if byte == ascii::UPPERCASE_S || byte == ascii::LOWERCASE_S {
                Some(MusicOperation::Articulation(Articulation::Stacato))
            } else if byte == ascii::SPACE {
                Some(MusicOperation::Undefined)
            } else {
                None
            }
        } else {
            None
        }
    }

    /// Reads a number in decimal digits from the cursor on. Spaces among and around the
    /// digits are passed over where `accept_whitespace` is set; a `;` behind the number is
    /// taken where `accept_semi_colon` is set. Any other byte ends the number and is left.
    pub fn parse_int(&mut self, accept_whitespace: bool, accept_semi_colon: bool) -> (r: Option<
        usize,
    >)
        ensures
            final(self).bytes() == old(self).bytes(),
            r == int_value(old(self).bytes(), old(self).position(), accept_whitespace),
            final(self).position() == int_next(
                old(self).bytes(),
                old(self).position(),
                accept_whitespace,
                accept_semi_colon,
            ),
    {
        proof {
            use_type_invariant(&*self);
        }
        let bytes = self.bytes;
        let start = self.position;
        let mut position = self.position;
        let mut number: Option<usize> = None;
        let ghost mut digits: Seq<u8> = Seq::empty();
        proof {
            lemma_int_end(bytes@, start as int, accept_whitespace);
            lemma_filter_empty(digit_pred());
            assert(bytes@.subrange(start as int, position as int) =~= Seq::<u8>::empty());
        }
        while position < bytes.len() && (ascii::byte_is_digit(bytes[position]) || (
        accept_whitespace && bytes[position] == ascii::SPACE))
            invariant
                start <= position <= bytes@.len(),
                int_end(bytes@, position as int, accept_whitespace) == int_end(
                    bytes@,
                    start as int,
                    accept_whitespace,
                ),
                digits == bytes@.subrange(start as int, position as int).filter(digit_pred()),
                number == if digits.len() == 0 {
                    None
                } else {
                    Some(clamped_value(digits))
                },
            decreases bytes@.len() - position,
        {
            let byte = bytes[position];
            proof {
                let before = bytes@.subrange(start as int, position as int);
                assert(bytes@.subrange(start as int, position + 1) =~= before.push(byte));
                lemma_filter_push(before, byte, digit_pred());
            }
            if ascii::byte_is_digit(byte) {
                proof {
                    lemma_clamped_push(digits, byte);
                    if digits.len() == 0 {
                        assert(clamped_value(digits) == 0);
                    }
                    digits = digits.push(byte);
                }
                number = match number {
                    Some(value) => Some(push_digit(value, byte)),
                    None => Some(push_digit(0, byte)),
                };
            }
            position += 1;
        }
        proof {
            lemma_int_end(bytes@, position as int, accept_whitespace);
        }
        if accept_semi_colon && position < bytes.len() && bytes[position] == ascii::SEMI_COLON {
            position += 1;
        }
        self.position = position;
        number
    }

    /// Reads a signed decimal number from the cursor on, as [`number_at`] tells.
    pub fn parse_sound_code_number(&mut self) -> (r: Option<SoundNumber>)
        ensures
            final(self).bytes() == old(self).bytes(),
            r == number_at(old(self).bytes(), old(self).position()).0,
            final(self).position() == number_at(old(self).bytes(), old(self).position()).1,
    {
        proof {
            use_type_invariant(&*self);
        }
        let length = self.bytes.len();
        let mut negative = false;
        if self.position < length {
            let first = self.bytes[self.position];
            if first == ascii::MINUS {
                self.position += 1;
                negative = true;
            } else if first == ascii::SEMI_COLON {
                self.position += 1;
                return None;
            } else if first == ascii::SPACE {
                return None;
            }
        }
        let whole = match self.parse_int(false, false) {
            Some(value) => value,
            None => 0,
        };
        proof {
            use_type_invariant(&*self);
        }
        let mut fraction: usize = 0;
        let mut fraction_digits: usize = 0;
        if self.position < length && self.bytes[self.position] == ascii::PERIOD {
            self.position += 1;
            let fraction_start = self.position;
            fraction = match self.parse_int(false, false) {
                Some(value) => value,
                None => 0,
            };
            proof {
                use_type_invariant(&*self);
                lemma_int_end(self.bytes@, fraction_start as int, false);
            }
            fraction_digits = self.position - fraction_start;
        }
        let number = SoundNumber { negative, whole, fraction, fraction_digits };
        if self.position < length {
            let last = self.bytes[self.position];
            if last == ascii::SEMI_COLON {
                self.position += 1;
                Some(number)
            } else if last == ascii::SPACE {
                Some(number)
            } else {
                None
            }
        } else {
            Some(number)
        }
    }

    /// Reads a variation from the cursor on: `*`, or a signed decimal number.
    pub fn parse_sound_code_number_or_wildcard(&mut self) -> (r: Option<Variation>)
        ensures
            final(self).bytes() == old(self).bytes(),
            r == variation_at(old(self).bytes(), old(self).position()).0,
            final(self).position() == variation_at(old(self).bytes(), old(self).position()).1,
    {
        proof {
            use_type_invariant(&*self);
        }
        if self.position >= self.bytes.len() {
            None
        } else if self.bytes[self.position] == ascii::ASTERISK {
            self.position += 1;
            Some(Variation::Random)
        } else {
            match self.parse_sound_code_number() {
                Some(number) => Some(Variation::Value(number)),
                None => None,
            }
        }
    }

    /// Reads the sign of a note from the cursor on.
    pub fn parse_sign(&mut self) -> (r: NoteSign)
        ensures
            final(self).bytes() == old(self).bytes(),
            r == sign_at(old(self).bytes(), old(self).position()).0,
            final(self).position() == sign_at(old(self).bytes(), old(self).position()).1,
    {
        proof {
            use_type_invariant(&*self);
        }
        if self.position < self.bytes.len() {
            let byte = self.bytes[self.position];
            if byte == ascii::PLUS || byte == ascii::NUMBER_SIGN {
                self.position += 1;
                NoteSign::Sharp
            } else if byte == ascii::MINUS {
                self.position += 1;
                NoteSign::Flat
            } else {
                NoteSign::Natural
            }
        } else {
            NoteSign::Natural
        }
    }

    /// Reads what follows the letter of a note: sign, length and dots.
    pub fn parse_note_info(&mut self) -> (r: NoteInfo)
        ensures
            final(self).bytes() == old(self).bytes(),
            r == note_info_at(old(self).bytes(), old(self).position()).0,
            final(self).position() == note_info_at(old(self).bytes(), old(self).position()).1,
    {
        let sign = self.parse_sign();
        let length = self.parse_int(false, false);
        let dots = self.parse_dots();
        NoteInfo { sign, length, dots }
    }

    /// Reads the five fields of a sound code from the cursor on.
    pub fn parse_sound_code(&mut self) -> (r: SoundCodeInfo)
        ensures
            final(self).bytes() == old(self).bytes(),
            r == sound_code_at(old(self).bytes(), old(self).position()).0,
            final(self).position() == sound_code_at(old(self).bytes(), old(self).position()).1,
    {
        let frequency = self.parse_sound_code_number();
        let duration = self.parse_sound_code_number();
        let cycles = self.parse_int(false, true);
        let delay = self.parse_int(false, true);
        let variation = self.parse_sound_code_number_or_wildcard();
        SoundCodeInfo { frequency, duration, cycles, delay, variation }
    }

    /// Yields the entity of the next token, passing over the bytes that begin none. `None`
    /// tells that the bytes are used up or that the token yields no entity; the cursor tells
    /// which.
    pub fn next(&mut self) -> (r: Option<MusicEntity>)
        ensures
            final(self).bytes() == old(self).bytes(),
            r == entity_at(old(self).bytes(), old(self).position()).0,
            final(self).position() == entity_at(old(self).bytes(), old(self).position()).1,
            old(self).position() <= final(self).position() <= old(self).bytes().len(),
            r is Some ==> old(self).position() < final(self).position(),
    {
        proof {
            use_type_invariant(&*self);
            lemma_entity_at(self.bytes@, self.position as int);
        }
        let ghost first = self.position as int;
        loop
            invariant
                self.bytes() == old(self).bytes(),
                first == old(self).position(),
                first <= self.position() <= self.bytes().len(),
                first <= entity_at(self.bytes(), first).1 <= self.bytes().len(),
                entity_at(self.bytes(), first).0 is Some ==> first < entity_at(
                    self.bytes(),
                    first,
                ).1,
                entity_at(self.bytes(), self.position()) == entity_at(self.bytes(), first),
            decreases self.bytes().len() - self.position(),
        {
            proof {
                use_type_invariant(&*self);
            }
            if self.position >= self.bytes.len() {
                return None;
            }
            let byte = self.bytes[self.position];
            if byte == ascii::MINUS || byte == ascii::PERIOD || ascii::byte_is_digit(byte) || byte
                == ascii::SEMI_COLON {
                return Some(MusicEntity::SoundCode(self.parse_sound_code()));
            }
            self.position += 1;
            if byte == ascii::UPPERCASE_A || byte == ascii::LOWERCASE_A {
                return Some(MusicEntity::Note { note: Note::A, info: self.parse_note_info() });
            } else if byte == ascii::UPPERCASE_B || byte == ascii::LOWERCASE_B {
                return Some(MusicEntity::Note { note: Note::B, info: self.parse_note_info() });
            } else if byte == ascii::UPPERCASE_C || byte == ascii::LOWERCASE_C {
                return Some(MusicEntity::Note { note: Note::C, info: self.parse_note_info() });
            } else if byte == ascii::UPPERCASE_D || byte == ascii::LOWERCASE_D {
                return Some(MusicEntity::Note { note: Note::D, info: self.parse_note_info() });
            } else if byte == ascii::UPPERCASE_E || byte == ascii::LOWERCASE_E {
                return Some(MusicEntity::Note { note: Note::E, info: self.parse_note_info() });
            } else if byte == ascii::UPPERCASE_F || byte == ascii::LOWERCASE_F {
                return Some(MusicEntity::Note { note: Note::F, info: self.parse_note_info() });
            } else if byte == ascii::UPPERCASE_G || byte == ascii::LOWERCASE_G {
                return Some(MusicEntity::Note { note: Note::G, info: self.parse_note_info() });
            } else if byte == ascii::UPPERCASE_L || byte == ascii::LOWERCASE_L {
                return match self.parse_int(true, false) {
                    Some(value) => Some(MusicEntity::Length(value)),
                    None => None,
                };
            } else if byte == ascii::UPPERCASE_M || byte == ascii::LOWERCASE_M {
                return match self.parse_operation() {
                    Some(operation) => Some(MusicEntity::Operation(operation)),
                    None => None,
                };
            } else if byte == ascii::UPPERCASE_N || byte == ascii::LOWERCASE_N {
                return match self.parse_int(true, false) {
                    Some(value) => Some(MusicEntity::RawNote(value)),
                    None => None,
                };
            } else if byte == ascii::UPPERCASE_O || byte == ascii::LOWERCASE_O {
                return match self.parse_int(true, false) {
                    Some(value) => Some(MusicEntity::Octave(value)),
                    None => None,
                };
            } else if byte == ascii::UPPERCASE_P || byte == ascii::LOWERCASE_P {
                return match self.parse_int(true, false) {
                    Some(value) => Some(MusicEntity::Pause(value)),
                    None => None,
                };
            } else if byte == ascii::UPPERCASE_T || byte == ascii::LOWERCASE_T {
                return match self.parse_int(true, false) {
                    Some(value) => Some(MusicEntity::Tempo(value)),
                    None => None,
                };
            } else if byte == ascii::LESS_THAN_SIGN {
                return Some(MusicEntity::DecreaseOctave);
            } else if byte == ascii::GREATER_THAN_SIGN {
                return Some(MusicEntity::IncreaseOctave);
            }
        }
    }

    /// Yields the entities from the cursor on, up to the first token that yields none.
    pub fn collect(&mut self) -> (r: Vec<MusicEntity>)
        ensures
            final(self).bytes() == old(self).bytes(),
            r@ == track_from(old(self).bytes(), old(self).position()),
            final(self).position() == track_end(old(self).bytes(), old(self).position()),
    {
        proof {
            use_type_invariant(&*self);
        }
        let mut out: Vec<MusicEntity> = Vec::new();
        let ghost all = track_from(self.bytes(), self.position());
        let ghost end = track_end(self.bytes(), self.position());
        loop
            invariant_except_break
                all == out@ + track_from(self.bytes(), self.position()),
                end == track_end(self.bytes(), self.position()),
            invariant
                self.bytes() == old(self).bytes(),
                0 <= self.position() <= self.bytes().len(),
            ensures
                self.bytes() == old(self).bytes(),
                out@ == all,
                self.position() == end,
            decreases self.bytes().len() - self.position(),
        {
            proof {
                lemma_entity_at(self.bytes(), self.position());
            }
            match self.next() {
                Some(entity) => {
                    out.push(entity);
                    proof {
                        assert(all =~= out@ + track_from(self.bytes(), self.position()));
                    }
                },
                None => {
                    proof {
                        assert(all =~= out@);
                    }
                    break ;
                },
            }
        }
        out
    }
}

/// Values that can be read as a block of music.
pub trait IntoMusicSequenceIter<'a>: Sized {
    /// The bytes of the block.
    spec fn music_bytes(self) -> Seq<u8>;

    /// A tokenizer at the start of the block.
    fn into_musical_sequence_iter(self) -> (r: MusicSequenceIterator<'a>)
        ensures
            r.bytes() == self.music_bytes(),
            r.position() == 0,
    ;
}

impl<'a> IntoMusicSequenceIter<'a> for &'a [u8] {
    open spec fn music_bytes(self) -> Seq<u8> {
        self@
    }

    fn into_musical_sequence_iter(self) -> (r: MusicSequenceIterator<'a>) {
        MusicSequenceIterator::new(self)
    }
}

} // verus!
