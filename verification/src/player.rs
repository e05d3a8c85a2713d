//! The running state of a player of ANSI Music.
//!
//! Tempo, octave, length and articulation are set by entities of a track and stay as they
//! are until a later entity sets them anew, in the same track or in a later one. What is to
//! be heard is handed out as an action; making the sound is left to the caller.

use vstd::prelude::*;
use crate::music::{Articulation, MusicEntity, MusicOperation, Note, NoteInfo, NoteSign, SoundCodeInfo};

verus! {

/// The number of notes that have a frequency: seven octaves of twelve notes.
pub const NOTES: usize = 84;

/// The running state of a player.
#[derive(Clone, Copy, Debug, PartialEq, Eq)]
pub struct PlayerState {
    /// Quarter notes to the minute.
    pub tempo: usize,
    /// The length of a note that names none: 1 for a whole note, 4 for a quarter note.
    pub length: usize,
    pub octave: usize,
    pub articulation: Articulation,
}

/// What is to be heard for an entity.
#[derive(Clone, Copy, Debug, PartialEq, Eq)]
pub enum PlayAction {
    /// Nothing: the entity only changed the state.
    Silence,
    /// The note with the given place among the notes that have a frequency, or `None` where
    /// the note lies outside of them; with the length that the note names, and its dots.
    Note { index: Option<usize>, length: Option<usize>, dots: usize },
    /// The note with the given place among the notes that have a frequency.
    RawNote(usize),
    /// A pause of the given length: 1 for a whole note, 4 for a quarter note.
    Pause(usize),
    SoundCode(SoundCodeInfo),
}

/// The place of a note within its octave, in half tones.
pub open spec fn half_tones(note: Note) -> int {
    match note {
        Note::C => 0,
        Note::D => 2,
        Note::E => 4,
        Note::F => 5,
        Note::G => 7,
        Note::A => 9,
        Note::B => 11,
    }
}

/// The shift of a sign in half tones.
pub open spec fn shift(sign: NoteSign) -> int {
    match sign {
        NoteSign::Sharp => 1,
        NoteSign::Natural => 0,
        NoteSign::Flat => -1,
    }
}

/// The place of a note among the notes that have a frequency, where it is one of them.
pub open spec fn note_index(octave: usize, note: Note, sign: NoteSign) -> Option<usize> {
    let index = octave * 12 + half_tones(note) + shift(sign);
    if 0 <= index < 84 {
        Some(index as usize)
    } else {
        None
    }
}

/// The place of a note among the notes that have a frequency, where it is one of them.
pub fn frequency_index(octave: usize, note: Note, sign: NoteSign) -> (r: Option<usize>)
    ensures
        r == note_index(octave, note, sign),
{
    if octave > 7 {
        return None;
    }
    let within: usize = match note {
        Note::C => 0,
        Note::D => 2,
        Note::E => 4,
        Note::F => 5,
        Note::G => 7,
        Note::A => 9,
        Note::B => 11,
    };
    let natural = octave * 12 + within;
    let index = match sign {
        NoteSign::Sharp => natural + 1,
        NoteSign::Natural => natural,
        NoteSign::Flat => if natural == 0 {
            return None;
        } else {
            natural - 1
        },
    };
    if index < NOTES {
        Some(index)
    } else {
        None
    }
}

impl PlayerState {
    /// The state before any music: tempo 120, whole notes, octave 4, normal articulation.
    pub open spec fn initial() -> PlayerState {
        PlayerState { tempo: 120, length: 1, octave: 4, articulation: Articulation::Normal }
    }

    /// The state after an entity. The octave stays within what a `usize` holds.
    pub open spec fn after(self, entity: MusicEntity) -> PlayerState {
        match entity {
            MusicEntity::Operation(MusicOperation::Articulation(articulation)) => PlayerState {
                articulation,
                ..self
            },
            MusicEntity::Tempo(value) => PlayerState { tempo: value, ..self },
            MusicEntity::Octave(value) => PlayerState { octave: value, ..self },
            MusicEntity::Length(value) => PlayerState { length: value, ..self },
            MusicEntity::IncreaseOctave => PlayerState {
                octave: if self.octave < usize::MAX {
                    (self.octave + 1) as usize
                } else {
                    self.octave
                },
                ..self
            },
            MusicEntity::DecreaseOctave => PlayerState {
                octave: if self.octave > 0 {
                    (self.octave - 1) as usize
                } else {
                    self.octave
                },
                ..self
            },
            _ => self,
        }
    }

    /// What is to be heard for an entity, in the state before it.
    pub open spec fn action(self, entity: MusicEntity) -> PlayAction {
        match entity {
            MusicEntity::RawNote(value) => PlayAction::RawNote(value),
            MusicEntity::Pause(value) => PlayAction::Pause(value),
            MusicEntity::Note { note, info } => PlayAction::Note {
                index: note_index(self.octave, note, info.sign),
                length: info.length,
                dots: info.dots,
            },
            MusicEntity::SoundCode(info) => PlayAction::SoundCode(info),
            _ => PlayAction::Silence,
        }
    }

    /// The state after the entities of a track, one after the other.
    pub open spec fn after_all(self, track: Seq<MusicEntity>) -> PlayerState
        decreases track.len(),
    {
        if track.len() == 0 {
            self
        } else {
            self.after_all(track.drop_last()).after(track.last())
        }
    }

    /// The state before any music.
    pub fn new() -> (r: PlayerState)
        ensures
            r == PlayerState::initial(),
    {
        PlayerState { tempo: 120, length: 1, octave: 4, articulation: Articulation::Normal }
    }

    /// Takes an entity: changes the state as the entity says, and gives what is to be heard.
    pub fn step(&mut self, entity: &MusicEntity) -> (r: PlayAction)
        ensures
            *final(self) == old(self).after(*entity),
            r == old(self).action(*entity),
    {
        match entity {
            MusicEntity::Operation(MusicOperation::Articulation(articulation)) => {
                self.articulation = *articulation;
                PlayAction::Silence
            },
            MusicEntity::Operation(_) => PlayAction::Silence,
            MusicEntity::Tempo(value) => {
                self.tempo = *value;
                PlayAction::Silence
            },
            MusicEntity::Octave(value) => {
                self.octave = *value;
                PlayAction::Silence
            },
            MusicEntity::Length(value) => {
                self.length = *value;
                PlayAction::Silence
            },
            MusicEntity::RawNote(value) => PlayAction::RawNote(*value),
            MusicEntity::Pause(value) => PlayAction::Pause(*value),
            MusicEntity::IncreaseOctave => {
                if self.octave < usize::MAX {
                    self.octave += 1;
                }
                PlayAction::Silence
            },
            MusicEntity::DecreaseOctave => {
                if self.octave > 0 {
                    self.octave -= 1;
                }
                PlayAction::Silence
            },
            MusicEntity::Note { note, info } => PlayAction::Note {
                index: frequency_index(self.octave, *note, info.sign),
                length: info.length,
                dots: info.dots,
            },
            MusicEntity::SoundCode(info) => PlayAction::SoundCode(*info),
        }
    }
}

/// The state that a track leaves behind is the state that the next track begins with:
/// playing two tracks one after the other changes the state as playing them as one does.
pub proof fn lemma_state_crosses_tracks(
    state: PlayerState,
    first: Seq<MusicEntity>,
    second: Seq<MusicEntity>,
)
    ensures
        state.after_all(first).after_all(second) == state.after_all(first + second),
    decreases second.len(),
{
    if second.len() == 0 {
        assert(first + second =~= first);
    } else {
        lemma_state_crosses_tracks(state, first, second.drop_last());
        assert((first + second).drop_last() =~= first + second.drop_last());
    }
}

} // verus!
