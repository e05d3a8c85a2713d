//! Terminal art as a stream of events.
//!
//! A file of terminal art is a stream of bytes: glyphs of code page 437, control sequences
//! that begin with `ESC [`, blocks of ANSI Music, and, behind the end-of-file byte, a
//! metadata record with its comments. This library reads such a stream:
//!
//! * [`number`] reads the lists of integers of control sequences;
//! * [`music_sequence_iterator`] reads blocks of music into the entities of [`music`];
//! * [`sauce`] reads and writes metadata records;
//! * [`parser`] walks over the bytes and yields one event after the other, and
//!   [`parser_laws`] states what holds of all the events of a stream.
//!
//! What shows and plays the events builds on [`terminal`], [`font`], [`ega`] and
//! [`player`]; [`img2bin`] goes the other way, from the picture of a screen to its glyphs.
//!
//! Every function has a contract that Verus proves. Contracts speak of sequences of bytes
//! and of plain values, the views of the types.

use vstd::prelude::*;

pub mod ascii;
pub mod cp437;
pub mod ega;
pub mod font;
pub mod img2bin;
pub mod music;
pub mod music_sequence_iterator;
pub mod number;
pub mod parser;
pub mod parser_laws;
pub mod player;
pub mod sauce;
pub mod terminal;
pub mod text;

pub use cp437::{CP437Error, CP437String};
pub use music::Music;
pub use music_sequence_iterator::{IntoMusicSequenceIter, MusicSequenceIterator};
pub use number::{IntoNumberSequenceIter, NumberSequenceIterator};
pub use parser::{AnsiParser, Sequence};
pub use sauce::{Sauce, COMNT_HEAD, SAUCE_HEAD};

verus! {

} // verus!
