//! The comment lines that may stand before a metadata record.

use vstd::prelude::*;
use crate::ascii;
use crate::cp437::{
    chars_of, decode_bytes, encodable, encode_chars, pad_to, strip_trailing, CP437Error,
    CP437String,
};
use crate::text;

verus! {

/// The five bytes that open a comment block: `COMNT`.
pub const COMNT_HEAD: [u8; 5] = [0x43, 0x4F, 0x4D, 0x4E, 0x54];

/// The number of glyphs that each comment line takes in a file.
pub const COMMENT_WIDTH: usize = 64;

/// The comment lines one behind the other, each filled up with spaces to 64 glyphs.
pub open spec fn padded_lines(lines: Seq<Seq<u8>>) -> Seq<u8>
    decreases lines.len(),
{
    if lines.len() == 0 {
        Seq::empty()
    } else {
        padded_lines(lines.drop_last()) + pad_to(lines.last(), 64, ascii::SPACE)
    }
}

/// The comment block of a file: `COMNT` and the padded lines.
pub open spec fn comment_block(lines: Seq<Seq<u8>>) -> Seq<u8> {
    COMNT_HEAD@ + padded_lines(lines)
}

/// No line is longer than 64 glyphs.
pub open spec fn lines_fit(lines: Seq<Seq<u8>>) -> bool {
    forall|i: int| 0 <= i < lines.len() ==> (#[trigger] lines[i]).len() <= 64
}

/// The lines that `count` chunks of 64 bytes at the start of `bytes` hold, each without the
/// spaces at its end.
pub open spec fn lines_of(bytes: Seq<u8>, count: nat) -> Seq<Seq<u8>> {
    Seq::new(count, |i: int| strip_trailing(bytes.subrange(64 * i, 64 * i + 64), ascii::SPACE))
}

/// The `index`-th run of 64 characters of `chars`.
pub open spec fn chunk(chars: Seq<char>, index: int) -> Seq<char> {
    chars.subrange(64 * index, 64 * index + 64)
}

/// Every one of the first `count` runs of 64 characters can be written in code page 437.
pub open spec fn chunks_encodable(chars: Seq<char>, count: int) -> bool {
    forall|k: int| 0 <= k < count ==> encodable(#[trigger] chunk(chars, k))
}

/// The comment lines that a text of whole 64-character runs stands for. What is left over
/// behind the last whole run is not looked at.
pub open spec fn lines_of_text(chars: Seq<char>) -> Seq<Seq<u8>> {
    Seq::new(
        chars.len() / 64,
        |k: int| strip_trailing(encode_chars(chunk(chars, k)), ascii::SPACE),
    )
}

/// With lines of at most 64 glyphs, the padded lines take 64 bytes each.
pub proof fn lemma_padded_lines_len(lines: Seq<Seq<u8>>)
    requires
        lines_fit(lines),
    ensures
        padded_lines(lines).len() == 64 * lines.len(),
    decreases lines.len(),
{
    if lines.len() > 0 {
        assert forall|i: int| 0 <= i < lines.drop_last().len() implies (
        #[trigger] lines.drop_last()[i]).len() <= 64 by {
            assert(lines.drop_last()[i] == lines[i]);
        }
        lemma_padded_lines_len(lines.drop_last());
        assert(lines[lines.len() - 1].len() <= 64);
    }
}

/// With lines of at most 64 glyphs, the `index`-th chunk of 64 bytes is the `index`-th line,
/// padded, whatever follows the lines.
pub proof fn lemma_padded_lines_chunk(lines: Seq<Seq<u8>>, rest: Seq<u8>, index: int)
    requires
        lines_fit(lines),
        0 <= index < lines.len(),
    ensures
        (padded_lines(lines) + rest).subrange(64 * index, 64 * index + 64) == pad_to(
            lines[index],
            64,
            ascii::SPACE,
        ),
    decreases lines.len(),
{
    lemma_padded_lines_len(lines);
    let front = lines.drop_last();
    assert forall|i: int| 0 <= i < front.len() implies (#[trigger] front[i]).len() <= 64 by {
        assert(front[i] == lines[i]);
    }
    lemma_padded_lines_len(front);
    let last = pad_to(lines.last(), 64, ascii::SPACE);
    assert(lines[lines.len() - 1].len() <= 64);
    assert(last.len() == 64);
    if index == lines.len() - 1 {
        assert((padded_lines(lines) + rest).subrange(64 * index, 64 * index + 64) =~= last);
    } else {
        lemma_padded_lines_chunk(front, last + rest, index);
        assert(padded_lines(lines) + rest =~= padded_lines(front) + (last + rest));
        assert(front[index] == lines[index]);
    }
}

/// The comment lines of a record. The view is the sequence of lines, each a sequence of glyph
/// codes.
#[derive(Clone, Debug, PartialEq, Eq)]
pub struct Comments {
    strings: Vec<CP437String>,
}

impl View for Comments {
    type V = Seq<Seq<u8>>;

    closed spec fn view(&self) -> Seq<Seq<u8>> {
        self.strings@.map_values(|line: CP437String| line@)
    }
}

impl Default for Comments {
    fn default() -> (r: Self)
        ensures
            r@ == Seq::<Seq<u8>>::empty(),
    {
        Comments::new()
    }
}

impl Comments {
    /// No comment lines.
    pub fn new() -> (r: Comments)
        ensures
            r@ == Seq::<Seq<u8>>::empty(),
    {
        let r = Comments { strings: Vec::new() };
        proof {
            assert(r@ =~= Seq::<Seq<u8>>::empty());
        }
        r
    }

    /// No comment lines, with room for `capacity` of them.
    pub fn with_capacity(capacity: usize) -> (r: Comments)
        ensures
            r@ == Seq::<Seq<u8>>::empty(),
    {
        let r = Comments { strings: Vec::with_capacity(capacity) };
        proof {
            assert(r@ =~= Seq::<Seq<u8>>::empty());
        }
        r
    }

    /// The number of lines.
    pub fn len(&self) -> (r: usize)
        ensures
            r == self@.len(),
    {
        self.strings.len()
    }

    /// Tells whether there is no line.
    pub fn is_empty(&self) -> (r: bool)
        ensures
            r == (self@.len() == 0),
    {
        self.strings.len() == 0
    }

    /// The line at `index`.
    pub fn get(&self, index: usize) -> (r: &CP437String)
        requires
            index < self@.len(),
        ensures
            r@ == self@[index as int],
    {
        &self.strings[index]
    }

    /// A copy of the lines.
    pub fn duplicate(&self) -> (r: Comments)
        ensures
            r@ == self@,
    {
        let mut out = Comments::with_capacity(self.strings.len());
        let mut i: usize = 0;
        while i < self.strings.len()
            invariant
                i <= self.strings@.len(),
                out@ == self@.take(i as int),
            decreases self.strings@.len() - i,
        {
            out.push_line(self.strings[i].duplicate());
            i += 1;
            proof {
                assert(out@ =~= self@.take(i as int));
            }
        }
        proof {
            assert(self@.take(i as int) =~= self@);
        }
        out
    }

    /// Appends a line as it is.
    fn push_line(&mut self, line: CP437String)
        ensures
            final(self)@ == old(self)@.push(line@),
    {
        self.strings.push(line);
        proof {
            assert(self@ =~= old(self)@.push(line@));
        }
    }

    /// Appends the line with the glyph codes `bytes`, without the spaces at its end.
    pub fn push_bytes(&mut self, bytes: &[u8])
        ensures
            final(self)@ == old(self)@.push(strip_trailing(bytes@, ascii::SPACE)),
    {
        let line = CP437String::from_bytes(bytes).strip_trailing_spaces();
        self.push_line(line);
    }

    /// Appends the line that is shown as `string`, without the spaces at its end, or fails
    /// where a character of it has no glyph.
    pub fn push(&mut self, string: &str) -> (r: Result<(), CP437Error>)
        ensures
            match r {
                Ok(_) => encodable(string@) && final(self)@ == old(self)@.push(
                    strip_trailing(encode_chars(string@), ascii::SPACE),
                ),
                Err(_) => !encodable(string@) && final(self)@ == old(self)@,
            },
    {
        match CP437String::from_str(string) {
            Ok(line) => {
                let stripped = line.strip_trailing_spaces();
                self.push_line(stripped);
                Ok(())
            },
            Err(error) => Err(error),
        }
    }

    /// Tells whether no line is longer than 64 glyphs.
    pub fn fits(&self) -> (r: bool)
        ensures
            r == lines_fit(self@),
    {
        let mut i: usize = 0;
        while i < self.strings.len()
            invariant
                i <= self.strings@.len(),
                lines_fit(self@.take(i as int)),
            decreases self.strings@.len() - i,
        {
            if self.strings[i].len() > COMMENT_WIDTH {
                proof {
                    assert(self@[i as int].len() > 64);
                }
                return false;
            }
            i += 1;
            proof {
                let before = self@.take(i - 1);
                let after = self@.take(i as int);
                assert forall|k: int| 0 <= k < after.len() implies (#[trigger] after[k]).len()
                    <= 64 by {
                    if k < before.len() {
                        assert(after[k] == before[k]);
                    }
                }
            }
        }
        proof {
            assert(self@.take(i as int) =~= self@);
        }
        true
    }

    /// Tells whether no line ends in a space.
    pub fn trimmed(&self) -> (r: bool)
        ensures
            r == (forall|i: int|
                0 <= i < self@.len() ==> crate::cp437::no_trailing(
                    #[trigger] self@[i],
                    ascii::SPACE,
                )),
    {
        let mut i: usize = 0;
        while i < self.strings.len()
            invariant
                i <= self.strings@.len(),
                forall|k: int|
                    0 <= k < i ==> crate::cp437::no_trailing(#[trigger] self@[k], ascii::SPACE),
            decreases self.strings@.len() - i,
        {
            let line = self.strings[i].as_slice();
            if line.len() > 0 && line[line.len() - 1] == ascii::SPACE {
                proof {
                    assert(!crate::cp437::no_trailing(self@[i as int], ascii::SPACE));
                }
                return false;
            }
            i += 1;
        }
        true
    }

    /// The lines one behind the other, each filled up with spaces to 64 glyphs.
    pub fn to_padded_bytes(&self) -> (r: Vec<u8>)
        ensures
            r@ == padded_lines(self@),
    {
        let mut out: Vec<u8> = Vec::new();
        let mut i: usize = 0;
        while i < self.strings.len()
            invariant
                i <= self.strings@.len(),
                out@ == padded_lines(self@.take(i as int)),
            decreases self.strings@.len() - i,
        {
            let padded = self.strings[i].pad_with_spaces(COMMENT_WIDTH);
            out.extend_from_slice(padded.as_slice());
            i += 1;
            proof {
                let after = self@.take(i as int);
                assert(after.drop_last() =~= self@.take(i - 1));
                assert(after.last() == self@[i - 1]);
            }
        }
        proof {
            assert(self@.take(i as int) =~= self@);
        }
        out
    }

    /// The comment block as it stands in a file: `COMNT` and the padded lines.
    pub fn to_bytes(&self) -> (r: Vec<u8>)
        ensures
            r@ == comment_block(self@),
    {
        let mut out: Vec<u8> = Vec::new();
        out.extend_from_slice(COMNT_HEAD.as_slice());
        let lines = self.to_padded_bytes();
        out.extend_from_slice(lines.as_slice());
        out
    }

    /// The lines as one text: each line filled up with spaces to 64 characters.
    pub fn to_string(&self) -> (r: String)
        ensures
            r@ == decode_bytes(padded_lines(self@)),
    {
        let bytes = self.to_padded_bytes();
        CP437String::from_bytes(bytes.as_slice()).to_string()
    }

    /// Reads comment lines from a text: one line for each whole run of 64 characters, without
    /// the spaces at its end. Fails where a character of a whole run has no glyph.
    pub fn from_str(s: &str) -> (r: Result<Comments, CP437Error>)
        ensures
            match r {
                Ok(comments) => chunks_encodable(s@, s@.len() as int / 64) && comments@
                    == lines_of_text(s@),
                Err(_) => !chunks_encodable(s@, s@.len() as int / 64),
            },
    {
        let chars = chars_of(s);
        let count = chars.len() / 64;
        let mut out = Comments::with_capacity(count);
        let mut k: usize = 0;
        while k < count
            invariant
                k <= count,
                count == chars@.len() / 64,
                chars@.len() <= usize::MAX,
                chars@ == s@,
                chunks_encodable(s@, k as int),
                out@ == lines_of_text(s@).take(k as int),
            decreases count - k,
        {
            assert(k * 64 + 64 <= chars@.len());
            let run = vstd::slice::slice_subrange(
                chars.as_slice(),
                k * 64,
                k * 64 + 64,
            );
            proof {
                assert(run@ =~= chunk(s@, k as int));
            }
            match CP437String::from_chars(run) {
                Ok(line) => {
                    out.push_line(line.strip_trailing_spaces());
                },
                Err(error) => {
                    return Err(error);
                },
            }
            k += 1;
            proof {
                assert(out@ =~= lines_of_text(s@).take(k as int));
            }
        }
        proof {
            assert(lines_of_text(s@).take(k as int) =~= lines_of_text(s@));
        }
        Ok(out)
    }

    /// Reads one comment line from each string, without the spaces at its end. Fails at the
    /// first string with a character that has no glyph.
    pub fn try_from_strings(strings: &Vec<String>) -> (r: Result<Comments, CP437Error>)
        ensures
            match r {
                Ok(comments) => comments@.len() == strings@.len() && forall|i: int|
                    0 <= i < strings@.len() ==> encodable(#[trigger] strings@[i]@) && comments@[i]
                        == strip_trailing(encode_chars(strings@[i]@), ascii::SPACE),
                Err(_) => exists|i: int| 0 <= i < strings@.len() && !encodable(#[trigger] strings@[i]@),
            },
    {
        let mut out = Comments::with_capacity(strings.len());
        let mut i: usize = 0;
        while i < strings.len()
            invariant
                i <= strings@.len(),
                out@.len() == i,
                forall|j: int|
                    0 <= j < i ==> encodable(#[trigger] strings@[j]@) && out@[j] == strip_trailing(
                        encode_chars(strings@[j]@),
                        ascii::SPACE,
                    ),
            decreases strings@.len() - i,
        {
            match out.push(strings[i].as_str()) {
                Ok(_) => {},
                Err(error) => {
                    return Err(error);
                },
            }
            i += 1;
        }
        Ok(out)
    }
}

} // verus!
