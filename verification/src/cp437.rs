//! Text in code page 437: one byte for each glyph.

use vstd::prelude::*;
use crate::ascii;

verus! {

/// Tells that a character has no glyph in code page 437.
#[derive(Clone, Debug, PartialEq, Eq)]
pub enum CP437Error {
    NoEquivalentGlyph,
}

impl CP437Error {
    /// The message that belongs to the error.
    pub fn message(&self) -> (r: &'static str)
        ensures
            r@ == "No equivalent glyph for character"@,
    {
        "No equivalent glyph for character"
    }
}

/// The characters that the 256 glyphs of code page 437 are shown as, by glyph code.
pub const GLYPHS: [char; 256] = [
    '\u{0000}', '\u{263A}', '\u{263B}', '\u{2665}', '\u{2666}', '\u{2663}', '\u{2660}', '\u{2022}',
    '\u{25D8}', '\u{25CB}', '\u{25D9}', '\u{2642}', '\u{2640}', '\u{266A}', '\u{266B}', '\u{263C}',
    '\u{25BA}', '\u{25C4}', '\u{2195}', '\u{203C}', '\u{00B6}', '\u{00A7}', '\u{25AC}', '\u{21A8}',
    '\u{2191}', '\u{2193}', '\u{2192}', '\u{2190}', '\u{221F}', '\u{2194}', '\u{25B2}', '\u{25BC}',
    '\u{0020}', '\u{0021}', '\u{0022}', '\u{0023}', '\u{0024}', '\u{0025}', '\u{0026}', '\u{0027}',
    '\u{0028}', '\u{0029}', '\u{002A}', '\u{002B}', '\u{002C}', '\u{002D}', '\u{002E}', '\u{002F}',
    '\u{0030}', '\u{0031}', '\u{0032}', '\u{0033}', '\u{0034}', '\u{0035}', '\u{0036}', '\u{0037}',
    '\u{0038}', '\u{0039}', '\u{003A}', '\u{003B}', '\u{003C}', '\u{003D}', '\u{003E}', '\u{003F}',
    '\u{0040}', '\u{0041}', '\u{0042}', '\u{0043}', '\u{0044}', '\u{0045}', '\u{0046}', '\u{0047}',
    '\u{0048}', '\u{0049}', '\u{004A}', '\u{004B}', '\u{004C}', '\u{004D}', '\u{004E}', '\u{004F}',
    '\u{0050}', '\u{0051}', '\u{0052}', '\u{0053}', '\u{0054}', '\u{0055}', '\u{0056}', '\u{0057}',
    '\u{0058}', '\u{0059}', '\u{005A}', '\u{005B}', '\u{005C}', '\u{005D}', '\u{005E}', '\u{005F}',
    '\u{0060}', '\u{0061}', '\u{0062}', '\u{0063}', '\u{0064}', '\u{0065}', '\u{0066}', '\u{0067}',
    '\u{0068}', '\u{0069}', '\u{006A}', '\u{006B}', '\u{006C}', '\u{006D}', '\u{006E}', '\u{006F}',
    '\u{0070}', '\u{0071}', '\u{0072}', '\u{0073}', '\u{0074}', '\u{0075}', '\u{0076}', '\u{0077}',
    '\u{0078}', '\u{0079}', '\u{007A}', '\u{007B}', '\u{007C}', '\u{007D}', '\u{007E}', '\u{2302}',
    '\u{00C7}', '\u{00FC}', '\u{00E9}', '\u{00E2}', '\u{00E4}', '\u{00E0}', '\u{00E5}', '\u{00E7}',
    '\u{00EA}', '\u{00EB}', '\u{00E8}', '\u{00EF}', '\u{00EE}', '\u{00EC}', '\u{00C4}', '\u{00C5}',
    '\u{00C9}', '\u{00E6}', '\u{00C6}', '\u{00F4}', '\u{00F6}', '\u{00F2}', '\u{00FB}', '\u{00F9}',
    '\u{00FF}', '\u{00D6}', '\u{00DC}', '\u{00A2}', '\u{00A3}', '\u{00A5}', '\u{20A7}', '\u{0192}',
    '\u{00E1}', '\u{00ED}', '\u{00F3}', '\u{00FA}', '\u{00F1}', '\u{00D1}', '\u{00AA}', '\u{00BA}',
    '\u{00BF}', '\u{2310}', '\u{00AC}', '\u{00BD}', '\u{00BC}', '\u{00A1}', '\u{00AB}', '\u{00BB}',
    '\u{2591}', '\u{2592}', '\u{2593}', '\u{2502}', '\u{2524}', '\u{2561}', '\u{2562}', '\u{2556}',
    '\u{2555}', '\u{2563}', '\u{2551}', '\u{2557}', '\u{255D}', '\u{255C}', '\u{255B}', '\u{2510}',
    '\u{2514}', '\u{2534}', '\u{252C}', '\u{251C}', '\u{2500}', '\u{253C}', '\u{255E}', '\u{255F}',
    '\u{255A}', '\u{2554}', '\u{2569}', '\u{2566}', '\u{2560}', '\u{2550}', '\u{256C}', '\u{2567}',
    '\u{2568}', '\u{2564}', '\u{2565}', '\u{2559}', '\u{2558}', '\u{2552}', '\u{2553}', '\u{256B}',
    '\u{256A}', '\u{2518}', '\u{250C}', '\u{2588}', '\u{2584}', '\u{258C}', '\u{2590}', '\u{2580}',
    '\u{03B1}', '\u{00DF}', '\u{0393}', '\u{03C0}', '\u{03A3}', '\u{03C3}', '\u{00B5}', '\u{03C4}',
    '\u{03A6}', '\u{0398}', '\u{03A9}', '\u{03B4}', '\u{221E}', '\u{03C6}', '\u{03B5}', '\u{2229}',
    '\u{2261}', '\u{00B1}', '\u{2265}', '\u{2264}', '\u{2320}', '\u{2321}', '\u{00F7}', '\u{2248}',
    '\u{00B0}', '\u{2219}', '\u{00B7}', '\u{221A}', '\u{207F}', '\u{00B2}', '\u{25A0}', '\u{00A0}',
];

/// The character that glyph `byte` is shown as.
pub open spec fn glyph(byte: u8) -> char {
    GLYPHS[byte as int]
}

/// No glyph code at or above `from` and below `to` is shown as `ch`.
pub open spec fn no_glyph_between(ch: char, from: int, to: int) -> bool {
    forall|code: u8| from <= code < to ==> glyph(code) != ch
}

/// `code` is the lowest glyph code that is shown as `ch`.
pub open spec fn is_code_of(code: u8, ch: char) -> bool {
    glyph(code) == ch && no_glyph_between(ch, 0, code as int)
}

/// Code page 437 has a glyph that is shown as `ch`.
pub open spec fn has_glyph(ch: char) -> bool {
    exists|code: u8| glyph(code) == ch
}

/// The glyph code that stands for `ch`. It means something only where `ch` has a glyph.
pub open spec fn code_for(ch: char) -> u8 {
    choose|code: u8| is_code_of(code, ch)
}

/// Every character of `chars` has a glyph.
pub open spec fn encodable(chars: Seq<char>) -> bool {
    forall|i: int| 0 <= i < chars.len() ==> has_glyph(#[trigger] chars[i])
}

/// The glyph codes that stand for `chars`.
pub open spec fn encode_chars(chars: Seq<char>) -> Seq<u8> {
    chars.map_values(|ch: char| code_for(ch))
}

/// The characters that the glyph codes `bytes` are shown as.
pub open spec fn decode_bytes(bytes: Seq<u8>) -> Seq<char> {
    bytes.map_values(|byte: u8| glyph(byte))
}

/// A character has at most one lowest glyph code.
pub proof fn lemma_code_unique(code: u8, ch: char)
    requires
        is_code_of(code, ch),
    ensures
        code_for(ch) == code,
        has_glyph(ch),
{
    let other = code_for(ch);
    assert(is_code_of(other, ch));
    if other < code {
        assert(glyph(other) != ch);
    }
    if code < other {
        assert(glyph(code) != ch);
    }
}

/// A character without a glyph in the whole table has none.
pub proof fn lemma_no_glyph(ch: char)
    requires
        no_glyph_between(ch, 0, 256),
    ensures
        !has_glyph(ch),
{
}

/// The character that glyph `byte` is shown as.
pub fn glyph_of(byte: u8) -> (r: char)
    ensures
        r == glyph(byte),
{
    GLYPHS[byte as usize]
}

/// The glyph code that is shown as `ch`: the lowest such code, or `None` where code page 437
/// has no glyph for `ch`.
pub fn code_of(ch: char) -> (r: Option<u8>)
    ensures
        match r {
            Some(code) => is_code_of(code, ch) && code == code_for(ch) && has_glyph(ch),
            None => !has_glyph(ch),
        },
{
    let mut code: u8 = 0;
    loop
        invariant
            no_glyph_between(ch, 0, code as int),
        decreases 255 - code,
    {
        if glyph_of(code) == ch {
            proof {
                lemma_code_unique(code, ch);
            }
            return Some(code);
        }
        if code == 255 {
            proof {
                lemma_no_glyph(ch);
            }
            return None;
        }
        code += 1;
    }
}

/// What is left of `bytes` when every `value` at its end is taken away.
pub open spec fn strip_trailing(bytes: Seq<u8>, value: u8) -> Seq<u8>
    decreases bytes.len(),
{
    if bytes.len() > 0 && bytes.last() == value {
        strip_trailing(bytes.drop_last(), value)
    } else {
        bytes
    }
}

/// `bytes`, with as many `value` behind it as it takes to reach `length`; unchanged where it
/// is that long already.
pub open spec fn pad_to(bytes: Seq<u8>, length: nat, value: u8) -> Seq<u8> {
    if bytes.len() >= length {
        bytes
    } else {
        bytes + Seq::new((length - bytes.len()) as nat, |i: int| value)
    }
}

/// `bytes` does not end in `value`.
pub open spec fn no_trailing(bytes: Seq<u8>, value: u8) -> bool {
    bytes.len() == 0 || bytes.last() != value
}

/// Stripping leaves a start of the sequence that does not end in the value, and takes away
/// nothing but that value.
pub proof fn lemma_strip_trailing(bytes: Seq<u8>, value: u8)
    ensures
        strip_trailing(bytes, value).len() <= bytes.len(),
        strip_trailing(bytes, value) == bytes.take(strip_trailing(bytes, value).len() as int),
        no_trailing(strip_trailing(bytes, value), value),
        forall|i: int|
            strip_trailing(bytes, value).len() <= i < bytes.len() ==> #[trigger] bytes[i] == value,
    decreases bytes.len(),
{
    if bytes.len() > 0 && bytes.last() == value {
        lemma_strip_trailing(bytes.drop_last(), value);
        let kept = strip_trailing(bytes, value);
        assert(kept =~= bytes.take(kept.len() as int));
        assert forall|i: int| kept.len() <= i < bytes.len() implies #[trigger] bytes[i]
            == value by {
            if i < bytes.len() - 1 {
                assert(bytes.drop_last()[i] == bytes[i]);
            }
        }
    } else {
        assert(bytes =~= bytes.take(bytes.len() as int));
    }
}


/// Padding and then stripping gives back what did not end in the padding value.
pub proof fn lemma_strip_pad(bytes: Seq<u8>, length: nat, value: u8)
    requires
        no_trailing(bytes, value),
    ensures
        strip_trailing(pad_to(bytes, length, value), value) == bytes,
    decreases length,
{
    if bytes.len() < length {
        let padded = pad_to(bytes, length, value);
        let shorter = pad_to(bytes, (length - 1) as nat, value);
        assert(padded.len() == length);
        assert(padded.last() == value);
        assert(padded.drop_last() =~= shorter);
        assert(strip_trailing(padded, value) == strip_trailing(shorter, value));
        lemma_strip_pad(bytes, (length - 1) as nat, value);
    } else {
        assert(pad_to(bytes, length, value) == bytes);
        assert(strip_trailing(bytes, value) == bytes);
    }
}

/// A string of code page 437 glyphs. Its view is the sequence of glyph codes.
#[derive(Debug, Clone, PartialEq, Eq)]
pub struct CP437String {
    bytes: Vec<u8>,
}

impl View for CP437String {
    type V = Seq<u8>;

    closed spec fn view(&self) -> Seq<u8> {
        self.bytes@
    }
}

impl Default for CP437String {
    fn default() -> (r: Self)
        ensures
            r@ == Seq::<u8>::empty(),
    {
        CP437String { bytes: Vec::new() }
    }
}

impl CP437String {
    /// The empty string.
    pub fn new() -> (r: CP437String)
        ensures
            r@ == Seq::<u8>::empty(),
    {
        CP437String { bytes: Vec::new() }
    }

    /// The empty string, with room for `capacity` glyphs.
    pub fn with_capacity(capacity: usize) -> (r: CP437String)
        ensures
            r@ == Seq::<u8>::empty(),
    {
        CP437String { bytes: Vec::with_capacity(capacity) }
    }

    /// The string that holds the glyph codes `bytes`.
    pub fn from_bytes(bytes: &[u8]) -> (r: CP437String)
        ensures
            r@ == bytes@,
    {
        let mut out: Vec<u8> = Vec::with_capacity(bytes.len());
        out.extend_from_slice(bytes);
        CP437String { bytes: out }
    }

    /// The glyph codes, as a slice.
    pub fn as_slice(&self) -> (r: &[u8])
        ensures
            r@ == self@,
    {
        self.bytes.as_slice()
    }

    /// The number of glyphs.
    pub fn len(&self) -> (r: usize)
        ensures
            r == self@.len(),
    {
        self.bytes.len()
    }

    /// Tells whether the string holds no glyph.
    pub fn is_empty(&self) -> (r: bool)
        ensures
            r == (self@.len() == 0),
    {
        self.bytes.len() == 0
    }

    /// A copy of the string.
    pub fn duplicate(&self) -> (r: CP437String)
        ensures
            r@ == self@,
    {
        CP437String::from_bytes(self.bytes.as_slice())
    }

    /// Tells whether two strings hold the same glyphs.
    pub fn same_as(&self, other: &CP437String) -> (r: bool)
        ensures
            r == (self@ == other@),
    {
        slices_equal(self.bytes.as_slice(), other.bytes.as_slice())
    }

    /// A copy of the string without the `value` glyphs at its end.
    pub fn strip_trailing_value(&self, value: u8) -> (r: CP437String)
        ensures
            r@ == strip_trailing(self@, value),
    {
        let mut end = self.bytes.len();
        proof {
            assert(self.bytes@.take(end as int) =~= self.bytes@);
        }
        while end > 0 && self.bytes[end - 1] == value
            invariant
                end <= self.bytes@.len(),
                strip_trailing(self.bytes@, value) == strip_trailing(
                    self.bytes@.take(end as int),
                    value,
                ),
            decreases end,
        {
            proof {
                assert(self.bytes@.take(end as int).drop_last() =~= self.bytes@.take(end - 1));
            }
            end -= 1;
        }
        let kept = vstd::slice::slice_subrange(self.bytes.as_slice(), 0, end);
        proof {
            assert(kept@ =~= self.bytes@.take(end as int));
        }
        CP437String::from_bytes(kept)
    }

    /// A copy of the string without the spaces at its end.
    pub fn strip_trailing_spaces(&self) -> (r: CP437String)
        ensures
            r@ == strip_trailing(self@, ascii::SPACE),
    {
        self.strip_trailing_value(ascii::SPACE)
    }

    /// A copy of the string without the NUL glyphs at its end.
    pub fn strip_trailing_nulls(&self) -> (r: CP437String)
        ensures
            r@ == strip_trailing(self@, ascii::NULL),
    {
        self.strip_trailing_value(ascii::NULL)
    }

    /// A copy of the string, filled up with `value` to `length` glyphs where it is shorter.
    pub fn pad_with_value(&self, length: usize, value: u8) -> (r: CP437String)
        ensures
            r@ == pad_to(self@, length as nat, value),
    {
        let mut out = self.duplicate();
        while out.bytes.len() < length
            invariant
                self@.len() <= out@.len(),
                out@.len() <= length || out@.len() == self@.len(),
                out@ == self@ + Seq::new((out@.len() - self@.len()) as nat, |i: int| value),
            decreases length - out.bytes@.len(),
        {
            let ghost before = out@;
            out.bytes.push(value);
            proof {
                assert(out@ =~= self@ + Seq::new((out@.len() - self@.len()) as nat, |i: int| value));
            }
        }
        proof {
            if self@.len() >= length {
                assert(out@ =~= self@);
            }
        }
        out
    }

    /// A copy of the string, filled up with spaces to `length` glyphs.
    pub fn pad_with_spaces(&self, length: usize) -> (r: CP437String)
        ensures
            r@ == pad_to(self@, length as nat, ascii::SPACE),
    {
        self.pad_with_value(length, ascii::SPACE)
    }

    /// A copy of the string, filled up with NUL glyphs to `length` glyphs.
    pub fn pad_with_nulls(&self, length: usize) -> (r: CP437String)
        ensures
            r@ == pad_to(self@, length as nat, ascii::NULL),
    {
        self.pad_with_value(length, ascii::NULL)
    }

    /// Appends the glyph with code `byte`.
    pub fn push_byte(&mut self, byte: u8)
        ensures
            final(self)@ == old(self)@.push(byte),
    {
        self.bytes.push(byte);
    }

    /// Appends the glyph that is shown as `ch`, or fails where there is none.
    pub fn push(&mut self, ch: char) -> (r: Result<(), CP437Error>)
        ensures
            match r {
                Ok(_) => has_glyph(ch) && final(self)@ == old(self)@.push(code_for(ch)),
                Err(_) => !has_glyph(ch) && final(self)@ == old(self)@,
            },
    {
        match code_of(ch) {
            Some(code) => {
                self.bytes.push(code);
                Ok(())
            },
            None => Err(CP437Error::NoEquivalentGlyph),
        }
    }

    /// The string whose glyphs are shown as the characters `chars`, or an error where one of
    /// them has no glyph.
    pub fn from_chars(chars: &[char]) -> (r: Result<CP437String, CP437Error>)
        ensures
            match r {
                Ok(string) => encodable(chars@) && string@ == encode_chars(chars@),
                Err(_) => !encodable(chars@),
            },
    {
        let mut out = CP437String::with_capacity(chars.len());
        let mut i: usize = 0;
        while i < chars.len()
            invariant
                i <= chars@.len(),
                encodable(chars@.take(i as int)),
                out@ == encode_chars(chars@.take(i as int)),
            decreases chars@.len() - i,
        {
            let ch = chars[i];
            match code_of(ch) {
                Some(code) => {
                    out.bytes.push(code);
                    proof {
                        let before = chars@.take(i as int);
                        let after = chars@.take(i + 1);
                        assert(after =~= before.push(ch));
                        assert(out@ =~= encode_chars(after));
                        assert forall|k: int| 0 <= k < after.len() implies has_glyph(
                            #[trigger] after[k],
                        ) by {
                            if k < before.len() {
                                assert(after[k] == before[k]);
                            }
                        }
                    }
                },
                None => {
                    proof {
                        assert(chars@[i as int] == ch);
                    }
                    return Err(CP437Error::NoEquivalentGlyph);
                },
            }
            i += 1;
        }
        proof {
            assert(chars@.take(i as int) =~= chars@);
        }
        Ok(out)
    }

    /// The string whose glyphs are shown as the characters of `s`, or an error where one of
    /// them has no glyph.
    pub fn from_str(s: &str) -> (r: Result<CP437String, CP437Error>)
        ensures
            match r {
                Ok(string) => encodable(s@) && string@ == encode_chars(s@),
                Err(_) => !encodable(s@),
            },
    {
        let chars = chars_of(s);
        CP437String::from_chars(chars.as_slice())
    }

    /// The characters that the glyphs are shown as, as a `String`.
    pub fn to_string(&self) -> (r: String)
        ensures
            r@ == decode_bytes(self@),
    {
        let mut out = String::new();
        let mut i: usize = 0;
        while i < self.bytes.len()
            invariant
                i <= self.bytes@.len(),
                out@ == decode_bytes(self.bytes@.take(i as int)),
            decreases self.bytes@.len() - i,
        {
            crate::text::push_char(&mut out, glyph_of(self.bytes[i]));
            i += 1;
            proof {
                assert(out@ =~= decode_bytes(self.bytes@.take(i as int)));
            }
        }
        proof {
            assert(self.bytes@.take(i as int) =~= self.bytes@);
        }
        out
    }

    /// Takes the last glyph away and returns its code, or `None` where the string is empty.
    pub fn pop(&mut self) -> (r: Option<u8>)
        ensures
            match r {
                Some(byte) => old(self)@.len() > 0 && byte == old(self)@.last() && final(self)@
                    == old(self)@.drop_last(),
                None => old(self)@.len() == 0 && final(self)@ == old(self)@,
            },
    {
        self.bytes.pop()
    }

    /// The code of the last glyph, or `None` where the string is empty.
    pub fn last(&self) -> (r: Option<u8>)
        ensures
            match r {
                Some(byte) => self@.len() > 0 && byte == self@.last(),
                None => self@.len() == 0,
            },
    {
        let n = self.bytes.len();
        if n == 0 {
            None
        } else {
            Some(self.bytes[n - 1])
        }
    }

    /// The characters that the glyphs are shown as, in order.
    pub fn chars(&self) -> (r: Vec<char>)
        ensures
            r@ == decode_bytes(self@),
    {
        let mut out: Vec<char> = Vec::with_capacity(self.bytes.len());
        let mut i: usize = 0;
        while i < self.bytes.len()
            invariant
                i <= self.bytes@.len(),
                out@ == decode_bytes(self.bytes@.take(i as int)),
            decreases self.bytes@.len() - i,
        {
            out.push(glyph_of(self.bytes[i]));
            i += 1;
            proof {
                assert(out@ =~= decode_bytes(self.bytes@.take(i as int)));
            }
        }
        proof {
            assert(self.bytes@.take(i as int) =~= self.bytes@);
        }
        out
    }
}

/// The characters of `s`, in order.
pub fn chars_of(s: &str) -> (r: Vec<char>)
    ensures
        r@ == s@,
{
    let mut out: Vec<char> = Vec::new();
    for ch in iter: s.chars()
        invariant
            iter.seq() == s@,
            out@ == s@.take(iter.index()),
    {
        out.push(ch);
        proof {
            assert(out@ =~= s@.take(iter.index() + 1));
        }
    }
    proof {
        assert(s@.take(s@.len() as int) =~= s@);
    }
    out
}

/// Tells whether two slices hold the same bytes.
pub fn slices_equal(a: &[u8], b: &[u8]) -> (r: bool)
    ensures
        r == (a@ == b@),
{
    if a.len() != b.len() {
        return false;
    }
    let mut i: usize = 0;
    while i < a.len()
        invariant
            i <= a@.len(),
            a@.len() == b@.len(),
            a@.take(i as int) == b@.take(i as int),
        decreases a@.len() - i,
    {
        if a[i] != b[i] {
            return false;
        }
        i += 1;
        proof {
            assert(a@.take(i as int) =~= a@.take(i - 1).push(a@[i - 1]));
            assert(b@.take(i as int) =~= b@.take(i - 1).push(b@[i - 1]));
        }
    }
    proof {
        assert(a@.take(i as int) =~= a@);
        assert(b@.take(i as int) =~= b@);
    }
    true
}

} // verus!
