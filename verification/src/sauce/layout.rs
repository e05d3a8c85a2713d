//! The byte layout of a metadata record, stated over sequences of bytes.
//!
//! | offset | length | field |
//! |---|---|---|
//! | 0 | 7 | `SAUCE00` |
//! | 7 | 35 | title, filled up with spaces |
//! | 42 | 20 | author, filled up with spaces |
//! | 62 | 20 | group, filled up with spaces |
//! | 82 | 4 | year |
//! | 86 | 2 | month |
//! | 88 | 2 | day |
//! | 90 | 4 | file size, lowest byte first |
//! | 94 | 1 | category |
//! | 95 | 1 | kind |
//! | 96 | 8 | four numbers of two bytes, lowest byte first |
//! | 104 | 1 | number of comments |
//! | 105 | 1 | flags |
//! | 106 | 22 | font name, filled up with NUL |

use vstd::prelude::*;
use crate::ascii;
use crate::cp437::{no_trailing, pad_to, strip_trailing};
use crate::sauce::aspect_ratio::AspectRatio;
use crate::sauce::comments::{comment_block, lines_fit, lines_of, padded_lines, COMNT_HEAD};
use crate::sauce::datatype::DataType;
use crate::sauce::filetype::{file_type_fits, file_type_of, FileType};
use crate::sauce::letter_spacing::LetterSpacing;
use crate::sauce::sauce_error::SauceError;

verus! {

/// The seven bytes that open a record: `SAUCE00`.
pub const SAUCE_HEAD: [u8; 7] = [0x53, 0x41, 0x55, 0x43, 0x45, 0x30, 0x30];

/// `width` bytes that hold `value`, lowest byte first. What does not fit is left out.
pub open spec fn le_bytes(value: nat, width: nat) -> Seq<u8>
    decreases width,
{
    if width == 0 {
        Seq::empty()
    } else {
        seq![(value % 256) as u8] + le_bytes(value / 256, (width - 1) as nat)
    }
}

/// The number that `bytes` hold, lowest byte first.
pub open spec fn le_value(bytes: Seq<u8>) -> nat
    decreases bytes.len(),
{
    if bytes.len() == 0 {
        0
    } else {
        bytes[0] as nat + 256 * le_value(bytes.drop_first())
    }
}

/// The first number that `width` bytes cannot hold.
pub open spec fn le_limit(width: nat) -> nat
    decreases width,
{
    if width == 0 {
        1
    } else {
        256 * le_limit((width - 1) as nat)
    }
}

/// `le_bytes` gives as many bytes as asked for.
pub proof fn lemma_le_bytes_len(value: nat, width: nat)
    ensures
        le_bytes(value, width).len() == width,
    decreases width,
{
    if width > 0 {
        lemma_le_bytes_len(value / 256, (width - 1) as nat);
    }
}

/// A number that fits is read back from its bytes.
pub proof fn lemma_le_round_trip(value: nat, width: nat)
    requires
        value < le_limit(width),
    ensures
        le_value(le_bytes(value, width)) == value,
    decreases width,
{
    if width > 0 {
        let rest = le_bytes(value / 256, (width - 1) as nat);
        let all = le_bytes(value, width);
        assert(all.drop_first() =~= rest);
        lemma_le_round_trip(value / 256, (width - 1) as nat);
    }
}

/// Bytes hold a number below the limit of their count.
pub proof fn lemma_le_value_bound(bytes: Seq<u8>)
    ensures
        le_value(bytes) < le_limit(bytes.len()),
    decreases bytes.len(),
{
    if bytes.len() > 0 {
        lemma_le_value_bound(bytes.drop_first());
    }
}

/// Two bytes hold the numbers below 65536, four bytes those below 4294967296.
pub proof fn lemma_le_limits()
    ensures
        le_limit(2) == 0x1_0000,
        le_limit(4) == 0x1_0000_0000,
{
    reveal_with_fuel(le_limit, 5);
}

/// Writes `value` into `width` bytes, lowest byte first. What does not fit is left out.
pub fn pack(value: usize, width: usize) -> (r: Vec<u8>)
    ensures
        r@ == le_bytes(value as nat, width as nat),
{
    let mut out: Vec<u8> = Vec::with_capacity(width);
    let mut rest = value;
    let mut i: usize = 0;
    while i < width
        invariant
            i <= width,
            le_bytes(value as nat, width as nat) == out@ + le_bytes(rest as nat, (width - i) as nat),
        decreases width - i,
    {
        let ghost before = out@;
        let byte = (rest % 256) as u8;
        out.push(byte);
        rest = rest / 256;
        i += 1;
        proof {
            let tail = le_bytes(rest as nat, (width - i) as nat);
            assert(before + (seq![byte] + tail) =~= out@ + tail);
        }
    }
    proof {
        assert(out@ + Seq::<u8>::empty() =~= out@);
    }
    out
}

/// Reads the number that at most four bytes hold, lowest byte first.
pub fn unpack(bytes: &[u8]) -> (r: usize)
    requires
        bytes@.len() <= 4,
    ensures
        r == le_value(bytes@),
{
    let mut value: usize = 0;
    let mut i: usize = bytes.len();
    proof {
        lemma_le_limits();
        assert(bytes@.subrange(i as int, bytes@.len() as int) =~= Seq::<u8>::empty());
    }
    while i > 0
        invariant
            i <= bytes@.len() <= 4,
            value == le_value(bytes@.subrange(i as int, bytes@.len() as int)),
        decreases i,
    {
        proof {
            let tail = bytes@.subrange(i as int, bytes@.len() as int);
            let longer = bytes@.subrange(i - 1, bytes@.len() as int);
            assert(longer.drop_first() =~= tail);
            lemma_le_value_bound(tail);
            lemma_le_value_bound(longer);
            lemma_le_limit_grows(longer.len(), 4);
            lemma_le_limits();
        }
        i -= 1;
        value = value * 256 + bytes[i] as usize;
    }
    proof {
        assert(bytes@.subrange(0, bytes@.len() as int) =~= bytes@);
    }
    value
}

/// More bytes hold larger numbers.
pub proof fn lemma_le_limit_grows(narrow: nat, wide: nat)
    requires
        narrow <= wide,
    ensures
        le_limit(narrow) <= le_limit(wide),
        le_limit(narrow) >= 1,
    decreases wide,
{
    if narrow < wide {
        lemma_le_limit_grows(narrow, (wide - 1) as nat);
    } else if narrow > 0 {
        lemma_le_limit_grows((narrow - 1) as nat, (narrow - 1) as nat);
    }
}

/// What a metadata record holds, as plain values: texts as sequences of glyph codes.
pub struct SauceView {
    pub title: Seq<u8>,
    pub author: Seq<u8>,
    pub group: Seq<u8>,
    pub year: Seq<u8>,
    pub month: Seq<u8>,
    pub date: Seq<u8>,
    pub filesize: usize,
    pub datatype: DataType,
    pub filetype: FileType,
    pub info_1: usize,
    pub info_2: usize,
    pub info_3: usize,
    pub info_4: usize,
    pub ice_colors: bool,
    pub letter_spacing: LetterSpacing,
    pub aspect_ratio: AspectRatio,
    pub info_s: Seq<u8>,
    pub comments: Seq<Seq<u8>>,
}

/// The name of the font that a blank record names.
pub open spec fn blank_font() -> Seq<u8> {
    crate::sauce::info_s::fixed_name_bytes(0)
}

impl SauceView {
    /// The blank record.
    pub open spec fn blank() -> SauceView {
        SauceView {
            title: Seq::empty(),
            author: Seq::empty(),
            group: Seq::empty(),
            year: Seq::empty(),
            month: Seq::empty(),
            date: Seq::empty(),
            filesize: 0,
            datatype: DataType::Undefined,
            filetype: FileType::Undefined,
            info_1: 0,
            info_2: 0,
            info_3: 0,
            info_4: 0,
            ice_colors: false,
            letter_spacing: LetterSpacing::EightPixels,
            aspect_ratio: AspectRatio::Modern,
            info_s: blank_font(),
            comments: Seq::empty(),
        }
    }

    /// Every field fits its place in a record: the texts are no longer than their fields,
    /// the date fields are full, and there are at most 255 comments of at most 64 glyphs.
    pub open spec fn encodable(self) -> bool {
        &&& self.title.len() <= 35
        &&& self.author.len() <= 20
        &&& self.group.len() <= 20
        &&& self.year.len() == 4
        &&& self.month.len() == 2
        &&& self.date.len() == 2
        &&& self.info_s.len() <= 22
        &&& self.comments.len() <= 255
        &&& lines_fit(self.comments)
    }

    /// The numbers are no larger than their fields hold: four bytes for the file size, two
    /// for each of the other numbers.
    pub open spec fn numbers_fit(self) -> bool {
        &&& self.filesize < 0x1_0000_0000
        &&& self.info_1 < 0x1_0000
        &&& self.info_2 < 0x1_0000
        &&& self.info_3 < 0x1_0000
        &&& self.info_4 < 0x1_0000
    }

    /// The record is one that reading gives: it fits, the numbers fit, no text ends in the
    /// byte that fills its field up, and the kind is one that the category defines.
    pub open spec fn canonical(self) -> bool {
        &&& self.encodable()
        &&& self.numbers_fit()
        &&& no_trailing(self.title, ascii::SPACE)
        &&& no_trailing(self.author, ascii::SPACE)
        &&& no_trailing(self.group, ascii::SPACE)
        &&& no_trailing(self.info_s, ascii::NULL)
        &&& forall|i: int|
            0 <= i < self.comments.len() ==> no_trailing(#[trigger] self.comments[i], ascii::SPACE)
        &&& file_type_fits(self.datatype, self.filetype)
    }

    /// The flags byte: bit 0 for the colour mode, bits 1 and 2 for the letter spacing, bits 3
    /// and 4 for the aspect ratio.
    pub open spec fn flags(self) -> u8 {
        ((if self.ice_colors {
            1nat
        } else {
            0nat
        }) + self.letter_spacing.field() * 2 + self.aspect_ratio.field() * 8) as u8
    }

    /// The 128 bytes of the record.
    pub open spec fn record(self) -> Seq<u8> {
        SAUCE_HEAD@ + pad_to(self.title, 35, ascii::SPACE) + pad_to(self.author, 20, ascii::SPACE)
            + pad_to(self.group, 20, ascii::SPACE) + self.year + self.month + self.date
            + le_bytes(self.filesize as nat, 4) + seq![self.datatype.code(), self.filetype.code()]
            + le_bytes(self.info_1 as nat, 2) + le_bytes(self.info_2 as nat, 2) + le_bytes(
            self.info_3 as nat,
            2,
        ) + le_bytes(self.info_4 as nat, 2) + seq![self.comments.len() as u8, self.flags()]
            + pad_to(self.info_s, 22, ascii::NULL)
    }

    /// The comment block of the record, empty where it has no comments.
    pub open spec fn block(self) -> Seq<u8> {
        if self.comments.len() == 0 {
            Seq::empty()
        } else {
            comment_block(self.comments)
        }
    }

    /// The whole trailer: the end-of-file byte, the comment block and the record.
    pub open spec fn trailer(self) -> Seq<u8> {
        seq![ascii::END_OF_FILE] + self.block() + self.record()
    }

    /// The number of bytes of the trailer of a record that fits.
    pub open spec fn trailer_len(self) -> nat {
        if self.comments.len() == 0 {
            129
        } else {
            (128 + self.comments.len() * 64 + 5 + 1) as nat
        }
    }
}

/// What the 128 bytes `record` hold, with the comments handed in.
pub open spec fn decode_record(record: Seq<u8>, comments: Seq<Seq<u8>>) -> Result<
    SauceView,
    SauceError,
> {
    match DataType::of_code(record[94]) {
        None => Err(SauceError::InvalidDataType),
        Some(datatype) => match file_type_of(datatype, record[95]) {
            Err(error) => Err(error),
            Ok(filetype) => Ok(
                SauceView {
                    title: strip_trailing(record.subrange(7, 42), ascii::SPACE),
                    author: strip_trailing(record.subrange(42, 62), ascii::SPACE),
                    group: strip_trailing(record.subrange(62, 82), ascii::SPACE),
                    year: record.subrange(82, 86),
                    month: record.subrange(86, 88),
                    date: record.subrange(88, 90),
                    filesize: le_value(record.subrange(90, 94)) as usize,
                    datatype,
                    filetype,
                    info_1: le_value(record.subrange(96, 98)) as usize,
                    info_2: le_value(record.subrange(98, 100)) as usize,
                    info_3: le_value(record.subrange(100, 102)) as usize,
                    info_4: le_value(record.subrange(102, 104)) as usize,
                    ice_colors: record[105] % 2 == 1,
                    letter_spacing: LetterSpacing::of_flags(record[105]),
                    aspect_ratio: AspectRatio::of_flags(record[105]),
                    info_s: strip_trailing(record.subrange(106, 128), ascii::NULL),
                    comments,
                },
            ),
        },
    }
}

/// What the bytes of a file say about its metadata: the record that they end in, or the
/// reason why there is none to be had.
pub open spec fn decode(bytes: Seq<u8>) -> Result<SauceView, SauceError> {
    if bytes.len() < 128 {
        Err(SauceError::NoSauce)
    } else {
        let start = bytes.len() - 128;
        let record = bytes.subrange(start, bytes.len() as int);
        let count = record[104] as int;
        let size = count * 64 + 5;
        if record.subrange(0, 7) != SAUCE_HEAD@ {
            Err(SauceError::NoSauce)
        } else if count == 0 {
            decode_record(record, lines_of(Seq::empty(), 0))
        } else if size > start {
            Err(SauceError::CommentsMissing)
        } else {
            let block = bytes.subrange(start - size, start);
            if block.subrange(0, 5) != COMNT_HEAD@ {
                Err(SauceError::CommentsMissing)
            } else {
                decode_record(record, lines_of(block.subrange(5, size), count as nat))
            }
        }
    }
}

/// The number of bytes of a file that stand before its trailer: all of them where the file
/// ends in no record that can be read.
pub open spec fn content_len(bytes: Seq<u8>) -> nat {
    match decode(bytes) {
        Ok(found) => if bytes.len() >= found.trailer_len() {
            (bytes.len() - found.trailer_len()) as nat
        } else {
            0
        },
        Err(_) => bytes.len(),
    }
}

/// The bytes of a file that stand before its trailer.
pub open spec fn content(bytes: Seq<u8>) -> Seq<u8> {
    bytes.take(content_len(bytes) as int)
}

/// The bytes of a file after the record `record` was written to it.
pub open spec fn updated(bytes: Seq<u8>, record: SauceView) -> Seq<u8> {
    content(bytes) + record.trailer()
}

} // verus!
