//! The metadata record that ends a file of terminal art, with its comment block.
//!
//! A file with metadata ends in a trailer: the end-of-file byte, an optional comment block
//! (`COMNT` and one 64-byte line for each comment) and a record of 128 bytes that begins with
//! `SAUCE00`. [`Sauce::decode`] reads the record and its comments from the end of a file's
//! bytes; [`Sauce::encode`] writes a whole trailer.

use vstd::prelude::*;

pub mod aspect_ratio;
pub mod auto;
pub mod comments;
pub mod datatype;
pub mod filetype;
pub mod info_s;
pub mod layout;
pub mod laws;
pub mod letter_spacing;
pub mod sauce_error;

pub use aspect_ratio::AspectRatio;
pub use comments::{Comments, COMNT_HEAD};
pub use datatype::DataType;
pub use filetype::FileType;
pub use info_s::InfoS;
pub use layout::{pack, unpack, SauceView, SAUCE_HEAD};
pub use letter_spacing::LetterSpacing;
pub use sauce_error::SauceError;

use crate::ascii;
use crate::cp437::{slices_equal, CP437String};
use crate::sauce::comments::lines_of;
use crate::sauce::layout::{content, content_len, decode, decode_record};
use vstd::slice::slice_subrange;

verus! {

/// A metadata record with its comments.
#[derive(Clone, Debug, PartialEq, Eq)]
pub struct Sauce {
    pub title: CP437String,
    pub author: CP437String,
    pub group: CP437String,
    pub year: CP437String,
    pub month: CP437String,
    pub date: CP437String,
    pub filesize: usize,
    pub datatype: DataType,
    pub filetype: FileType,
    pub info_1: usize,
    pub info_2: usize,
    pub info_3: usize,
    pub info_4: usize,
    pub ice_colors: bool,
    pub letter_spacing: LetterSpacing,
    pub aspect_ratio: AspectRatio,
    pub info_s: InfoS,
    pub comments: Comments,
}

impl View for Sauce {
    type V = SauceView;

    open spec fn view(&self) -> SauceView {
        SauceView {
            title: self.title@,
            author: self.author@,
            group: self.group@,
            year: self.year@,
            month: self.month@,
            date: self.date@,
            filesize: self.filesize,
            datatype: self.datatype,
            filetype: self.filetype,
            info_1: self.info_1,
            info_2: self.info_2,
            info_3: self.info_3,
            info_4: self.info_4,
            ice_colors: self.ice_colors,
            letter_spacing: self.letter_spacing,
            aspect_ratio: self.aspect_ratio,
            info_s: self.info_s@,
            comments: self.comments@,
        }
    }
}

impl Default for Sauce {
    fn default() -> (r: Self)
        ensures
            r@ == SauceView::blank(),
    {
        Sauce::new()
    }
}

impl Sauce {
    /// A blank record: empty texts, no comments, zero numbers, and the usual preferences.
    pub fn new() -> (r: Sauce)
        ensures
            r@ == SauceView::blank(),
    {
        let r = Sauce {
            title: CP437String::new(),
            author: CP437String::new(),
            group: CP437String::new(),
            year: CP437String::new(),
            month: CP437String::new(),
            date: CP437String::new(),
            filesize: 0,
            datatype: DataType::Undefined,
            filetype: FileType::Undefined,
            info_1: 0,
            info_2: 0,
            info_3: 0,
            info_4: 0,
            ice_colors: false,
            letter_spacing: LetterSpacing::EightPixels,
            aspect_ratio: AspectRatio::Modern,
            info_s: InfoS::IbmVga,
            comments: Comments::new(),
        };
        proof {
            assert(r@.info_s == SauceView::blank().info_s);
        }
        r
    }

    /// A copy of the record.
    pub fn duplicate(&self) -> (r: Sauce)
        ensures
            r@ == self@,
    {
        Sauce {
            title: self.title.duplicate(),
            author: self.author.duplicate(),
            group: self.group.duplicate(),
            year: self.year.duplicate(),
            month: self.month.duplicate(),
            date: self.date.duplicate(),
            filesize: self.filesize,
            datatype: self.datatype,
            filetype: self.filetype,
            info_1: self.info_1,
            info_2: self.info_2,
            info_3: self.info_3,
            info_4: self.info_4,
            ice_colors: self.ice_colors,
            letter_spacing: self.letter_spacing,
            aspect_ratio: self.aspect_ratio,
            info_s: self.info_s.duplicate(),
            comments: self.comments.duplicate(),
        }
    }

    /// The number of bytes that the trailer of this record takes at the end of a file: the
    /// end-of-file byte, the comment block if there are comments, and the record.
    pub fn size(&self) -> (r: usize)
        requires
            self@.comments.len() * 64 + 134 <= usize::MAX,
        ensures
            r == self@.trailer_len(),
    {
        if self.comments.is_empty() {
            128 + 1
        } else {
            128 + (self.comments.len() * 64) + 5 + 1
        }
    }

    /// Tells whether every field fits its place in a record, which is what
    /// [`Sauce::encode`] asks for.
    pub fn is_encodable(&self) -> (r: bool)
        ensures
            r == self@.encodable(),
    {
        self.title.len() <= 35 && self.author.len() <= 20 && self.group.len() <= 20
            && self.year.len() == 4 && self.month.len() == 2 && self.date.len() == 2
            && self.info_s.name_bytes().len() <= 22 && self.comments.len() <= 255
            && self.comments.fits()
    }

    /// Tells whether the record is one that reading gives: whether writing it and reading
    /// it again gives the record back.
    pub fn is_canonical(&self) -> (r: bool)
        ensures
            r == self@.canonical(),
    {
        self.is_encodable() && self.filesize <= 0xFFFF_FFFF && self.info_1 <= 0xFFFF
            && self.info_2 <= 0xFFFF && self.info_3 <= 0xFFFF && self.info_4 <= 0xFFFF
            && does_not_end_in(self.title.as_slice(), ascii::SPACE) && does_not_end_in(
            self.author.as_slice(),
            ascii::SPACE,
        ) && does_not_end_in(self.group.as_slice(), ascii::SPACE) && does_not_end_in(
            self.info_s.name_bytes(),
            ascii::NULL,
        ) && self.comments.trimmed() && self.datatype.accepts(&self.filetype)
    }

    /// The flags byte: bit 0 for the colour mode, bits 1 and 2 for the letter spacing, bits 3
    /// and 4 for the aspect ratio.
    pub fn flags(&self) -> (r: u8)
        ensures
            r == self@.flags(),
    {
        let mut flags: u8 = if self.ice_colors {
            1
        } else {
            0
        };
        flags += self.letter_spacing.to_flags();
        flags += self.aspect_ratio.to_flags();
        flags
    }

    /// The 128 bytes of the record.
    pub fn encode_record(&self) -> (r: Vec<u8>)
        requires
            self@.encodable(),
        ensures
            r@ == self@.record(),
    {
        let mut out: Vec<u8> = Vec::with_capacity(128);
        out.extend_from_slice(SAUCE_HEAD.as_slice());
        out.extend_from_slice(self.title.pad_with_spaces(35).as_slice());
        out.extend_from_slice(self.author.pad_with_spaces(20).as_slice());
        out.extend_from_slice(self.group.pad_with_spaces(20).as_slice());
        out.extend_from_slice(self.year.as_slice());
        out.extend_from_slice(self.month.as_slice());
        out.extend_from_slice(self.date.as_slice());
        out.extend_from_slice(pack(self.filesize, 4).as_slice());
        out.push(self.datatype.to_byte());
        out.push(self.filetype.to_byte());
        out.extend_from_slice(pack(self.info_1, 2).as_slice());
        out.extend_from_slice(pack(self.info_2, 2).as_slice());
        out.extend_from_slice(pack(self.info_3, 2).as_slice());
        out.extend_from_slice(pack(self.info_4, 2).as_slice());
        out.push(self.comments.len() as u8);
        out.push(self.flags());
        let font = CP437String::from_bytes(self.info_s.name_bytes()).pad_with_nulls(22);
        out.extend_from_slice(font.as_slice());
        proof {
            assert(out@ =~= self@.record());
        }
        out
    }

    /// The whole trailer of the record: the end-of-file byte, the comment block if there are
    /// comments, and the record.
    pub fn encode(&self) -> (r: Vec<u8>)
        requires
            self@.encodable(),
        ensures
            r@ == self@.trailer(),
    {
        let mut out: Vec<u8> = Vec::new();
        out.push(ascii::END_OF_FILE);
        if !self.comments.is_empty() {
            out.extend_from_slice(self.comments.to_bytes().as_slice());
        }
        out.extend_from_slice(self.encode_record().as_slice());
        proof {
            assert(out@ =~= self@.trailer());
        }
        out
    }

    /// Reads the record that `bytes` end in, with the comments before it.
    ///
    /// Fails with `NoSauce` where `bytes` are shorter than a record or the last 128 bytes do
    /// not begin with `SAUCE00`; with `CommentsMissing` where the record counts comments and
    /// the bytes before it are too few or do not begin with `COMNT`; with `InvalidDataType`
    /// and `InvalidFileType` where the category byte or the kind byte has no meaning.
    pub fn decode(bytes: &[u8]) -> (r: Result<Sauce, SauceError>)
        ensures
            match r {
                Ok(sauce) => decode(bytes@) == Ok::<SauceView, SauceError>(sauce@)
                    && sauce.info_s.first_of_its_name(),
                Err(error) => decode(bytes@) == Err::<SauceView, SauceError>(error),
            },
    {
        let length = bytes.len();
        if length < 128 {
            return Err(SauceError::NoSauce);
        }
        let start = length - 128;
        let record = slice_subrange(bytes, start, length);
        if !slices_equal(slice_subrange(record, 0, 7), SAUCE_HEAD.as_slice()) {
            return Err(SauceError::NoSauce);
        }
        let count = record[104] as usize;
        let mut comments = Comments::with_capacity(count);
        if count > 0 {
            let size = count * 64 + 5;
            if size > start {
                return Err(SauceError::CommentsMissing);
            }
            let block = slice_subrange(bytes, start - size, start);
            if !slices_equal(slice_subrange(block, 0, 5), COMNT_HEAD.as_slice()) {
                return Err(SauceError::CommentsMissing);
            }
            let lines = slice_subrange(block, 5, size);
            let mut i: usize = 0;
            while i < count
                invariant
                    i <= count <= 255,
                    lines@.len() == count * 64,
                    comments@ == lines_of(lines@, count as nat).take(i as int),
                decreases count - i,
            {
                comments.push_bytes(slice_subrange(lines, 64 * i, 64 * i + 64));
                i += 1;
                proof {
                    assert(comments@ =~= lines_of(lines@, count as nat).take(i as int));
                }
            }
            proof {
                assert(lines_of(lines@, count as nat).take(i as int) =~= lines_of(
                    lines@,
                    count as nat,
                ));
            }
        } else {
            proof {
                assert(comments@ =~= lines_of(Seq::<u8>::empty(), 0));
            }
        }
        Sauce::decode_record(record, comments)
    }

    /// Reads the metadata of a file from its bytes, as [`Sauce::decode`] does, and sets the
    /// file size of the record to the number of bytes that stand before the trailer.
    /// A file that ends in no record gives `Ok(None)`.
    pub fn from_file_bytes(bytes: &[u8]) -> (r: Result<Option<Sauce>, SauceError>)
        ensures
            match decode(bytes@) {
                Ok(found) => r matches Ok(Some(sauce)) && sauce@ == (SauceView {
                    filesize: content_len(bytes@) as usize,
                    ..found
                }),
                Err(SauceError::NoSauce) => r matches Ok(None),
                Err(error) => r == Err::<Option<Sauce>, SauceError>(error),
            },
    {
        match Sauce::decode(bytes) {
            Ok(mut sauce) => {
                let size = sauce.size();
                let length = bytes.len();
                sauce.filesize = if length >= size {
                    length - size
                } else {
                    0
                };
                Ok(Some(sauce))
            },
            Err(SauceError::NoSauce) => Ok(None),
            Err(error) => Err(error),
        }
    }

    /// The bytes of a file without its trailer. A file that ends in no record gives
    /// `Ok(None)`: there is nothing to take away.
    pub fn remove_from(bytes: &[u8]) -> (r: Result<Option<Vec<u8>>, SauceError>)
        ensures
            match decode(bytes@) {
                Ok(_) => r matches Ok(Some(rest)) && rest@ == content(bytes@),
                Err(SauceError::NoSauce) => r matches Ok(None),
                Err(error) => r == Err::<Option<Vec<u8>>, SauceError>(error),
            },
    {
        match Sauce::decode(bytes) {
            Ok(sauce) => {
                let size = sauce.size();
                let length = bytes.len();
                let keep = if length >= size {
                    length - size
                } else {
                    0
                };
                let mut out: Vec<u8> = Vec::with_capacity(keep);
                out.extend_from_slice(slice_subrange(bytes, 0, keep));
                proof {
                    assert(out@ =~= content(bytes@));
                }
                Ok(Some(out))
            },
            Err(SauceError::NoSauce) => Ok(None),
            Err(error) => Err(error),
        }
    }

    /// The bytes of a file with this record as its metadata: the trailer that the file ends
    /// in, if it ends in one that can be read, is taken away, and the trailer of this record
    /// is put in its place.
    pub fn write_to(&self, bytes: &[u8]) -> (r: Vec<u8>)
        requires
            self@.encodable(),
        ensures
            r@ == content(bytes@) + self@.trailer(),
    {
        let length = bytes.len();
        let keep = match Sauce::decode(bytes) {
            Ok(sauce) => {
                let size = sauce.size();
                if length >= size {
                    length - size
                } else {
                    0
                }
            },
            Err(_) => length,
        };
        let mut out: Vec<u8> = Vec::with_capacity(keep);
        out.extend_from_slice(slice_subrange(bytes, 0, keep));
        out.extend_from_slice(self.encode().as_slice());
        proof {
            assert(bytes@.subrange(0, keep as int) =~= content(bytes@));
        }
        out
    }

    /// Reads the fields of the 128 bytes `record`; the comments are handed in.
    fn decode_record(record: &[u8], comments: Comments) -> (r: Result<Sauce, SauceError>)
        requires
            record@.len() == 128,
        ensures
            match r {
                Ok(sauce) => decode_record(record@, comments@) == Ok::<SauceView, SauceError>(
                    sauce@,
                ) && sauce.info_s.first_of_its_name(),
                Err(error) => decode_record(record@, comments@) == Err::<SauceView, SauceError>(
                    error,
                ),
            },
    {
        let datatype = match DataType::from_byte(record[94]) {
            Ok(datatype) => datatype,
            Err(error) => {
                return Err(error);
            },
        };
        let filetype = match datatype.get_filetype(record[95]) {
            Ok(filetype) => filetype,
            Err(error) => {
                return Err(error);
            },
        };
        let flags = record[105];
        assert(flags & 1u8 == flags % 2u8) by (bit_vector);
        let filesize = unpack(slice_subrange(record, 90, 94));
        let info_1 = unpack(slice_subrange(record, 96, 98));
        let info_2 = unpack(slice_subrange(record, 98, 100));
        let info_3 = unpack(slice_subrange(record, 100, 102));
        let info_4 = unpack(slice_subrange(record, 102, 104));
        Ok(
            Sauce {
                title: CP437String::from_bytes(slice_subrange(record, 7, 42)).strip_trailing_spaces(),
                author: CP437String::from_bytes(
                    slice_subrange(record, 42, 62),
                ).strip_trailing_spaces(),
                group: CP437String::from_bytes(
                    slice_subrange(record, 62, 82),
                ).strip_trailing_spaces(),
                year: CP437String::from_bytes(slice_subrange(record, 82, 86)),
                month: CP437String::from_bytes(slice_subrange(record, 86, 88)),
                date: CP437String::from_bytes(slice_subrange(record, 88, 90)),
                filesize,
                datatype,
                filetype,
                info_1,
                info_2,
                info_3,
                info_4,
                ice_colors: (flags & 1) == 1,
                letter_spacing: LetterSpacing::from_flags(flags),
                aspect_ratio: AspectRatio::from_flags(flags),
                info_s: InfoS::from_field(slice_subrange(record, 106, 128)),
                comments,
            },
        )
    }
}

/// A line of the description of a record: a label, a value and a line break.
pub open spec fn described(label: Seq<char>, value: Seq<char>) -> Seq<char> {
    label + value + "\n"@
}

/// The comment lines of a description: each line as characters, with a line break.
pub open spec fn described_lines(lines: Seq<Seq<u8>>) -> Seq<char>
    decreases lines.len(),
{
    if lines.len() == 0 {
        Seq::empty()
    } else {
        described_lines(lines.drop_last()) + crate::cp437::decode_bytes(lines.last()) + "\n"@
    }
}

/// `true` or `false`.
pub open spec fn truth(value: bool) -> Seq<char> {
    if value {
        "true"@
    } else {
        "false"@
    }
}

impl Sauce {
    /// The description of the record: one line for each field, and the comment lines.
    pub open spec fn text(&self) -> Seq<char> {
        described("title: "@, crate::cp437::decode_bytes(self.title@)) + described(
            "author: "@,
            crate::cp437::decode_bytes(self.author@),
        ) + described("group: "@, crate::cp437::decode_bytes(self.group@)) + described(
            "year: "@,
            crate::cp437::decode_bytes(self.year@),
        ) + described("month: "@, crate::cp437::decode_bytes(self.month@)) + described(
            "date: "@,
            crate::cp437::decode_bytes(self.date@),
        ) + described("filesize: "@, crate::text::decimal_digits(self.filesize as nat))
            + described("datatype: "@, self.datatype.name()) + described(
            "filetype: "@,
            self.filetype.name(),
        ) + described("type info 1: "@, crate::text::decimal_digits(self.info_1 as nat))
            + described("type info 2: "@, crate::text::decimal_digits(self.info_2 as nat))
            + described("type info 3: "@, crate::text::decimal_digits(self.info_3 as nat))
            + described("type info 4: "@, crate::text::decimal_digits(self.info_4 as nat))
            + described("ice colors: "@, truth(self.ice_colors)) + described(
            "letter spacing: "@,
            self.letter_spacing.name(),
        ) + described("aspect ratio: "@, self.aspect_ratio.name()) + described(
            "info string: "@,
            self.info_s.text(),
        ) + "comments:\n"@ + described_lines(self.comments@)
    }

    /// The description of the record: one line for each field, and the comment lines.
    pub fn to_string(&self) -> (r: String)
        ensures
            r@ == self.text(),
    {
        let mut out = String::new();
        describe(&mut out, "title: ", self.title.to_string().as_str());
        describe(&mut out, "author: ", self.author.to_string().as_str());
        describe(&mut out, "group: ", self.group.to_string().as_str());
        describe(&mut out, "year: ", self.year.to_string().as_str());
        describe(&mut out, "month: ", self.month.to_string().as_str());
        describe(&mut out, "date: ", self.date.to_string().as_str());
        describe(&mut out, "filesize: ", crate::text::decimal_string(self.filesize).as_str());
        describe(&mut out, "datatype: ", self.datatype.to_string().as_str());
        describe(&mut out, "filetype: ", self.filetype.to_string().as_str());
        describe(&mut out, "type info 1: ", crate::text::decimal_string(self.info_1).as_str());
        describe(&mut out, "type info 2: ", crate::text::decimal_string(self.info_2).as_str());
        describe(&mut out, "type info 3: ", crate::text::decimal_string(self.info_3).as_str());
        describe(&mut out, "type info 4: ", crate::text::decimal_string(self.info_4).as_str());
        describe(
            &mut out,
            "ice colors: ",
            if self.ice_colors {
                "true"
            } else {
                "false"
            },
        );
        describe(&mut out, "letter spacing: ", self.letter_spacing.to_string().as_str());
        describe(&mut out, "aspect ratio: ", self.aspect_ratio.to_string().as_str());
        describe(&mut out, "info string: ", self.info_s.to_string().as_str());
        crate::text::append(&mut out, "comments:\n");
        let ghost head = out@;
        let mut i: usize = 0;
        proof {
            assert(out@ =~= head + described_lines(self.comments@.take(0)));
        }
        while i < self.comments.len()
            invariant
                i <= self.comments@.len(),
                out@ == head + described_lines(self.comments@.take(i as int)),
            decreases self.comments@.len() - i,
        {
            let line = self.comments.get(i).to_string();
            crate::text::append(&mut out, line.as_str());
            crate::text::append(&mut out, "\n");
            i += 1;
            proof {
                let lines = self.comments@.take(i as int);
                assert(lines.drop_last() =~= self.comments@.take(i - 1));
                assert(out@ =~= head + described_lines(lines));
            }
        }
        proof {
            assert(self.comments@.take(i as int) =~= self.comments@);
        }
        out
    }
}

/// Appends a line of a description to `out`: the label, the value and a line break.
pub fn describe(out: &mut String, label: &str, value: &str)
    ensures
        final(out)@ == old(out)@ + described(label@, value@),
{
    crate::text::append(out, label);
    crate::text::append(out, value);
    crate::text::append(out, "\n");
    proof {
        assert(out@ =~= old(out)@ + described(label@, value@));
    }
}

/// Tells whether `bytes` do not end in `value`.
pub fn does_not_end_in(bytes: &[u8], value: u8) -> (r: bool)
    ensures
        r == crate::cp437::no_trailing(bytes@, value),
{
    bytes.len() == 0 || bytes[bytes.len() - 1] != value
}

} // verus!
