//! What holds of reading and writing metadata records.

use vstd::prelude::*;
use crate::ascii;
use crate::cp437::{lemma_strip_pad, lemma_strip_trailing, pad_to, strip_trailing};
use crate::sauce::datatype::DataType;
use crate::sauce::filetype::{file_type_fits, file_type_of, FileType};
use crate::sauce::aspect_ratio::AspectRatio;
use crate::sauce::comments::{
    comment_block, lemma_padded_lines_chunk, lemma_padded_lines_len, lines_of, padded_lines,
    COMNT_HEAD,
};
use crate::sauce::layout::{
    content, content_len, decode, decode_record, le_bytes, le_value, lemma_le_bytes_len,
    lemma_le_limits, lemma_le_round_trip, lemma_le_value_bound, updated, SauceView, SAUCE_HEAD,
};
use crate::sauce::letter_spacing::LetterSpacing;
use crate::sauce::sauce_error::SauceError;

verus! {

/// The flags byte gives back the colour mode, the letter spacing and the aspect ratio that
/// it was made of.
pub proof fn lemma_flags(record: SauceView)
    ensures
        (record.flags() % 2 == 1) == record.ice_colors,
        LetterSpacing::of_flags(record.flags()) == record.letter_spacing,
        AspectRatio::of_flags(record.flags()) == record.aspect_ratio,
{
}

/// The record of a value that fits has 128 bytes, and every field stands at its offset.
pub proof fn lemma_record_layout(record: SauceView)
    requires
        record.encodable(),
    ensures
        record.record().len() == 128,
        record.record().subrange(0, 7) == SAUCE_HEAD@,
        record.record().subrange(7, 42) == pad_to(record.title, 35, ascii::SPACE),
        record.record().subrange(42, 62) == pad_to(record.author, 20, ascii::SPACE),
        record.record().subrange(62, 82) == pad_to(record.group, 20, ascii::SPACE),
        record.record().subrange(82, 86) == record.year,
        record.record().subrange(86, 88) == record.month,
        record.record().subrange(88, 90) == record.date,
        record.record().subrange(90, 94) == le_bytes(record.filesize as nat, 4),
        record.record()[94] == record.datatype.code(),
        record.record()[95] == record.filetype.code(),
        record.record().subrange(96, 98) == le_bytes(record.info_1 as nat, 2),
        record.record().subrange(98, 100) == le_bytes(record.info_2 as nat, 2),
        record.record().subrange(100, 102) == le_bytes(record.info_3 as nat, 2),
        record.record().subrange(102, 104) == le_bytes(record.info_4 as nat, 2),
        record.record()[104] == record.comments.len() as u8,
        record.record()[105] == record.flags(),
        record.record().subrange(106, 128) == pad_to(record.info_s, 22, ascii::NULL),
{
    lemma_le_bytes_len(record.filesize as nat, 4);
    lemma_le_bytes_len(record.info_1 as nat, 2);
    lemma_le_bytes_len(record.info_2 as nat, 2);
    lemma_le_bytes_len(record.info_3 as nat, 2);
    lemma_le_bytes_len(record.info_4 as nat, 2);
    let bytes = record.record();
    assert(bytes.len() == 128);
    assert(bytes.subrange(0, 7) =~= SAUCE_HEAD@);
    assert(bytes.subrange(7, 42) =~= pad_to(record.title, 35, ascii::SPACE));
    assert(bytes.subrange(42, 62) =~= pad_to(record.author, 20, ascii::SPACE));
    assert(bytes.subrange(62, 82) =~= pad_to(record.group, 20, ascii::SPACE));
    assert(bytes.subrange(82, 86) =~= record.year);
    assert(bytes.subrange(86, 88) =~= record.month);
    assert(bytes.subrange(88, 90) =~= record.date);
    assert(bytes.subrange(90, 94) =~= le_bytes(record.filesize as nat, 4));
    assert(bytes.subrange(96, 98) =~= le_bytes(record.info_1 as nat, 2));
    assert(bytes.subrange(98, 100) =~= le_bytes(record.info_2 as nat, 2));
    assert(bytes.subrange(100, 102) =~= le_bytes(record.info_3 as nat, 2));
    assert(bytes.subrange(102, 104) =~= le_bytes(record.info_4 as nat, 2));
    assert(bytes.subrange(106, 128) =~= pad_to(record.info_s, 22, ascii::NULL));
}

/// Reading the 128 bytes of a canonical record gives the record back.
pub proof fn lemma_decode_record(record: SauceView)
    requires
        record.canonical(),
    ensures
        decode_record(record.record(), record.comments) == Ok::<SauceView, SauceError>(record),
{
    lemma_record_layout(record);
    lemma_flags(record);
    lemma_le_limits();
    lemma_le_round_trip(record.filesize as nat, 4);
    lemma_le_round_trip(record.info_1 as nat, 2);
    lemma_le_round_trip(record.info_2 as nat, 2);
    lemma_le_round_trip(record.info_3 as nat, 2);
    lemma_le_round_trip(record.info_4 as nat, 2);
    lemma_strip_pad(record.title, 35, ascii::SPACE);
    lemma_strip_pad(record.author, 20, ascii::SPACE);
    lemma_strip_pad(record.group, 20, ascii::SPACE);
    lemma_strip_pad(record.info_s, 22, ascii::NULL);
    let bytes = record.record();
    let found = decode_record(bytes, record.comments);
    assert(found is Ok);
    let read = found->Ok_0;
    assert(read.title == record.title);
    assert(read.info_s == record.info_s);
    assert(read.filesize == record.filesize);
    assert(read == record);
}

/// The trailer of a record that fits has the length that [`SauceView::trailer_len`] gives.
pub proof fn lemma_trailer_len(record: SauceView)
    requires
        record.encodable(),
    ensures
        record.trailer().len() == record.trailer_len(),
        record.block().len() == if record.comments.len() == 0 {
            0
        } else {
            64 * record.comments.len() + 5
        },
{
    lemma_record_layout(record);
    lemma_padded_lines_len(record.comments);
}

/// The lines read from the padded lines of comments that fit and do not end in a space are
/// those comments.
pub proof fn lemma_lines_of_padded(lines: Seq<Seq<u8>>)
    requires
        crate::sauce::comments::lines_fit(lines),
        forall|i: int|
            0 <= i < lines.len() ==> crate::cp437::no_trailing(#[trigger] lines[i], ascii::SPACE),
    ensures
        lines_of(padded_lines(lines), lines.len()) == lines,
{
    let read = lines_of(padded_lines(lines), lines.len());
    assert forall|i: int| 0 <= i < lines.len() implies read[i] == lines[i] by {
        lemma_padded_lines_chunk(lines, Seq::empty(), i);
        assert(padded_lines(lines) + Seq::<u8>::empty() =~= padded_lines(lines));
        lemma_strip_pad(lines[i], 64, ascii::SPACE);
    }
    assert(read =~= lines);
}

/// Reading what was written gives the record back: for every canonical record, and whatever
/// bytes stand before its trailer, the bytes decode to that record.
pub proof fn lemma_decode_encode(before: Seq<u8>, record: SauceView)
    requires
        record.canonical(),
    ensures
        decode(before + record.trailer()) == Ok::<SauceView, SauceError>(record),
{
    lemma_record_layout(record);
    lemma_trailer_len(record);
    lemma_decode_record(record);
    let bytes = before + record.trailer();
    let start = bytes.len() - 128;
    let tail = bytes.subrange(start, bytes.len() as int);
    assert(tail =~= record.record());
    let count = record.comments.len() as int;
    assert(tail[104] as int == count);
    if count == 0 {
        assert(lines_of(Seq::<u8>::empty(), 0) =~= record.comments);
    } else {
        let size = count * 64 + 5;
        lemma_padded_lines_len(record.comments);
        let block = bytes.subrange(start - size, start);
        assert(block =~= comment_block(record.comments));
        assert(block.subrange(0, 5) =~= COMNT_HEAD@);
        assert(block.subrange(5, size) =~= padded_lines(record.comments));
        lemma_lines_of_padded(record.comments);
    }
}

/// The bytes before the trailer of a canonical record are found again: taking the trailer
/// away from a file that ends in it leaves what stood before.
pub proof fn lemma_content_of_written(before: Seq<u8>, record: SauceView)
    requires
        record.canonical(),
    ensures
        content(before + record.trailer()) == before,
        content_len(before + record.trailer()) == before.len(),
{
    lemma_decode_encode(before, record);
    lemma_trailer_len(record);
    assert((before + record.trailer()).take(before.len() as int) =~= before);
}

/// Writing a second record to a file replaces the first: no trailer of an earlier record is
/// left behind, however often a file is written to.
pub proof fn lemma_trailers_do_not_pile_up(bytes: Seq<u8>, first: SauceView, second: SauceView)
    requires
        first.canonical(),
    ensures
        updated(updated(bytes, first), second) == updated(bytes, second),
{
    lemma_content_of_written(content(bytes), first);
}

/// The kind that a kind byte is read as stands for that byte again.
pub proof fn lemma_kind_keeps_its_byte(datatype: DataType, value: u8)
    ensures
        file_type_of(datatype, value) matches Ok(filetype) ==> file_type_fits(datatype, filetype)
            && filetype.code() == value,
{
}

/// What the 128 bytes of a record are read as is canonical, whatever the bytes are, as long
/// as the comments that are handed in are.
pub proof fn lemma_decoded_record_is_canonical(record: Seq<u8>, comments: Seq<Seq<u8>>)
    requires
        record.len() == 128,
        comments.len() <= 255,
        crate::sauce::comments::lines_fit(comments),
        forall|i: int|
            0 <= i < comments.len() ==> crate::cp437::no_trailing(
                #[trigger] comments[i],
                ascii::SPACE,
            ),
    ensures
        decode_record(record, comments) matches Ok(read) ==> read.canonical(),
{
    lemma_kind_keeps_its_byte(DataType::of_code(record[94])->0, record[95]);
    lemma_strip_trailing(record.subrange(7, 42), ascii::SPACE);
    lemma_strip_trailing(record.subrange(42, 62), ascii::SPACE);
    lemma_strip_trailing(record.subrange(62, 82), ascii::SPACE);
    lemma_strip_trailing(record.subrange(106, 128), ascii::NULL);
    lemma_le_limits();
    lemma_le_value_bound(record.subrange(90, 94));
    lemma_le_value_bound(record.subrange(96, 98));
    lemma_le_value_bound(record.subrange(98, 100));
    lemma_le_value_bound(record.subrange(100, 102));
    lemma_le_value_bound(record.subrange(102, 104));
}

/// Reading gives canonical records only: whatever the bytes of a file are, the record
/// that they are read as is one that is read back as itself after it was written.
pub proof fn lemma_decoded_is_canonical(bytes: Seq<u8>)
    ensures
        decode(bytes) matches Ok(read) ==> read.canonical(),
{
    if bytes.len() >= 128 {
        let start = bytes.len() - 128;
        let record = bytes.subrange(start, bytes.len() as int);
        let count = record[104] as int;
        let size = count * 64 + 5;
        if count == 0 {
            lemma_decoded_record_is_canonical(record, lines_of(Seq::empty(), 0));
        } else if size <= start {
            let block = bytes.subrange(start - size, start);
            let lines = lines_of(block.subrange(5, size), count as nat);
            assert forall|i: int| 0 <= i < lines.len() implies (#[trigger] lines[i]).len() <= 64
                && crate::cp437::no_trailing(lines[i], ascii::SPACE) by {
                lemma_strip_trailing(
                    block.subrange(5, size).subrange(64 * i, 64 * i + 64),
                    ascii::SPACE,
                );
            }
            lemma_decoded_record_is_canonical(record, lines);
        }
    }
}

/// Reading, writing and reading again gives what the first reading gave: whatever the bytes
/// of a file are, and whatever stands before the trailer that is written, flags without a
/// meaning and bytes that fill fields up do not come back.
pub proof fn lemma_reading_normalizes(bytes: Seq<u8>, before: Seq<u8>)
    ensures
        decode(bytes) matches Ok(read) ==> decode(before + read.trailer()) == Ok::<
            SauceView,
            SauceError,
        >(read),
{
    lemma_decoded_is_canonical(bytes);
    if decode(bytes) is Ok {
        lemma_decode_encode(before, decode(bytes)->Ok_0);
    }
}

} // verus!
