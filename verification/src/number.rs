//! Lists of decimal integers separated by `;`, as the parameters of a control sequence are
//! written.
//!
//! A list is cut into segments at every `;`. A segment made of digits only stands for a
//! number; an empty segment that a `;` closes stands for the configured default, if there is
//! one; every other segment is dropped and the reading goes on behind it.

use vstd::prelude::*;
use crate::ascii;

verus! {

/// The value of one ASCII digit, zero for any other byte.
pub open spec fn digit_value(byte: u8) -> nat {
    if ascii::is_digit(byte) {
        (byte - ascii::DIGIT_0) as nat
    } else {
        0
    }
}

/// The number that a run of ASCII digits denotes, most significant digit first.
pub open spec fn decimal_value(digits: Seq<u8>) -> nat
    decreases digits.len(),
{
    if digits.len() == 0 {
        0
    } else {
        decimal_value(digits.drop_last()) * 10 + digit_value(digits.last())
    }
}

/// Every byte of `bytes` is an ASCII digit.
pub open spec fn all_digits(bytes: Seq<u8>) -> bool {
    forall|i: int| 0 <= i < bytes.len() ==> ascii::is_digit(#[trigger] bytes[i])
}

/// A number cut off at the largest value a `usize` holds.
pub open spec fn clamp(value: nat) -> usize {
    if value > usize::MAX {
        usize::MAX
    } else {
        value as usize
    }
}

/// What a run of digits reads as: its decimal value, or `usize::MAX` where that is larger.
pub open spec fn clamped_value(digits: Seq<u8>) -> usize {
    clamp(decimal_value(digits))
}

/// The index of the first `;` at or after `from`, or the length of `bytes` where none follows.
pub open spec fn segment_end(bytes: Seq<u8>, from: int) -> int
    decreases bytes.len() - from,
{
    if from < 0 || from >= bytes.len() {
        bytes.len() as int
    } else if bytes[from] == ascii::SEMI_COLON {
        from
    } else {
        segment_end(bytes, from + 1)
    }
}

/// What one segment yields. `terminated` tells whether a `;` closes it.
pub open spec fn segment_value(segment: Seq<u8>, terminated: bool, default: Option<usize>) -> Option<
    usize,
> {
    if segment.len() == 0 {
        if terminated {
            default
        } else {
            None
        }
    } else if all_digits(segment) {
        Some(clamped_value(segment))
    } else {
        None
    }
}

/// The numbers that the list yields when read from index `from`, in order.
pub open spec fn values_from(bytes: Seq<u8>, from: int, default: Option<usize>) -> Seq<usize>
    decreases bytes.len() - from,
{
    if from < 0 || from >= bytes.len() {
        Seq::empty()
    } else {
        let end = segment_end(bytes, from);
        let terminated = end < bytes.len();
        let rest = if terminated && end >= from {
            values_from(bytes, end + 1, default)
        } else {
            Seq::empty()
        };
        match segment_value(bytes.subrange(from, end), terminated, default) {
            Some(value) => seq![value] + rest,
            None => rest,
        }
    }
}

/// Where the reading stands after the next number was yielded from index `from`: behind the
/// `;` that closes the segment of that number, or at the end of the list where no `;` closes
/// it or no number is left.
pub open spec fn next_position(bytes: Seq<u8>, from: int, default: Option<usize>) -> int
    decreases bytes.len() - from,
{
    if from < 0 || from >= bytes.len() {
        bytes.len() as int
    } else {
        let end = segment_end(bytes, from);
        let terminated = end < bytes.len();
        if !terminated || end < from {
            bytes.len() as int
        } else if segment_value(bytes.subrange(from, end), terminated, default) is Some {
            end + 1
        } else {
            next_position(bytes, end + 1, default)
        }
    }
}

/// The numbers of a whole list.
pub open spec fn values(bytes: Seq<u8>, default: Option<usize>) -> Seq<usize> {
    values_from(bytes, 0, default)
}

/// The end of a segment lies at or behind its start, within the list, on a `;` or on the end
/// of the list, and no `;` stands before it.
pub proof fn lemma_segment_end(bytes: Seq<u8>, from: int)
    requires
        0 <= from <= bytes.len(),
    ensures
        from <= segment_end(bytes, from) <= bytes.len(),
        segment_end(bytes, from) < bytes.len() ==> bytes[segment_end(bytes, from)]
            == ascii::SEMI_COLON,
        forall|i: int| from <= i < segment_end(bytes, from) ==> bytes[i] != ascii::SEMI_COLON,
    decreases bytes.len() - from,
{
    if from < bytes.len() && bytes[from] != ascii::SEMI_COLON {
        lemma_segment_end(bytes, from + 1);
    }
}

/// Appending one digit multiplies the value by ten and adds the digit.
pub proof fn lemma_decimal_push(digits: Seq<u8>, digit: u8)
    ensures
        decimal_value(digits.push(digit)) == decimal_value(digits) * 10 + digit_value(digit),
{
    assert(digits.push(digit).drop_last() =~= digits);
}

/// A segment made of digits only, whose number a `usize` holds, yields that number, whatever
/// stands in the other segments.
pub proof fn lemma_digit_segment_decodes(bytes: Seq<u8>, from: int, default: Option<usize>)
    requires
        0 <= from < bytes.len(),
        from < segment_end(bytes, from),
        all_digits(bytes.subrange(from, segment_end(bytes, from))),
        decimal_value(bytes.subrange(from, segment_end(bytes, from))) <= usize::MAX,
    ensures
        values_from(bytes, from, default).len() > 0,
        values_from(bytes, from, default)[0] == decimal_value(
            bytes.subrange(from, segment_end(bytes, from)),
        ),
{
    lemma_segment_end(bytes, from);
}

/// A segment that holds a byte other than a digit yields nothing, not even a zero: the list
/// reads as if it began behind that segment.
pub proof fn lemma_other_segment_skipped(bytes: Seq<u8>, from: int, default: Option<usize>)
    requires
        0 <= from < bytes.len(),
        !all_digits(bytes.subrange(from, segment_end(bytes, from))),
    ensures
        values_from(bytes, from, default) == values_from(
            bytes,
            segment_end(bytes, from) + 1,
            default,
        ),
{
    lemma_segment_end(bytes, from);
}

/// An empty segment that a `;` closes yields the default where one is set, and nothing
/// otherwise.
pub proof fn lemma_empty_segment(bytes: Seq<u8>, from: int, default: Option<usize>)
    requires
        0 <= from < bytes.len(),
        bytes[from] == ascii::SEMI_COLON,
    ensures
        values_from(bytes, from, default) == match default {
            Some(value) => seq![value] + values_from(bytes, from + 1, default),
            None => values_from(bytes, from + 1, default),
        },
{
    assert(bytes.subrange(from, from).len() == 0);
}

/// A run of digits: at least one byte, digits only, and a number that a `usize` holds.
pub open spec fn digit_run(run: Seq<u8>) -> bool {
    run.len() > 0 && all_digits(run) && decimal_value(run) <= usize::MAX
}

/// The runs written as one list, with a `;` between each two.
pub open spec fn joined(runs: Seq<Seq<u8>>) -> Seq<u8>
    decreases runs.len(),
{
    if runs.len() == 0 {
        Seq::empty()
    } else if runs.len() == 1 {
        runs[0]
    } else {
        runs[0] + seq![ascii::SEMI_COLON] + joined(runs.drop_first())
    }
}

/// The decimal values of the runs, in order.
pub open spec fn run_values(runs: Seq<Seq<u8>>) -> Seq<usize> {
    Seq::new(runs.len(), |i: int| decimal_value(runs[i]) as usize)
}

/// A segment ends at `end` where no `;` stands from `from` up to `end`, and `end` is a `;`
/// or the end of the list.
pub proof fn lemma_segment_end_is(bytes: Seq<u8>, from: int, end: int)
    requires
        0 <= from <= end <= bytes.len(),
        forall|i: int| from <= i < end ==> bytes[i] != ascii::SEMI_COLON,
        end < bytes.len() ==> bytes[end] == ascii::SEMI_COLON,
    ensures
        segment_end(bytes, from) == end,
    decreases end - from,
{
    if from < end {
        lemma_segment_end_is(bytes, from + 1, end);
    }
}

/// The end of a segment does not depend on the bytes before the segment.
pub proof fn lemma_segment_end_behind(bytes: Seq<u8>, from: int, skipped: int)
    requires
        0 <= skipped <= from <= bytes.len(),
    ensures
        segment_end(bytes, from) == skipped + segment_end(bytes.skip(skipped), from - skipped),
    decreases bytes.len() - from,
{
    if from < bytes.len() {
        assert(bytes.skip(skipped)[from - skipped] == bytes[from]);
        if bytes[from] != ascii::SEMI_COLON {
            lemma_segment_end_behind(bytes, from + 1, skipped);
        }
    }
}

/// The numbers of a list from an index on do not depend on the bytes before that index.
pub proof fn lemma_values_behind(bytes: Seq<u8>, from: int, skipped: int, default: Option<usize>)
    requires
        0 <= skipped <= from <= bytes.len(),
    ensures
        values_from(bytes, from, default) == values_from(
            bytes.skip(skipped),
            from - skipped,
            default,
        ),
    decreases bytes.len() - from,
{
    if from < bytes.len() {
        lemma_segment_end(bytes, from);
        lemma_segment_end_behind(bytes, from, skipped);
        let end = segment_end(bytes, from);
        assert(bytes.subrange(from, end) =~= bytes.skip(skipped).subrange(
            from - skipped,
            end - skipped,
        ));
        if end < bytes.len() {
            lemma_values_behind(bytes, end + 1, skipped, default);
        }
    }
}

/// A whole list of runs of digits with a `;` between each two reads as the decimal values
/// of the runs, one for each run and in their order, whatever the default.
pub proof fn lemma_digit_runs_decode(runs: Seq<Seq<u8>>, default: Option<usize>)
    requires
        forall|i: int| 0 <= i < runs.len() ==> digit_run(#[trigger] runs[i]),
    ensures
        values(joined(runs), default) == run_values(runs),
    decreases runs.len(),
{
    let bytes = joined(runs);
    if runs.len() == 0 {
        assert(run_values(runs) =~= Seq::<usize>::empty());
    } else {
        let first = runs[0];
        assert(digit_run(first));
        let end = first.len() as int;
        if runs.len() == 1 {
            lemma_segment_end_is(bytes, 0, end);
            assert(bytes.subrange(0, end) =~= first);
            assert(values(bytes, default) =~= seq![decimal_value(first) as usize]);
            assert(run_values(runs) =~= seq![decimal_value(first) as usize]);
        } else {
            let rest = runs.drop_first();
            assert forall|i: int| 0 <= i < rest.len() implies digit_run(#[trigger] rest[i]) by {
                assert(rest[i] == runs[i + 1]);
            }
            lemma_digit_runs_decode(rest, default);
            assert forall|i: int| 0 <= i < end implies bytes[i] != ascii::SEMI_COLON by {
                assert(bytes[i] == first[i]);
            }
            assert(bytes[end] == ascii::SEMI_COLON);
            lemma_segment_end_is(bytes, 0, end);
            assert(bytes.subrange(0, end) =~= first);
            assert(bytes.skip(end + 1) =~= joined(rest));
            lemma_values_behind(bytes, end + 1, end + 1, default);
            assert(values(bytes, default) =~= seq![decimal_value(first) as usize] + values(
                joined(rest),
                default,
            ));
            assert(run_values(runs) =~= seq![decimal_value(first) as usize] + run_values(rest));
        }
    }
}

/// Appends one digit to a number read so far, stopping at `usize::MAX`.
pub fn push_digit(value: usize, digit: u8) -> (r: usize)
    requires
        ascii::is_digit(digit),
    ensures
        r == clamp((value * 10 + digit_value(digit)) as nat),
{
    let d: usize = (digit - ascii::DIGIT_0) as usize;
    match value.checked_mul(10) {
        Some(tens) => match tens.checked_add(d) {
            Some(sum) => sum,
            None => usize::MAX,
        },
        None => usize::MAX,
    }
}

/// Clamping after each digit gives the clamped value of the whole run.
pub proof fn lemma_clamped_push(digits: Seq<u8>, digit: u8)
    requires
        ascii::is_digit(digit),
    ensures
        clamped_value(digits.push(digit)) == clamp(
            (clamped_value(digits) * 10 + digit_value(digit)) as nat,
        ),
{
    lemma_decimal_push(digits, digit);
}

/// A reader over a list of integers. Each call of [`NumberSequenceIterator::next`] yields the
/// next number of the list.
pub struct NumberSequenceIterator<'a> {
    bytes: &'a [u8],
    position: usize,
    default: Option<usize>,
}

impl<'a> NumberSequenceIterator<'a> {
    #[verifier::type_invariant]
    spec fn inv(self) -> bool {
        self.position <= self.bytes@.len()
    }

    /// The list that is read.
    pub closed spec fn bytes(&self) -> Seq<u8> {
        self.bytes@
    }

    /// The index of the next byte to read.
    pub closed spec fn position(&self) -> int {
        self.position as int
    }

    /// The number that an empty, closed segment yields, if any.
    pub closed spec fn default_value(&self) -> Option<usize> {
        self.default
    }

    /// The numbers still to come.
    pub open spec fn remaining(&self) -> Seq<usize> {
        values_from(self.bytes(), self.position(), self.default_value())
    }

    /// A reader at the start of `bytes`.
    pub fn new(bytes: &'a [u8], default: Option<usize>) -> (r: Self)
        ensures
            r.bytes() == bytes@,
            r.position() == 0,
            r.default_value() == default,
    {
        NumberSequenceIterator { bytes, position: 0, default }
    }

    /// The index of the next byte to read, for a caller that reads other bytes in between.
    pub fn cursor(&self) -> (r: usize)
        ensures
            r == self.position(),
            r <= self.bytes().len(),
    {
        proof {
            use_type_invariant(self);
        }
        self.position
    }

    /// Moves the reader to `position`, or to the end of the list where `position` lies behind
    /// it.
    pub fn seek(&mut self, position: usize)
        ensures
            final(self).bytes() == old(self).bytes(),
            final(self).default_value() == old(self).default_value(),
            final(self).position() == if position <= old(self).bytes().len() {
                position as int
            } else {
                old(self).bytes().len() as int
            },
    {
        if position <= self.bytes.len() {
            self.position = position;
        } else {
            self.position = self.bytes.len();
        }
    }

    /// Yields the next number of the list, or `None` when the list holds no further number.
    /// Segments that yield nothing are passed over.
    pub fn next(&mut self) -> (r: Option<usize>)
        ensures
            final(self).bytes() == old(self).bytes(),
            final(self).default_value() == old(self).default_value(),
            old(self).position() <= final(self).position() <= old(self).bytes().len(),
            final(self).position() == next_position(
                old(self).bytes(),
                old(self).position(),
                old(self).default_value(),
            ),
            match r {
                Some(value) => old(self).remaining() == seq![value] + final(self).remaining(),
                None => old(self).remaining() == Seq::<usize>::empty() && final(self).position()
                    == old(self).bytes().len(),
            },
    {
        proof {
            use_type_invariant(&*self);
        }
        let bytes = self.bytes;
        let default = self.default;
        let length = bytes.len();
        let ghost first = self.position as int;
        let mut position = self.position;
        let mut result: Option<usize> = None;
        let mut done = false;
        while !done
            invariant
                position <= length,
                length == bytes@.len(),
                first <= position,
                !done ==> values_from(bytes@, first, default) == values_from(
                    bytes@,
                    position as int,
                    default,
                ),
                !done ==> result is None,
                !done ==> next_position(bytes@, first, default) == next_position(
                    bytes@,
                    position as int,
                    default,
                ),
                done ==> position == next_position(bytes@, first, default),
                done ==> match result {
                    Some(value) => values_from(bytes@, first, default) == seq![value]
                        + values_from(bytes@, position as int, default),
                    None => values_from(bytes@, first, default) == Seq::<usize>::empty()
                        && position == length,
                },
            decreases length - position, if done { 0int } else { 1int },
        {
            if position >= length {
                done = true;
            } else {
                let start = position;
                let mut value: usize = 0;
                let mut valid = true;
                proof {
                    lemma_segment_end(bytes@, start as int);
                }
                while position < length && bytes[position] != ascii::SEMI_COLON
                    invariant
                        start <= position <= length,
                        length == bytes@.len(),
                        position <= segment_end(bytes@, start as int),
                        valid == all_digits(bytes@.subrange(start as int, position as int)),
                        valid ==> value == clamped_value(
                            bytes@.subrange(start as int, position as int),
                        ),
                    decreases length - position,
                {
                    let byte = bytes[position];
                    proof {
                        lemma_segment_end(bytes@, start as int);
                        let before = bytes@.subrange(start as int, position as int);
                        let after = bytes@.subrange(start as int, position + 1);
                        assert(after =~= before.push(byte));
                        assert(after[after.len() - 1] == byte);
                        if ascii::is_digit(byte) {
                            lemma_clamped_push(before, byte);
                            if all_digits(before) {
                                assert forall|i: int| 0 <= i < after.len() implies ascii::is_digit(
                                    #[trigger] after[i],
                                ) by {
                                    if i < before.len() {
                                        assert(after[i] == before[i]);
                                    }
                                }
                            } else {
                                let k = choose|k: int|
                                    0 <= k < before.len() && !ascii::is_digit(#[trigger] before[k]);
                                assert(after[k] == before[k]);
                            }
                        }
                    }
                    if valid && ascii::byte_is_digit(byte) {
                        value = push_digit(value, byte);
                    } else {
                        valid = false;
                    }
                    position += 1;
                }
                proof {
                    lemma_segment_end(bytes@, start as int);
                    assert(position == segment_end(bytes@, start as int));
                }
                let empty = position == start;
                if position < length {
                    position += 1;
                    if empty {
                        if let Some(d) = default {
                            result = Some(d);
                            done = true;
                        }
                    } else if valid {
                        result = Some(value);
                        done = true;
                    }
                } else if !empty && valid {
                    result = Some(value);
                    done = true;
                } else {
                    done = true;
                }
            }
        }
        self.position = position;
        result
    }

    /// Yields every number still to come, in order, and leaves the reader at the end.
    pub fn collect(&mut self) -> (r: Vec<usize>)
        ensures
            final(self).bytes() == old(self).bytes(),
            final(self).default_value() == old(self).default_value(),
            final(self).position() == old(self).bytes().len(),
            r@ == old(self).remaining(),
    {
        proof {
            use_type_invariant(&*self);
        }
        let mut out: Vec<usize> = Vec::new();
        let ghost all = self.remaining();
        loop
            invariant
                self.bytes() == old(self).bytes(),
                self.default_value() == old(self).default_value(),
                all == out@ + self.remaining(),
                self.position() <= self.bytes().len(),
            ensures
                self.bytes() == old(self).bytes(),
                self.default_value() == old(self).default_value(),
                self.position() == self.bytes().len(),
                out@ == all,
            decreases self.bytes().len() - self.position(), self.remaining().len(),
        {
            match self.next() {
                Some(value) => {
                    out.push(value);
                    assert(all =~= out@ + self.remaining());
                },
                None => {
                    assert(all =~= out@);
                    break ;
                },
            }
        }
        out
    }
}

/// Values that can be read as a list of integers.
pub trait IntoNumberSequenceIter<'a>: Sized {
    /// The bytes of the list.
    spec fn list_bytes(self) -> Seq<u8>;

    /// A reader in which an empty segment yields nothing.
    fn into_sequence_iter(self) -> (r: NumberSequenceIterator<'a>)
        ensures
            r.bytes() == self.list_bytes(),
            r.position() == 0,
            r.default_value() == None::<usize>,
    ;

    /// A reader in which an empty segment that a `;` closes yields `default`.
    fn into_sequence_iter_with_default(self, default: usize) -> (r: NumberSequenceIterator<'a>)
        ensures
            r.bytes() == self.list_bytes(),
            r.position() == 0,
            r.default_value() == Some(default),
    ;
}

impl<'a> IntoNumberSequenceIter<'a> for &'a [u8] {
    open spec fn list_bytes(self) -> Seq<u8> {
        self@
    }

    fn into_sequence_iter(self) -> (r: NumberSequenceIterator<'a>) {
        NumberSequenceIterator::new(self, None)
    }

    fn into_sequence_iter_with_default(self, default: usize) -> (r: NumberSequenceIterator<'a>) {
        NumberSequenceIterator::new(self, Some(default))
    }
}

} // verus!
