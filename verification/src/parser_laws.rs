//! What holds of the events that the tokenizer yields.

use vstd::prelude::*;
use crate::ascii;
use crate::parser::{lemma_step_wf, AnsiParser, ParserView, Sequence, SequenceView, State};

verus! {

/// The index from which on bytes may still be read again: the start of the probe while the
/// bytes behind an end-of-file byte are probed, the cursor otherwise.
pub open spec fn base(parser: ParserView) -> nat {
    match parser.state {
        State::EndOfFile(eof_start) => eof_start as nat,
        _ => parser.position as nat,
    }
}

/// The number of bytes from [`base`] on.
pub open spec fn unsettled(parser: ParserView) -> nat {
    if parser.bytes.len() >= base(parser) {
        (parser.bytes.len() - base(parser)) as nat
    } else {
        0
    }
}

/// One while a probe runs, zero otherwise.
pub open spec fn probing(parser: ParserView) -> nat {
    if parser.state is EndOfFile {
        1
    } else {
        0
    }
}

/// The number of bytes from the cursor on.
pub open spec fn unread(parser: ParserView) -> nat {
    if parser.bytes.len() >= parser.position {
        (parser.bytes.len() - parser.position) as nat
    } else {
        0
    }
}

/// One while an `Update` is due, zero otherwise.
pub open spec fn due(parser: ParserView) -> nat {
    if parser.update_due {
        1
    } else {
        0
    }
}

/// `after` is nearer to the end of its work than `before`: fewer unsettled bytes; or as
/// many, and no probe where one ran; or the same there, and fewer unread bytes; or the same
/// there, and no `Update` due where one was.
pub open spec fn closer(after: ParserView, before: ParserView) -> bool {
    ||| unsettled(after) < unsettled(before)
    ||| unsettled(after) == unsettled(before) && probing(after) < probing(before)
    ||| unsettled(after) == unsettled(before) && probing(after) == probing(before) && unread(after)
        < unread(before)
    ||| unsettled(after) == unsettled(before) && probing(after) == probing(before) && unread(after)
        == unread(before) && due(after) < due(before)
}

/// All the events that the tokenizer yields, call after call, until a call yields none.
pub open spec fn events(parser: ParserView) -> Seq<SequenceView>
    decreases unsettled(parser), probing(parser), unread(parser), due(parser),
{
    match parser.next_event().1 {
        Some(event) => if closer(parser.next_event().0, parser) {
            seq![event] + events(parser.next_event().0)
        } else {
            seq![event]
        },
        None => Seq::empty(),
    }
}

/// The tokenizer after all its events were yielded, and the call that yields none was made.
pub open spec fn settled(parser: ParserView) -> ParserView
    decreases unsettled(parser), probing(parser), unread(parser), due(parser),
{
    match parser.next_event().1 {
        Some(_) => if closer(parser.next_event().0, parser) {
            settled(parser.next_event().0)
        } else {
            parser.next_event().0
        },
        None => parser.next_event().0,
    }
}

/// Reading one byte brings the tokenizer nearer to the end of its work.
pub proof fn lemma_advanced_closer(parser: ParserView)
    requires
        parser.wf(),
        parser.position < parser.bytes.len() <= usize::MAX,
    ensures
        closer(parser.advanced(), parser),
{
    lemma_step_wf(parser);
}

/// Every call keeps the tokenizer well-formed and leaves its bytes and its baud rate alone;
/// a call that yields an event brings the tokenizer nearer to the end of its work.
pub proof fn lemma_next_event(parser: ParserView)
    requires
        parser.wf(),
        parser.bytes.len() <= usize::MAX,
    ensures
        parser.next_event().0.wf(),
        parser.next_event().0.bytes == parser.bytes,
        parser.next_event().0.baud_rate == parser.baud_rate,
        parser.next_event().1 is Some ==> closer(parser.next_event().0, parser),
        parser.next_event().1 is None ==> parser.next_event().0.position >= parser.bytes.len(),
    decreases parser.bytes.len() - parser.position,
{
    if parser.update_due {
    } else if parser.position >= parser.bytes.len() {
    } else {
        lemma_step_wf(parser);
        lemma_advanced_closer(parser);
        if parser.step().event is Some || parser.advanced().position <= parser.position {
        } else {
            lemma_next_event(parser.advanced());
        }
    }
}

/// The events of a tokenizer are the event of its next call and the events of the
/// tokenizer after that call.
pub proof fn lemma_events_unfold(parser: ParserView)
    requires
        parser.wf(),
        parser.bytes.len() <= usize::MAX,
    ensures
        events(parser) == match parser.next_event().1 {
            Some(event) => seq![event] + events(parser.next_event().0),
            None => Seq::empty(),
        },
{
    lemma_next_event(parser);
}

/// The views of a list of events.
pub open spec fn views(list: Seq<Sequence>) -> Seq<SequenceView> {
    list.map_values(|event: Sequence| event@)
}

impl AnsiParser {
    /// Yields all the events that the bytes at hand give, in order. After more bytes were
    /// handed in, a further call yields the events that follow.
    pub fn collect(&mut self) -> (r: Vec<Sequence>)
        ensures
            views(r@) == events(old(self)@),
            final(self)@ == settled(old(self)@),
            final(self)@.wf(),
            final(self)@.bytes == old(self)@.bytes,
            final(self)@.baud_rate == old(self)@.baud_rate,
            final(self)@.position >= old(self)@.bytes.len(),
    {
        let mut out: Vec<Sequence> = Vec::new();
        let at = self.position();
        let length = self.len();
        proof {
            assert(views(out@) =~= Seq::<SequenceView>::empty());
        }
        loop
            invariant_except_break
                events(old(self)@) == views(out@) + events(self@),
                settled(old(self)@) == settled(self@),
            invariant
                self@.wf(),
                self@.bytes == old(self)@.bytes,
                self@.baud_rate == old(self)@.baud_rate,
                self@.bytes.len() <= usize::MAX,
            ensures
                views(out@) == events(old(self)@),
                self@ == settled(old(self)@),
                self@.position >= self@.bytes.len(),
            decreases unsettled(self@), probing(self@), unread(self@), due(self@),
        {
            proof {
                lemma_events_unfold(self@);
                lemma_next_event(self@);
            }
            let ghost before = out@;
            match self.next() {
                Some(event) => {
                    out.push(event);
                    proof {
                        assert(views(out@) =~= views(before) + seq![event@]);
                        assert(events(old(self)@) =~= views(out@) + events(self@));
                    }
                },
                None => {
                    proof {
                        assert(events(old(self)@) =~= views(out@));
                    }
                    break ;
                },
            }
        }
        out
    }
}

/// The tokenizer with further bytes handed to it.
pub open spec fn extended(parser: ParserView, more: Seq<u8>) -> ParserView {
    ParserView { bytes: parser.bytes + more, ..parser }
}

/// What reading a byte comes to does not depend on the bytes behind it.
pub proof fn lemma_step_is_local(parser: ParserView, more: Seq<u8>)
    requires
        parser.wf(),
        parser.position < parser.bytes.len(),
        parser.bytes.len() + more.len() <= usize::MAX,
    ensures
        extended(parser, more).step() == parser.step(),
        extended(parser, more).advanced() == extended(parser.advanced(), more),
{
    let longer = extended(parser, more);
    let behind = parser.position + 1;
    assert(longer.byte() == parser.byte());
    assert forall|from: int| 0 <= from <= behind implies #[trigger] longer.bytes.subrange(
        from,
        behind,
    ) == parser.bytes.subrange(from, behind) by {
        assert(longer.bytes.subrange(from, behind) =~= parser.bytes.subrange(from, behind));
    }
    assert forall|from: int| 0 <= from <= parser.position implies #[trigger] longer.bytes.subrange(
        from,
        parser.position as int,
    ) == parser.bytes.subrange(from, parser.position as int) by {
        assert(longer.bytes.subrange(from, parser.position as int) =~= parser.bytes.subrange(
            from,
            parser.position as int,
        ));
    }
    match parser.state {
        State::Literal => {},
        State::Escape => {},
        State::EndOfFile(eof_start) => {
            assert(longer.bytes.subrange(eof_start as int, behind) == parser.bytes.subrange(
                eof_start as int,
                behind,
            ));
        },
        State::Sequence(start) => {
            assert(longer.bytes.subrange(start as int, parser.position as int)
                == parser.bytes.subrange(start as int, parser.position as int));
        },
        State::SauceRecord { eof_start, sauce_start } => {
            assert(longer.bytes.subrange(eof_start as int, behind) == parser.bytes.subrange(
                eof_start as int,
                behind,
            ));
        },
        State::SauceComment { eof_start, comments_start } => {
            if behind - comments_start >= 71 {
                assert(longer.bytes.subrange(behind - 7, behind) == parser.bytes.subrange(
                    behind - 7,
                    behind,
                ));
            }
        },
        State::Music(start) => {
            assert(longer.bytes.subrange(start as int, parser.position as int)
                == parser.bytes.subrange(start as int, parser.position as int));
        },
    }
}

/// A call that yields an event yields the same event, and leaves the tokenizer in the same
/// state, whatever bytes are handed in before it; a call that yields none because the bytes
/// are used up is made good by the next call after more bytes were handed in.
pub proof fn lemma_next_event_is_local(parser: ParserView, more: Seq<u8>)
    requires
        parser.wf(),
        parser.bytes.len() + more.len() <= usize::MAX,
    ensures
        parser.next_event().1 is Some ==> extended(parser, more).next_event() == (
            extended(parser.next_event().0, more),
            parser.next_event().1,
        ),
        parser.next_event().1 is None ==> extended(parser, more).next_event() == extended(
            parser.next_event().0,
            more,
        ).next_event(),
    decreases parser.bytes.len() - parser.position,
{
    if parser.update_due {
    } else if parser.position >= parser.bytes.len() {
    } else {
        lemma_step_wf(parser);
        lemma_step_is_local(parser, more);
        if parser.step().event is Some || parser.advanced().position <= parser.position {
        } else {
            lemma_next_event_is_local(parser.advanced(), more);
        }
    }
}

/// Bytes may be handed in piece by piece: the events of a stream are the events of its
/// first part, up to where that part is used up, and the events that follow once the rest
/// is handed in.
pub proof fn lemma_events_in_pieces(parser: ParserView, more: Seq<u8>)
    requires
        parser.wf(),
        parser.bytes.len() + more.len() <= usize::MAX,
    ensures
        events(extended(parser, more)) == events(parser) + events(extended(settled(parser), more)),
    decreases unsettled(parser), probing(parser), unread(parser), due(parser),
{
    lemma_next_event(parser);
    lemma_next_event_is_local(parser, more);
    lemma_events_unfold(parser);
    lemma_events_unfold(extended(parser, more));
    let after = parser.next_event().0;
    if parser.next_event().1 is Some {
        lemma_events_in_pieces(after, more);
        assert(events(extended(parser, more)) =~= events(parser) + events(
            extended(settled(parser), more),
        ));
    } else {
        lemma_events_unfold(extended(after, more));
        assert(events(parser) + events(extended(after, more)) =~= events(extended(after, more)));
    }
}

/// A byte that is a glyph wherever it stands among glyphs: none of tab, line feed, carriage
/// return, end-of-file and escape.
pub open spec fn plain(byte: u8) -> bool {
    byte != ascii::HORIZONTAL_TAB && byte != ascii::LINE_FEED && byte != ascii::CARRIAGE_RETURN
        && byte != ascii::END_OF_FILE && byte != ascii::ESCAPE
}

/// Every byte from `from` on is plain.
pub open spec fn plain_from(bytes: Seq<u8>, from: int) -> bool {
    forall|i: int| from <= i < bytes.len() ==> plain(#[trigger] bytes[i])
}

/// The bytes from `from` on as glyphs, with an `Update` behind every byte whose count,
/// from the first byte of all, is a multiple of `interval`.
pub open spec fn paced(bytes: Seq<u8>, interval: nat, from: int) -> Seq<SequenceView>
    decreases bytes.len() - from,
{
    if from < 0 || from >= bytes.len() {
        Seq::empty()
    } else if interval > 0 && (from + 1) % (interval as int) == 0 {
        seq![SequenceView::Literal(bytes[from]), SequenceView::Update] + paced(
            bytes,
            interval,
            from + 1,
        )
    } else {
        seq![SequenceView::Literal(bytes[from])] + paced(bytes, interval, from + 1)
    }
}

/// The bytes from `from` up to `to` as glyphs.
pub open spec fn glyphs(bytes: Seq<u8>, from: int, to: int) -> Seq<SequenceView> {
    Seq::new((to - from) as nat, |i: int| SequenceView::Literal(bytes[from + i]))
}

/// Among glyphs, a plain byte is yielded as a glyph by the next call, which leaves the
/// tokenizer among glyphs, one byte further on; an `Update` is due then where the byte
/// fills up an interval.
pub proof fn lemma_plain_byte(parser: ParserView)
    requires
        parser.state is Literal,
        !parser.update_due,
        parser.consumed == parser.position,
        parser.position < parser.bytes.len() <= usize::MAX,
        plain(parser.byte()),
    ensures
        parser.next_event() == (
            ParserView {
                position: (parser.position + 1) as usize,
                consumed: (parser.position + 1) as usize,
                update_due: parser.interval() > 0 && (parser.position + 1) % (
                parser.interval() as int) == 0,
                ..parser
            },
            Some(SequenceView::Literal(parser.byte())),
        ),
{
}

/// A due `Update` is yielded by the next call, which changes nothing else.
pub proof fn lemma_due_update(parser: ParserView)
    requires
        parser.update_due,
    ensures
        parser.next_event() == (
            ParserView { update_due: false, ..parser },
            Some(SequenceView::Update),
        ),
{
}

/// Plain bytes come out as glyphs, one for each byte, and an `Update` follows every byte
/// that fills up an interval: for a tokenizer among glyphs that has read every byte before
/// its cursor once, and whose bytes from the cursor on are plain, these are all its events.
pub proof fn lemma_plain_bytes_are_paced(parser: ParserView)
    requires
        parser.state is Literal,
        !parser.update_due,
        parser.consumed == parser.position,
        parser.position <= parser.bytes.len() <= usize::MAX,
        plain_from(parser.bytes, parser.position as int),
    ensures
        events(parser) == paced(parser.bytes, parser.interval(), parser.position as int),
    decreases parser.bytes.len() - parser.position,
{
    lemma_events_unfold(parser);
    if parser.position < parser.bytes.len() {
        let byte = parser.bytes[parser.position as int];
        assert(plain(byte));
        lemma_plain_byte(parser);
        let after = parser.next_event().0;
        let settled = ParserView { update_due: false, ..after };
        if after.update_due {
            lemma_due_update(after);
            lemma_events_unfold(after);
        }
        lemma_plain_bytes_are_paced(settled);
        assert(events(parser) =~= paced(parser.bytes, parser.interval(), parser.position as int));
    }
}

/// Between two multiples of the interval that follow each other, the plain bytes come out
/// as glyphs and one `Update` closes them.
pub proof fn lemma_paced_interval(bytes: Seq<u8>, interval: nat, index: int, from: int)
    requires
        interval > 0,
        index >= 0,
        index * interval <= from < (index + 1) * interval <= bytes.len(),
    ensures
        paced(bytes, interval, from) == glyphs(bytes, from, (index + 1) * interval) + seq![
            SequenceView::Update,
        ] + paced(bytes, interval, (index + 1) * interval),
    decreases (index + 1) * interval - from,
{
    let end: int = (index + 1) * interval;
    let step: int = interval as int;
    if from + 1 == end {
        assert((from + 1) % step == 0) by (nonlinear_arith)
            requires
                from + 1 == (index + 1) * step,
                step > 0,
        ;
        assert(glyphs(bytes, from, end) =~= seq![SequenceView::Literal(bytes[from])]);
        assert(paced(bytes, interval, from) =~= glyphs(bytes, from, end) + seq![
            SequenceView::Update,
        ] + paced(bytes, interval, end));
    } else {
        assert((from + 1) % step != 0) by (nonlinear_arith)
            requires
                index * step < from + 1 < (index + 1) * step,
                step > 0,
        ;
        lemma_paced_interval(bytes, interval, index, from + 1);
        assert(glyphs(bytes, from, end) =~= seq![SequenceView::Literal(bytes[from])] + glyphs(
            bytes,
            from + 1,
            end,
        ));
        assert(paced(bytes, interval, from) =~= glyphs(bytes, from, end) + seq![
            SequenceView::Update,
        ] + paced(bytes, interval, end));
    }
}

/// A tokenizer that is handed exactly three intervals of plain bytes yields three times the
/// glyphs of one interval and an `Update`, and nothing else.
pub proof fn lemma_three_intervals(bytes: Seq<u8>, baud_rate: usize)
    requires
        interval_len(baud_rate) > 0,
        bytes.len() == 3 * interval_len(baud_rate),
        bytes.len() <= usize::MAX,
        plain_from(bytes, 0),
    ensures
        events(ParserView { bytes, ..ParserView::fresh(Some(baud_rate)) }) == glyphs(
            bytes,
            0,
            interval_len(baud_rate),
        ) + seq![SequenceView::Update] + glyphs(
            bytes,
            interval_len(baud_rate),
            2 * interval_len(baud_rate),
        ) + seq![SequenceView::Update] + glyphs(
            bytes,
            2 * interval_len(baud_rate),
            3 * interval_len(baud_rate),
        ) + seq![SequenceView::Update],
{
    let interval = interval_len(baud_rate) as nat;
    let step: int = interval_len(baud_rate);
    let parser = ParserView { bytes, ..ParserView::fresh(Some(baud_rate)) };
    lemma_plain_bytes_are_paced(parser);
    assert(0 * step == 0 && (0 + 1) * step == step && 1 * step == step && (1 + 1) * step == 2
        * step && (2 + 1) * step == 3 * step) by (nonlinear_arith);
    lemma_paced_interval(bytes, interval, 0, 0);
    lemma_paced_interval(bytes, interval, 1, step);
    lemma_paced_interval(bytes, interval, 2, 2 * step);
    assert(paced(bytes, interval, 3 * step) =~= Seq::<SequenceView>::empty());
    assert(events(parser) =~= glyphs(bytes, 0, step) + seq![SequenceView::Update] + glyphs(
        bytes,
        step,
        2 * step,
    ) + seq![SequenceView::Update] + glyphs(bytes, 2 * step, 3 * step) + seq![
        SequenceView::Update,
    ]);
}

/// The interval of a baud rate.
pub open spec fn interval_len(baud_rate: usize) -> int {
    crate::parser::interval_of(Some(baud_rate)) as int
}

/// Without a baud rate no `Update` becomes due.
pub proof fn lemma_never_due_without_baud(parser: ParserView)
    requires
        parser.baud_rate is None,
        parser.position < parser.bytes.len(),
    ensures
        !parser.advanced().update_due,
{
}

/// Without a baud rate, and with no `Update` due, a call yields no `Update` and leaves none
/// due.
pub proof fn lemma_next_event_without_baud(parser: ParserView)
    requires
        parser.wf(),
        parser.bytes.len() <= usize::MAX,
        parser.baud_rate is None,
        !parser.update_due,
    ensures
        !parser.next_event().0.update_due,
        parser.next_event().0.baud_rate is None,
        !(parser.next_event().1 matches Some(event) && event is Update),
    decreases parser.bytes.len() - parser.position,
{
    if parser.position < parser.bytes.len() {
        lemma_step_wf(parser);
        lemma_never_due_without_baud(parser);
        if parser.step().event is Some || parser.advanced().position <= parser.position {
        } else {
            lemma_next_event_without_baud(parser.advanced());
        }
    }
}

/// Without a baud rate no `Update` is ever yielded: of a tokenizer that has no baud rate
/// and no `Update` due, no event is an `Update`, whatever its bytes and its state are.
pub proof fn lemma_no_update_without_baud(parser: ParserView)
    requires
        parser.wf(),
        parser.bytes.len() <= usize::MAX,
        parser.baud_rate is None,
        !parser.update_due,
    ensures
        forall|i: int| 0 <= i < events(parser).len() ==> !((#[trigger] events(parser)[i]) is Update),
    decreases unsettled(parser), probing(parser), unread(parser), due(parser),
{
    lemma_next_event(parser);
    lemma_next_event_without_baud(parser);
    lemma_events_unfold(parser);
    if parser.next_event().1 is Some {
        let after = parser.next_event().0;
        lemma_no_update_without_baud(after);
        assert forall|i: int| 0 <= i < events(parser).len() implies !((#[trigger] events(
            parser,
        )[i]) is Update) by {
            if i > 0 {
                assert(events(parser)[i] == events(after)[i - 1]);
            }
        }
    }
}

} // verus!
