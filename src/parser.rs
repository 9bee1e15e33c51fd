//! The incremental parser: bytes go in a fragment at a time, events come out
//! in the order of their bytes.
use std::collections::VecDeque;
use vstd::prelude::*;
use crate::event::{EventModel, InternalEvent};
use crate::parse::{classify, parse_event, Parsed, ParsedModel};

verus! {

/// Abstract state of a parser: the bytes of the sequence in progress and the
/// events not yet taken.
pub struct ParserModel {
    pub buffer: Seq<u8>,
    pub events: Seq<EventModel>,
}

pub open spec fn fresh() -> ParserModel {
    ParserModel { buffer: Seq::empty(), events: Seq::empty() }
}

/// Effect of one byte: append it to the buffer, then keep the buffer while it
/// is an incomplete sequence, or clear it, queueing the event of a complete one.
pub open spec fn feed_byte(st: ParserModel, b: u8, more: bool) -> ParserModel {
    let buf = st.buffer.push(b);
    match classify(buf, more) {
        ParsedModel::Complete(e) => ParserModel { buffer: Seq::empty(), events: st.events.push(e) },
        ParsedModel::Incomplete => ParserModel { buffer: buf, events: st.events },
        ParsedModel::Invalid => ParserModel { buffer: Seq::empty(), events: st.events },
    }
}

/// Effect of one fragment: every byte but the last is followed by more;
/// after the last, `more` tells.
pub open spec fn feed(st: ParserModel, bytes: Seq<u8>, more: bool) -> ParserModel
    decreases bytes.len(),
{
    if bytes.len() == 0 {
        st
    } else {
        feed(feed_byte(st, bytes[0], bytes.len() > 1 || more), bytes.drop_first(), more)
    }
}

/// Effect of a list of fragments, each but the last fed with more to follow.
pub open spec fn feed_chunks(st: ParserModel, chunks: Seq<Seq<u8>>, more: bool) -> ParserModel
    decreases chunks.len(),
{
    if chunks.len() == 0 {
        st
    } else if chunks.len() == 1 {
        feed(st, chunks[0], more)
    } else {
        feed_chunks(feed(st, chunks[0], true), chunks.drop_first(), more)
    }
}

/// Incremental escape-sequence parser.
pub struct Parser {
    buffer: Vec<u8>,
    internal_events: VecDeque<InternalEvent>,
}

impl View for Parser {
    type V = ParserModel;

    closed spec fn view(&self) -> ParserModel {
        ParserModel { buffer: self.buffer@, events: self.internal_events@.map_values(|e: InternalEvent| e@) }
    }
}

impl Default for Parser {
    fn default() -> (r: Self)
        ensures
            r@ == fresh(),
    {
        Parser::new()
    }
}

impl Parser {
    pub fn new() -> (r: Self)
        ensures
            r@ == fresh(),
    {
        let p = Parser { buffer: Vec::with_capacity(256), internal_events: VecDeque::with_capacity(128) };
        assert(p.internal_events@.map_values(|e: InternalEvent| e@) =~= Seq::<EventModel>::empty());
        p
    }

    pub fn has_pending(&self) -> (r: bool)
        ensures
            r == (self@.events.len() > 0),
    {
        self.internal_events.len() > 0
    }

    /// Feeds a fragment of input; `more` tells whether further bytes are
    /// expected right after it.
    pub fn advance(&mut self, bytes: &[u8], more: bool)
        ensures
            final(self)@ == feed(old(self)@, bytes@, more),
    {
        let n = bytes.len();
        let mut i: usize = 0;
        assert(bytes@.subrange(0, n as int) =~= bytes@);
        while i < n
            invariant
                n == bytes@.len(),
                i <= n,
                feed(self@, bytes@.subrange(i as int, n as int), more) == feed(old(self)@, bytes@, more),
            decreases n - i,
        {
            let ghost rest = bytes@.subrange(i as int, n as int);
            assert(rest.drop_first() =~= bytes@.subrange(i + 1, n as int));
            let m = i + 1 < n || more;
            self.buffer.push(bytes[i]);
            match parse_event(&self.buffer, m) {
                Parsed::Complete(ie) => {
                    let ghost before = self.internal_events@;
                    let ghost iev = ie@;
                    self.internal_events.push_back(ie);
                    assert(self.internal_events@.map_values(|e: InternalEvent| e@) =~= before.map_values(
                        |e: InternalEvent| e@,
                    ).push(iev));
                    self.buffer.clear();
                },
                Parsed::Incomplete => {},
                Parsed::Invalid => {
                    self.buffer.clear();
                },
            }
            i = i + 1;
        }
    }

    /// Takes the oldest pending event.
    pub fn next_event(&mut self) -> (r: Option<InternalEvent>)
        ensures
            old(self)@.events.len() == 0 ==> r.is_none() && final(self)@ == old(self)@,
            old(self)@.events.len() > 0 ==> r.is_some() && r.unwrap()@ == old(self)@.events[0] && final(self)@
                == (ParserModel { buffer: old(self)@.buffer, events: old(self)@.events.drop_first() }),
    {
        let r = self.internal_events.pop_front();
        proof {
            if old(self)@.events.len() > 0 {
                assert(self.internal_events@.map_values(|e: InternalEvent| e@) =~= old(
                    self,
                ).internal_events@.map_values(|e: InternalEvent| e@).drop_first());
            }
        }
        r
    }
}

/// Feeding `a` (with more to follow) and then a non-empty `b` has the effect
/// of feeding `a` and `b` as one fragment.
pub proof fn lemma_feed_concat(st: ParserModel, a: Seq<u8>, b: Seq<u8>, more: bool)
    requires
        b.len() > 0,
    ensures
        feed(feed(st, a, true), b, more) == feed(st, a + b, more),
    decreases a.len(),
{
    if a.len() == 0 {
        assert(a + b =~= b);
    } else {
        let st1 = feed_byte(st, a[0], true);
        assert((a + b).drop_first() =~= a.drop_first() + b);
        assert((a + b)[0] == a[0]);
        lemma_feed_concat(st1, a.drop_first(), b, more);
    }
}

/// Queued events do not influence decoding: later bytes only append.
pub proof fn lemma_feed_appends(buf: Seq<u8>, evs: Seq<EventModel>, bytes: Seq<u8>, more: bool)
    ensures
        feed(ParserModel { buffer: buf, events: evs }, bytes, more) == (ParserModel {
            buffer: feed(ParserModel { buffer: buf, events: Seq::empty() }, bytes, more).buffer,
            events: evs + feed(ParserModel { buffer: buf, events: Seq::empty() }, bytes, more).events,
        }),
    decreases bytes.len(),
{
    if bytes.len() == 0 {
        assert(evs + Seq::<EventModel>::empty() =~= evs);
    } else {
        let m = bytes.len() > 1 || more;
        let s1 = feed_byte(ParserModel { buffer: buf, events: evs }, bytes[0], m);
        let t1 = feed_byte(ParserModel { buffer: buf, events: Seq::empty() }, bytes[0], m);
        lemma_feed_appends(s1.buffer, s1.events, bytes.drop_first(), more);
        lemma_feed_appends(t1.buffer, t1.events, bytes.drop_first(), more);
        assert(s1.buffer == t1.buffer);
        assert(s1.events =~= evs + t1.events);
        let r = feed(ParserModel { buffer: t1.buffer, events: Seq::empty() }, bytes.drop_first(), more);
        assert(evs + t1.events + r.events =~= evs + (t1.events + r.events));
    }
}

proof fn lemma_flatten_nonempty(chunks: Seq<Seq<u8>>)
    requires
        chunks.len() > 0,
        forall|i: int| 0 <= i < chunks.len() ==> #[trigger] chunks[i].len() > 0,
    ensures
        chunks.flatten().len() > 0,
{
    assert(chunks.flatten() == chunks[0] + chunks.drop_first().flatten());
}

/// Splitting input into fragments does not change what is decoded: feeding
/// non-empty fragments one after another, each but the last with more to
/// follow, gives the same parser state as feeding their concatenation at once.
pub proof fn law_fragmentation(st: ParserModel, chunks: Seq<Seq<u8>>, more: bool)
    requires
        forall|i: int| 0 <= i < chunks.len() ==> #[trigger] chunks[i].len() > 0,
    ensures
        feed_chunks(st, chunks, more) == feed(st, chunks.flatten(), more),
    decreases chunks.len(),
{
    if chunks.len() == 0 {
    } else if chunks.len() == 1 {
        assert(chunks.drop_first().flatten() =~= Seq::<u8>::empty());
        assert(chunks.flatten() =~= chunks[0]);
    } else {
        let rest = chunks.drop_first();
        assert forall|i: int| 0 <= i < rest.len() implies #[trigger] rest[i].len() > 0 by {
            assert(rest[i] == chunks[i + 1]);
        }
        law_fragmentation(feed(st, chunks[0], true), rest, more);
        lemma_flatten_nonempty(rest);
        lemma_feed_concat(st, chunks[0], rest.flatten(), more);
    }
}

/// `bytes`, fed to a fresh parser as one fragment with `more` as given,
/// yields exactly the event `e` and leaves nothing buffered.
pub open spec fn decodes_to(bytes: Seq<u8>, e: EventModel, more: bool) -> bool {
    feed(fresh(), bytes, more) == (ParserModel { buffer: Seq::empty(), events: seq![e] })
}

proof fn lemma_decodes_nonempty(bytes: Seq<u8>, e: EventModel, more: bool)
    requires
        decodes_to(bytes, e, more),
    ensures
        bytes.len() > 0,
{
    if bytes.len() == 0 {
        assert(feed(fresh(), bytes, more) == fresh());
        assert(seq![e].len() == 1);
        assert(fresh().events.len() == 0);
    }
}

/// An invalid sequence does not disturb what follows: if `bad` is discarded
/// whole (it leaves a fresh parser as it found it) and `good` decodes to `e`,
/// then `bad` followed by `good` yields `e` alone.
pub proof fn law_error_isolation(bad: Seq<u8>, good: Seq<u8>, e: EventModel, more: bool)
    requires
        feed(fresh(), bad, true) == fresh(),
        decodes_to(good, e, more),
    ensures
        feed(fresh(), bad + good, more) == (ParserModel { buffer: Seq::empty(), events: seq![e] }),
{
    lemma_decodes_nonempty(good, e, more);
    lemma_feed_concat(fresh(), bad, good, more);
}

proof fn lemma_ordering_fresh(seqs: Seq<Seq<u8>>, evs: Seq<EventModel>, more: bool)
    requires
        seqs.len() == evs.len(),
        forall|i: int| 0 <= i < seqs.len() - 1 ==> decodes_to(#[trigger] seqs[i], evs[i], true),
        seqs.len() > 0 ==> decodes_to(seqs.last(), evs.last(), more),
    ensures
        feed(fresh(), seqs.flatten(), more) == (ParserModel { buffer: Seq::empty(), events: evs }),
    decreases seqs.len(),
{
    if seqs.len() == 0 {
        assert(evs =~= Seq::<EventModel>::empty());
        assert(fresh().buffer =~= Seq::<u8>::empty());
    } else {
        let rest = seqs.drop_first();
        let rest_evs = evs.drop_first();
        assert forall|i: int| 0 <= i < rest.len() - 1 implies decodes_to(
            #[trigger] rest[i],
            rest_evs[i],
            true,
        ) by {
            assert(rest[i] == seqs[i + 1]);
            assert(decodes_to(seqs[i + 1], evs[i + 1], true));
        }
        if rest.len() > 0 {
            assert(rest.last() == seqs.last());
            assert(rest_evs.last() == evs.last());
        }
        lemma_ordering_fresh(rest, rest_evs, more);
        assert(seqs.flatten() == seqs[0] + rest.flatten());
        if rest.len() == 0 {
            assert(rest.flatten() =~= Seq::<u8>::empty());
            assert(seqs.flatten() =~= seqs[0]);
            assert(evs =~= seq![evs[0]]);
        } else {
            assert(decodes_to(seqs[0], evs[0], true));
            assert forall|i: int| 0 <= i < rest.len() implies #[trigger] rest[i].len() > 0 by {
                if i < rest.len() - 1 {
                    lemma_decodes_nonempty(rest[i], rest_evs[i], true);
                } else {
                    lemma_decodes_nonempty(rest.last(), rest_evs.last(), more);
                }
            }
            lemma_flatten_nonempty(rest);
            lemma_feed_concat(fresh(), seqs[0], rest.flatten(), more);
            lemma_feed_appends(Seq::empty(), seq![evs[0]], rest.flatten(), more);
            assert(fresh() == (ParserModel { buffer: Seq::empty(), events: Seq::empty() }));
            assert(seq![evs[0]] + rest_evs =~= evs);
        }
    }
}

/// Sequences that each decode to one event (all but the last with more
/// bytes to follow, the last with `more`), fed as one fragment to a parser
/// with nothing buffered, add exactly those events, in their order, after
/// the events already queued.
pub proof fn law_ordering(q0: Seq<EventModel>, seqs: Seq<Seq<u8>>, evs: Seq<EventModel>, more: bool)
    requires
        seqs.len() == evs.len(),
        forall|i: int| 0 <= i < seqs.len() - 1 ==> decodes_to(#[trigger] seqs[i], evs[i], true),
        seqs.len() > 0 ==> decodes_to(seqs.last(), evs.last(), more),
    ensures
        feed(ParserModel { buffer: Seq::empty(), events: q0 }, seqs.flatten(), more) == (ParserModel {
            buffer: Seq::empty(),
            events: q0 + evs,
        }),
{
    lemma_ordering_fresh(seqs, evs, more);
    lemma_feed_appends(Seq::empty(), q0, seqs.flatten(), more);
    assert(fresh() == (ParserModel { buffer: Seq::empty(), events: Seq::empty() }));
}

/// A sequence split into non-empty fragments, fed one after another (each
/// but the last with more to follow) to a parser with nothing buffered,
/// adds exactly the one event that the whole sequence decodes to.
pub proof fn law_fragmented_sequence(q0: Seq<EventModel>, chunks: Seq<Seq<u8>>, e: EventModel, more: bool)
    requires
        forall|i: int| 0 <= i < chunks.len() ==> #[trigger] chunks[i].len() > 0,
        decodes_to(chunks.flatten(), e, more),
    ensures
        feed_chunks(ParserModel { buffer: Seq::empty(), events: q0 }, chunks, more) == (ParserModel {
            buffer: Seq::empty(),
            events: q0.push(e),
        }),
{
    let st = ParserModel { buffer: Seq::empty(), events: q0 };
    law_fragmentation(st, chunks, more);
    lemma_feed_appends(Seq::empty(), q0, chunks.flatten(), more);
    assert(fresh() == (ParserModel { buffer: Seq::empty(), events: Seq::empty() }));
    assert(q0 + seq![e] =~= q0.push(e));
}

} // verus!
