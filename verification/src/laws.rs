use crate::media_type::media_type_text;
use crate::msgpack_config::MsgPackConfig;
use crate::msgpack_error::MsgPackError;
use crate::msgpack_message::{AccumulatorView, EventView, MessageView, StepView};
use vstd::prelude::*;

verus! {

impl AccumulatorView {
    /// Where an accumulator stands after the given items of the stream,
    /// taken in order. Items after the one that ended the extraction are
    /// never looked at; `Read` says that the stream is still being read.
    pub open spec fn run(self, events: Seq<EventView>) -> StepView
        decreases events.len(),
    {
        if events.len() == 0 {
            StepView::Read(self)
        } else {
            match self.step(events[0]) {
                StepView::Read(next) => next.run(events.drop_first()),
                done => done,
            }
        }
    }
}

impl MessageView {
    /// A whole extraction: the decision before the stream is touched, then
    /// the items of the stream in order.
    pub open spec fn extract(self, events: Seq<EventView>) -> StepView {
        match self.begin() {
            Ok(accumulator) => accumulator.run(events),
            Err(err) => StepView::Fail(err),
        }
    }
}

/// The events of a stream that gives the given chunks, one after another.
pub open spec fn chunk_events(chunks: Seq<Seq<u8>>) -> Seq<EventView> {
    chunks.map_values(|chunk: Seq<u8>| EventView::Chunk(chunk))
}

proof fn lemma_chunk_events_step(chunks: Seq<Seq<u8>>, rest: Seq<EventView>)
    requires
        chunks.len() > 0,
    ensures
        (chunk_events(chunks) + rest)[0] == EventView::Chunk(chunks[0]),
        (chunk_events(chunks) + rest).drop_first() == chunk_events(chunks.drop_first()) + rest,
        chunks.flatten().len() == chunks[0].len() + chunks.drop_first().flatten().len(),
{
    assert((chunk_events(chunks) + rest).drop_first() =~= chunk_events(chunks.drop_first()) + rest);
}

/// A request whose content type is not the MessagePack media type fails
/// with `ContentType` whatever its length header, its budget and its stream
/// hold, and no accumulator is made for it: its stream is never read.
pub proof fn law_content_type_comes_first(
    content_type: Seq<char>,
    content_length: Option<Seq<u8>>,
    limit: usize,
    events: Seq<EventView>,
)
    requires
        content_type != media_type_text(),
    ensures
        MessageView::created(content_type, content_length).with_limit(limit).begin() == Err::<
            AccumulatorView,
            MsgPackError,
        >(MsgPackError::ContentType),
        MessageView::created(content_type, content_length).with_limit(limit).extract(events)
            == StepView::Fail(MsgPackError::ContentType),
{
}

/// A declared length within the budget, or none at all, never fails a
/// request with `Overflow` by itself: where the request is accepted, the
/// stream is read, from an empty body. Only the bytes of the stream may
/// still overflow.
pub proof fn law_length_within_budget(
    content_type: Seq<char>,
    content_length: Option<Seq<u8>>,
    limit: usize,
)
    requires
        MessageView::created(content_type, content_length).length matches Some(declared)
            ==> declared <= limit,
    ensures
        ({
            let message = MessageView::created(content_type, content_length).with_limit(limit);
            let fresh = AccumulatorView { limit: limit, body: Seq::empty() };
            &&& message.begin() != Err::<AccumulatorView, MsgPackError>(MsgPackError::Overflow)
            &&& message.extract(Seq::empty()) != StepView::Fail(MsgPackError::Overflow)
            &&& content_type == media_type_text() ==> message.begin() == Ok::<
                AccumulatorView,
                MsgPackError,
            >(fresh)
            &&& content_type == media_type_text() ==> message.extract(Seq::empty())
                == StepView::Read(fresh)
        }),
{
}

/// A declared length over the budget fails an accepted request with
/// `Overflow` before anything is read, whatever the stream holds.
pub proof fn law_length_over_budget(message: MessageView, declared: usize, events: Seq<EventView>)
    requires
        message.err is None,
        message.length == Some(declared),
        declared > message.limit,
    ensures
        message.begin() == Err::<AccumulatorView, MsgPackError>(MsgPackError::Overflow),
        message.extract(events) == StepView::Fail(MsgPackError::Overflow),
{
}

/// Chunks that fit in the budget are all kept, in order, and the stream is
/// read on.
pub proof fn law_chunks_within_budget(accumulator: AccumulatorView, chunks: Seq<Seq<u8>>)
    requires
        accumulator.body.len() + chunks.flatten().len() <= accumulator.limit,
    ensures
        accumulator.run(chunk_events(chunks)) == StepView::Read(
            AccumulatorView { limit: accumulator.limit, body: accumulator.body + chunks.flatten() },
        ),
    decreases chunks.len(),
{
    if chunks.len() == 0 {
        assert(accumulator.body + chunks.flatten() =~= accumulator.body);
    } else {
        lemma_chunk_events_step(chunks, Seq::empty());
        assert(chunk_events(chunks) + Seq::<EventView>::empty() =~= chunk_events(chunks));
        assert(chunk_events(chunks.drop_first()) + Seq::<EventView>::empty() =~= chunk_events(
            chunks.drop_first(),
        ));
        let next = AccumulatorView {
            limit: accumulator.limit,
            body: accumulator.body + chunks[0],
        };
        law_chunks_within_budget(next, chunks.drop_first());
        assert(next.body + chunks.drop_first().flatten() =~= accumulator.body + chunks.flatten());
    }
}

/// After chunks that fit in the budget, the next item of the stream is
/// taken by the accumulator that holds all of them.
pub proof fn law_run_then(accumulator: AccumulatorView, chunks: Seq<Seq<u8>>, last: EventView)
    requires
        accumulator.body.len() + chunks.flatten().len() <= accumulator.limit,
        !(last is Chunk),
    ensures
        accumulator.run(chunk_events(chunks).push(last)) == (AccumulatorView {
            limit: accumulator.limit,
            body: accumulator.body + chunks.flatten(),
        }).step(last),
    decreases chunks.len(),
{
    let events = chunk_events(chunks).push(last);
    if chunks.len() == 0 {
        assert(accumulator.body + chunks.flatten() =~= accumulator.body);
        assert(events[0] == last);
        assert(events.drop_first() =~= Seq::<EventView>::empty());
    } else {
        lemma_chunk_events_step(chunks, seq![last]);
        assert(events =~= chunk_events(chunks) + seq![last]);
        assert(chunk_events(chunks.drop_first()).push(last) =~= chunk_events(chunks.drop_first())
            + seq![last]);
        let next = AccumulatorView {
            limit: accumulator.limit,
            body: accumulator.body + chunks[0],
        };
        law_run_then(next, chunks.drop_first(), last);
        assert(next.body + chunks.drop_first().flatten() =~= accumulator.body + chunks.flatten());
    }
}

/// Bytes over the budget fail the extraction with `Overflow`, whatever
/// comes after them in the stream: the chunk that takes the body over the
/// budget ends it.
pub proof fn law_bytes_over_budget(
    accumulator: AccumulatorView,
    chunks: Seq<Seq<u8>>,
    rest: Seq<EventView>,
)
    requires
        accumulator.body.len() <= accumulator.limit,
        accumulator.body.len() + chunks.flatten().len() > accumulator.limit,
    ensures
        accumulator.run(chunk_events(chunks) + rest) == StepView::Fail(MsgPackError::Overflow),
    decreases chunks.len(),
{
    if chunks.len() == 0 {
        assert(chunks.flatten().len() == 0);
    } else {
        lemma_chunk_events_step(chunks, rest);
        if accumulator.body.len() + chunks[0].len() <= accumulator.limit {
            let next = AccumulatorView {
                limit: accumulator.limit,
                body: accumulator.body + chunks[0],
            };
            law_bytes_over_budget(next, chunks.drop_first(), rest);
        }
    }
}

/// The declared length does not stand in for the bytes: an accepted
/// request whose chunks hold more than the budget fails with `Overflow`
/// whether it declared no length, too small a one, or the true one.
pub proof fn law_actual_bytes_decide(
    message: MessageView,
    chunks: Seq<Seq<u8>>,
    rest: Seq<EventView>,
)
    requires
        message.err is None,
        chunks.flatten().len() > message.limit,
    ensures
        message.extract(chunk_events(chunks) + rest) == StepView::Fail(MsgPackError::Overflow),
{
    if message.begin() is Ok {
        law_bytes_over_budget(message.begin()->Ok_0, chunks, rest);
    }
}

/// A stream that ends without having given a single byte fails an accepted
/// request with the `Payload` failure of an empty body; nothing is handed
/// out to be decoded.
pub proof fn law_empty_body_is_payload_failure(message: MessageView, chunks: Seq<Seq<u8>>)
    requires
        message.err is None,
        message.length matches Some(declared) ==> declared <= message.limit,
        chunks.flatten().len() == 0,
    ensures
        message.extract(chunk_events(chunks).push(EventView::End)) == StepView::Fail(
            MsgPackError::empty_payload(),
        ),
{
    let start = AccumulatorView { limit: message.limit, body: Seq::empty() };
    law_run_then(start, chunks, EventView::End);
    assert(start.body + chunks.flatten() =~= Seq::<u8>::empty());
}

/// A stream that ends after bytes within the budget hands out exactly
/// those bytes, in order, to be decoded.
pub proof fn law_complete_body_is_decoded(message: MessageView, chunks: Seq<Seq<u8>>)
    requires
        message.err is None,
        message.length matches Some(declared) ==> declared <= message.limit,
        0 < chunks.flatten().len() <= message.limit,
    ensures
        message.extract(chunk_events(chunks).push(EventView::End)) == StepView::Decode(
            chunks.flatten(),
        ),
{
    let start = AccumulatorView { limit: message.limit, body: Seq::empty() };
    law_run_then(start, chunks, EventView::End);
    assert(start.body + chunks.flatten() =~= chunks.flatten());
}

/// The body that an accumulator holds never exceeds its budget while the
/// stream is read.
pub proof fn law_body_stays_within_budget(accumulator: AccumulatorView, events: Seq<EventView>)
    requires
        accumulator.body.len() <= accumulator.limit,
    ensures
        accumulator.run(events) matches StepView::Read(later) ==> later.limit == accumulator.limit
            && later.body.len() <= later.limit,
        accumulator.run(events) matches StepView::Decode(body) ==> 0 < body.len()
            <= accumulator.limit,
    decreases events.len(),
{
    if events.len() > 0 {
        if let StepView::Read(next) = accumulator.step(events[0]) {
            law_body_stays_within_budget(next, events.drop_first());
        }
    }
}

/// The limit of the configuration that a request carries is the whole
/// budget of its extraction: a declared length and the bytes of the stream
/// are held against that limit alone, on whichever side of the default it
/// lies.
pub proof fn law_override_is_exclusive(
    content_length: Option<Seq<u8>>,
    config: MsgPackConfig,
    chunks: Seq<Seq<u8>>,
    rest: Seq<EventView>,
)
    ensures
        ({
            let limit = config.max_size();
            let message = MessageView::created(media_type_text(), content_length).with_limit(limit);
            let fresh = AccumulatorView { limit: limit, body: Seq::empty() };
            &&& message.limit == limit
            &&& (message.length matches Some(declared) && declared > limit) ==> message.begin()
                == Err::<AccumulatorView, MsgPackError>(MsgPackError::Overflow)
            &&& !(message.length matches Some(declared) && declared > limit) ==> message.begin()
                == Ok::<AccumulatorView, MsgPackError>(fresh)
            &&& chunks.flatten().len() > limit ==> fresh.run(chunk_events(chunks) + rest)
                == StepView::Fail(MsgPackError::Overflow)
            &&& chunks.flatten().len() <= limit ==> fresh.run(chunk_events(chunks))
                == StepView::Read(AccumulatorView { limit: limit, body: chunks.flatten() })
        }),
{
    let limit = config.max_size();
    let fresh = AccumulatorView { limit: limit, body: Seq::empty() };
    if chunks.flatten().len() > limit {
        law_bytes_over_budget(fresh, chunks, rest);
    } else {
        law_chunks_within_budget(fresh, chunks);
        assert(fresh.body + chunks.flatten() =~= chunks.flatten());
    }
}

} // verus!
