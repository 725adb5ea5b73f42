use crate::buffer::{buffered, into_vec};
use crate::constants::{DEFAULT_PAYLOAD_LIMIT, INITIAL_BUFFER_CAPACITY};
use crate::content_length::{length_hint, parse_length};
use crate::media_type::{is_msgpack, media_type_text};
use crate::msgpack_error::MsgPackError;
use actix_web::error::PayloadError;
use actix_web::web::BytesMut;
use vstd::prelude::*;

verus! {

/// What a message is, as plain values.
pub struct MessageView {
    /// The budget: the most bytes that the body may hold.
    pub limit: usize,
    /// The length that the request declared, if it declared one.
    pub length: Option<usize>,
    /// The failure that was found when the message was made, if any.
    pub err: Option<MsgPackError>,
}

/// What an accumulator is, as plain values.
pub struct AccumulatorView {
    /// The budget: the most bytes that the body may hold.
    pub limit: usize,
    /// The bytes received so far, in the order of the stream.
    pub body: Seq<u8>,
}

/// What an event is, as plain values.
pub enum EventView {
    Chunk(Seq<u8>),
    Failed(PayloadError),
    End,
}

/// What a step is, as plain values.
pub enum StepView {
    Read(AccumulatorView),
    Decode(Seq<u8>),
    Fail(MsgPackError),
}

impl MessageView {
    /// The message of a request with the given content type and, where it
    /// has one, the given value of its length header.
    pub open spec fn created(content_type: Seq<char>, content_length: Option<Seq<u8>>) -> MessageView {
        if content_type == media_type_text() {
            MessageView {
                limit: DEFAULT_PAYLOAD_LIMIT,
                length: match content_length {
                    Some(value) => length_hint(value),
                    None => None,
                },
                err: None,
            }
        } else {
            MessageView {
                limit: DEFAULT_PAYLOAD_LIMIT,
                length: None,
                err: Some(MsgPackError::ContentType),
            }
        }
    }

    /// The same message with another budget.
    pub open spec fn with_limit(self, limit: usize) -> MessageView {
        MessageView { limit: limit, ..self }
    }

    /// What is decided before the stream is touched: the failure found at
    /// construction comes first, then the declared length is held against
    /// the budget, and only then is an empty accumulator handed out.
    pub open spec fn begin(self) -> Result<AccumulatorView, MsgPackError> {
        match self.err {
            Some(err) => Err(err),
            None => {
                if self.length is Some && self.length->Some_0 > self.limit {
                    Err(MsgPackError::Overflow)
                } else {
                    Ok(AccumulatorView { limit: self.limit, body: Seq::empty() })
                }
            },
        }
    }
}

impl AccumulatorView {
    /// What one item of the stream leads to.
    pub open spec fn step(self, event: EventView) -> StepView {
        match event {
            EventView::Chunk(chunk) => {
                if self.body.len() + chunk.len() > self.limit {
                    StepView::Fail(MsgPackError::Overflow)
                } else {
                    StepView::Read(AccumulatorView { limit: self.limit, body: self.body + chunk })
                }
            },
            EventView::Failed(cause) => StepView::Fail(MsgPackError::Payload(cause)),
            EventView::End => {
                if self.body.len() == 0 {
                    StepView::Fail(MsgPackError::empty_payload())
                } else {
                    StepView::Decode(self.body)
                }
            },
        }
    }
}

/// A request body that is yet to be read: what the headers of the request
/// say of it, and its budget.
pub struct MsgPackMessage {
    limit: usize,
    length: Option<usize>,
    err: Option<MsgPackError>,
}

impl View for MsgPackMessage {
    type V = MessageView;

    closed spec fn view(&self) -> MessageView {
        MessageView { limit: self.limit, length: self.length, err: self.err }
    }
}

/// The body of a request while its stream is read: the budget and the bytes
/// received so far.
pub struct Accumulator {
    limit: usize,
    body: BytesMut,
}

impl View for Accumulator {
    type V = AccumulatorView;

    closed spec fn view(&self) -> AccumulatorView {
        AccumulatorView { limit: self.limit, body: buffered(self.body) }
    }
}

impl Accumulator {
    /// The body never holds more bytes than the budget allows.
    #[verifier::type_invariant]
    spec fn within_budget(&self) -> bool {
        buffered(self.body).len() <= self.limit
    }
}

/// One item of the stream, as the reader of the stream saw it.
pub enum Event<'a> {
    /// The stream gave a chunk of bytes.
    Chunk(&'a [u8]),
    /// The stream gave an error.
    Failed(PayloadError),
    /// The stream is at its end.
    End,
}

impl<'a> View for Event<'a> {
    type V = EventView;

    open spec fn view(&self) -> EventView {
        match *self {
            Event::Chunk(chunk) => EventView::Chunk(chunk@),
            Event::Failed(cause) => EventView::Failed(cause),
            Event::End => EventView::End,
        }
    }
}

/// What the reader of the stream does next.
pub enum Step {
    /// Read the next item of the stream and hand it to the accumulator.
    Read(Accumulator),
    /// The body is complete: decode these bytes.
    Decode(Vec<u8>),
    /// Stop: the extraction failed.
    Fail(MsgPackError),
}

impl View for Step {
    type V = StepView;

    open spec fn view(&self) -> StepView {
        match *self {
            Step::Read(accumulator) => StepView::Read(accumulator@),
            Step::Decode(body) => StepView::Decode(body@),
            Step::Fail(err) => StepView::Fail(err),
        }
    }
}

/// The view of an optional header value.
pub open spec fn header_view(value: Option<&[u8]>) -> Option<Seq<u8>> {
    match value {
        Some(bytes) => Some(bytes@),
        None => None,
    }
}

impl MsgPackMessage {
    /// Makes the message of a request from its content type and, where it
    /// has one, the value of its `Content-Length` header.
    ///
    /// A content type other than the MessagePack media type is recorded as
    /// a failure, and the length header is then not looked at. A length
    /// header that declares no length counts as absent.
    pub fn new(content_type: &str, content_length: Option<&[u8]>) -> (message: Self)
        ensures
            message@ == MessageView::created(content_type@, header_view(content_length)),
    {
        if !is_msgpack(content_type) {
            return MsgPackMessage {
                limit: DEFAULT_PAYLOAD_LIMIT,
                length: None,
                err: Some(MsgPackError::ContentType),
            };
        }
        let mut length: Option<usize> = None;
        if let Some(value) = content_length {
            if let Some(l) = parse_length(value) {
                length = Some(l);
            }
        }
        MsgPackMessage { limit: DEFAULT_PAYLOAD_LIMIT, length, err: None }
    }

    /// Whether the stream of the request may come to be read: no failure
    /// was found when the message was made.
    pub fn accepted(&self) -> (accepted: bool)
        ensures
            accepted == (self@.err is None),
    {
        self.err.is_none()
    }

    /// Set maximum accepted payload size in bytes
    pub fn limit(self, limit: usize) -> (message: Self)
        ensures
            message@ == self@.with_limit(limit),
    {
        let mut message = self;
        message.limit = limit;
        message
    }

    /// Decides, before any byte is read, whether the stream is to be read at
    /// all. `Err` ends the extraction with the stream untouched; `Ok` hands
    /// out the accumulator that takes the items of the stream.
    pub fn begin(self) -> (start: Result<Accumulator, MsgPackError>)
        ensures
            match start {
                Ok(accumulator) => self@.begin() == Ok::<AccumulatorView, MsgPackError>(accumulator@),
                Err(err) => self@.begin() == Err::<AccumulatorView, MsgPackError>(err),
            },
    {
        if let Some(err) = self.err {
            return Err(err);
        }
        let limit = self.limit;
        if let Some(len) = self.length {
            if len > limit {
                return Err(MsgPackError::Overflow);
            }
        }
        Ok(Accumulator { limit, body: BytesMut::with_capacity(INITIAL_BUFFER_CAPACITY) })
    }
}

impl Accumulator {
    /// The number of bytes received so far. It is never over the budget.
    pub fn len(&self) -> (len: usize)
        ensures
            len == self@.body.len(),
            len <= self@.limit,
    {
        proof {
            use_type_invariant(self);
        }
        self.body.len()
    }

    /// Takes one item of the stream and says what to do next.
    ///
    /// A chunk is appended unless the body would then be over the budget,
    /// which ends the extraction with `Overflow` and drops what was
    /// received. An error of the stream ends it with `Payload`. At the end
    /// of the stream an empty body is a `Payload` failure of its own, and
    /// any other body is handed out to be decoded.
    pub fn step(self, event: Event<'_>) -> (step: Step)
        ensures
            step@ == self@.step(event@),
    {
        proof {
            use_type_invariant(&self);
        }
        let Accumulator { limit, mut body } = self;
        match event {
            Event::Chunk(chunk) => {
                if chunk.len() > limit - body.len() {
                    Step::Fail(MsgPackError::Overflow)
                } else {
                    body.extend_from_slice(chunk);
                    Step::Read(Accumulator { limit, body })
                }
            },
            Event::Failed(cause) => Step::Fail(MsgPackError::from(cause)),
            Event::End => {
                if body.len() == 0 {
                    Step::Fail(MsgPackError::empty())
                } else {
                    Step::Decode(into_vec(body))
                }
            },
        }
    }
}

/// The outcome of decoding a complete body: the value, or the codec's
/// error as a `Deserialize` failure.
pub fn decoded<T>(outcome: Result<T, rmp_serde::decode::Error>) -> (result: Result<T, MsgPackError>)
    ensures
        match outcome {
            Ok(value) => result == Ok::<T, MsgPackError>(value),
            Err(cause) => result == Err::<T, MsgPackError>(MsgPackError::Deserialize(cause)),
        },
{
    match outcome {
        Ok(value) => Ok(value),
        Err(cause) => Err(MsgPackError::from(cause)),
    }
}

} // verus!
