use crate::constants::DEFAULT_PAYLOAD_LIMIT;
use crate::media_type::{media_type, media_type_text};
use crate::msgpack_config::{effective_limit, MsgPackConfig};
use crate::msgpack_error::MsgPackError;
use crate::msgpack_message::{header_view, MessageView, MsgPackMessage};
use vstd::prelude::*;

verus! {

/// A value that came in, or goes out, as a MessagePack payload.
pub struct MsgPack<T>(pub T);

impl<T> std::ops::Deref for MsgPack<T> {
    type Target = T;

    fn deref(&self) -> (value: &T)
        ensures
            *value == self.0,
    {
        &self.0
    }
}

impl<T> std::ops::DerefMut for MsgPack<T> {
    fn deref_mut(&mut self) -> (value: &mut T)
        ensures
            *value == old(self).0,
            final(self).0 == *final(value),
    {
        &mut self.0
    }
}

impl<T> MsgPack<T> {
    /// The value inside.
    pub fn into_inner(self) -> (value: T)
        ensures
            value == self.0,
    {
        self.0
    }

    /// The message that extracts a payload from a request.
    ///
    /// Its budget is the limit of the configuration that the request
    /// carries; where the request carries none, the default.
    pub fn from_request(
        content_type: &str,
        content_length: Option<&[u8]>,
        config: Option<&MsgPackConfig>,
    ) -> (message: MsgPackMessage)
        ensures
            message@ == MessageView::created(content_type@, header_view(content_length)).with_limit(
                match config {
                    Some(c) => c.max_size(),
                    None => DEFAULT_PAYLOAD_LIMIT,
                },
            ),
    {
        let limit = effective_limit(config);
        MsgPackMessage::new(content_type, content_length).limit(limit)
    }

    /// What an extraction hands to the handler: the value in its
    /// container, or the failure as it is.
    pub fn extracted(outcome: Result<T, MsgPackError>) -> (result: Result<MsgPack<T>, MsgPackError>)
        ensures
            match outcome {
                Ok(item) => result == Ok::<MsgPack<T>, MsgPackError>(MsgPack(item)),
                Err(e) => result == Err::<MsgPack<T>, MsgPackError>(e),
            },
    {
        match outcome {
            Err(e) => Err(e),
            Ok(item) => Ok(MsgPack(item)),
        }
    }
}

/// What is sent for a value: its encoding under the MessagePack media
/// type, or the failure to encode it.
pub enum Reply {
    /// A response with a success status, the given content type and body.
    Body { content_type: String, body: Vec<u8> },
    /// A response made from the failure.
    Failure(MsgPackError),
}

/// What a reply is, as plain values.
pub enum ReplyView {
    Body { content_type: Seq<char>, body: Seq<u8> },
    Failure(MsgPackError),
}

impl View for Reply {
    type V = ReplyView;

    open spec fn view(&self) -> ReplyView {
        match *self {
            Reply::Body { content_type, body } => ReplyView::Body {
                content_type: content_type@,
                body: body@,
            },
            Reply::Failure(err) => ReplyView::Failure(err),
        }
    }
}

impl ReplyView {
    /// The reply to send for what the codec made of a value.
    pub open spec fn of(encoded: Result<Vec<u8>, rmp_serde::encode::Error>) -> ReplyView {
        match encoded {
            Ok(body) => ReplyView::Body { content_type: media_type_text(), body: body@ },
            Err(cause) => ReplyView::Failure(MsgPackError::Serialize(cause)),
        }
    }

    /// The HTTP status of the reply.
    pub open spec fn status(self) -> u16 {
        match self {
            ReplyView::Body { .. } => 200,
            ReplyView::Failure(err) => err.status(),
        }
    }
}

impl Reply {
    /// The reply to send for what the codec made of a value: the encoded
    /// bytes under the MessagePack media type, or, where the codec failed,
    /// that failure as a `Serialize` error.
    pub fn respond_to(encoded: Result<Vec<u8>, rmp_serde::encode::Error>) -> (reply: Reply)
        ensures
            reply@ == ReplyView::of(encoded),
    {
        match encoded {
            Ok(body) => Reply::Body { content_type: media_type(), body },
            Err(err) => Reply::Failure(MsgPackError::Serialize(err)),
        }
    }

    /// The HTTP status of the reply: 200 with a body, and the status of the
    /// failure without one.
    pub fn status_code(&self) -> (code: u16)
        ensures
            code == self@.status(),
    {
        match self {
            Reply::Body { .. } => 200,
            Reply::Failure(err) => err.status_code(),
        }
    }
}

} // verus!
