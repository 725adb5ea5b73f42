use actix_web::error::PayloadError;
use vstd::prelude::*;

verus! {

#[verifier::external_type_specification]
#[verifier::external_body]
pub struct ExPayloadError(PayloadError);

#[verifier::external_type_specification]
#[verifier::external_body]
pub struct ExDecodeError(rmp_serde::decode::Error);

#[verifier::external_type_specification]
#[verifier::external_body]
pub struct ExEncodeError(rmp_serde::encode::Error);

/// The kinds of failure, without their causes.
#[derive(Clone, Copy, Debug, PartialEq, Eq, Structural)]
pub enum FailureKind {
    /// The declared length or the bytes received are over the budget.
    Overflow,
    /// The content type is not the MessagePack media type.
    ContentType,
    /// The codec could not read the body as the value asked for.
    Deserialize,
    /// The codec could not write the value.
    Serialize,
    /// The stream failed, or ended without a byte.
    Payload,
}

impl FailureKind {
    /// The HTTP status that answers a failure of this kind.
    pub open spec fn status(self) -> u16 {
        if self is Overflow {
            413
        } else {
            400
        }
    }

    /// The HTTP status that answers a failure of this kind: 413 for a
    /// payload over its limit, 400 for every other failure.
    pub fn status_code(self) -> (code: u16)
        ensures
            code == self.status(),
    {
        match self {
            FailureKind::Overflow => 413,
            _ => 400,
        }
    }
}

/// Why a payload was not extracted or not sent.
#[derive(Debug)]
pub enum MsgPackError {
    /// Payload size is bigger than limit
    Overflow,
    /// Content type error
    ContentType,
    /// Deserialize error
    Deserialize(rmp_serde::decode::Error),
    /// Serialize error
    Serialize(rmp_serde::encode::Error),
    /// Payload error
    Payload(PayloadError),
}

/// The text with which an empty body is reported.
pub open spec fn empty_payload_text() -> Seq<char> {
    "payload is empty"@
}

/// The payload error that reports a body as incomplete for the given reason.
pub uninterp spec fn incomplete_payload(reason: Seq<char>) -> PayloadError;

/// Makes the payload error of an incomplete body.
///
/// Builds `PayloadError::Incomplete` of `actix_web`, holding a
/// `std::io::Error` of kind `InvalidData` made from the reason. The
/// contract claims only that the error is a function of the reason.
#[verifier::external_body]
pub(crate) fn incomplete(reason: &str) -> (cause: PayloadError)
    ensures
        cause == incomplete_payload(reason@),
{
    PayloadError::Incomplete(Some(std::io::Error::new(std::io::ErrorKind::InvalidData, reason)))
}

impl MsgPackError {
    /// The kind of this failure.
    pub open spec fn kind_of(self) -> FailureKind {
        match self {
            MsgPackError::Overflow => FailureKind::Overflow,
            MsgPackError::ContentType => FailureKind::ContentType,
            MsgPackError::Deserialize(_) => FailureKind::Deserialize,
            MsgPackError::Serialize(_) => FailureKind::Serialize,
            MsgPackError::Payload(_) => FailureKind::Payload,
        }
    }

    /// The HTTP status that answers a request which failed in this way.
    pub open spec fn status(self) -> u16 {
        self.kind_of().status()
    }

    /// The failure of a body that ended before it held a single byte.
    pub open spec fn empty_payload() -> MsgPackError {
        MsgPackError::Payload(incomplete_payload(empty_payload_text()))
    }

    /// The kind of this failure.
    pub fn kind(&self) -> (kind: FailureKind)
        ensures
            kind == self.kind_of(),
    {
        match self {
            MsgPackError::Overflow => FailureKind::Overflow,
            MsgPackError::ContentType => FailureKind::ContentType,
            MsgPackError::Deserialize(_) => FailureKind::Deserialize,
            MsgPackError::Serialize(_) => FailureKind::Serialize,
            MsgPackError::Payload(_) => FailureKind::Payload,
        }
    }

    /// The HTTP status that answers a request which failed in this way:
    /// 413 for a payload over its limit, 400 for every other failure.
    pub fn status_code(&self) -> (code: u16)
        ensures
            code == self.status(),
            code == if *self is Overflow { 413u16 } else { 400u16 },
    {
        self.kind().status_code()
    }

    /// The failure of a body that ended before it held a single byte.
    pub fn empty() -> (error: MsgPackError)
        ensures
            error == MsgPackError::empty_payload(),
    {
        MsgPackError::Payload(incomplete("payload is empty"))
    }
}

impl From<PayloadError> for MsgPackError {
    fn from(err: PayloadError) -> (error: MsgPackError) {
        MsgPackError::Payload(err)
    }
}

impl vstd::std_specs::convert::FromSpecImpl<PayloadError> for MsgPackError {
    open spec fn obeys_from_spec() -> bool {
        true
    }

    open spec fn from_spec(err: PayloadError) -> MsgPackError {
        MsgPackError::Payload(err)
    }
}

impl From<rmp_serde::decode::Error> for MsgPackError {
    fn from(err: rmp_serde::decode::Error) -> (error: MsgPackError) {
        MsgPackError::Deserialize(err)
    }
}

impl vstd::std_specs::convert::FromSpecImpl<rmp_serde::decode::Error> for MsgPackError {
    open spec fn obeys_from_spec() -> bool {
        true
    }

    open spec fn from_spec(err: rmp_serde::decode::Error) -> MsgPackError {
        MsgPackError::Deserialize(err)
    }
}

} // verus!
