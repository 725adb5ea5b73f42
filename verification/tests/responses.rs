use actix_msgpack::{MsgPackError, Reply};
use serde::ser::{Error, SerializeStruct, Serializer};
use serde::Serialize;

pub struct Data {
    payload: bool,
}

impl Serialize for Data {
    fn serialize<S: Serializer>(&self, serializer: S) -> Result<S::Ok, S::Error> {
        let mut state = serializer.serialize_struct("Data", 1)?;
        state.serialize_field("payload", &self.payload)?;
        state.end()
    }
}

/// A value that refuses to be encoded.
pub struct Stubborn;

impl Serialize for Stubborn {
    fn serialize<S: Serializer>(&self, _serializer: S) -> Result<S::Ok, S::Error> {
        Err(S::Error::custom("no"))
    }
}

#[test]
fn check_responses() {
    // Response with msgpack responder
    let payload = Data { payload: true };
    let response = Reply::respond_to(rmp_serde::to_vec_named(&payload));

    assert_eq!(response.status_code(), 200);
    match response {
        Reply::Body { content_type, body } => {
            assert_eq!(content_type, "application/msgpack");
            assert_eq!(body, vec![0x81, 0xa7, 0x70, 0x61, 0x79, 0x6c, 0x6f, 0x61, 0x64, 0xc3]);
        },
        Reply::Failure(err) => panic!("{:?}", err),
    }
}

#[test]
fn compact_encoding_is_sent_as_it_is() {
    let response = Reply::respond_to(rmp_serde::to_vec(&Data { payload: false }));
    assert_eq!(response.status_code(), 200);
    match response {
        Reply::Body { content_type, body } => {
            assert_eq!(content_type, mime::APPLICATION_MSGPACK.to_string());
            assert_eq!(body, vec![0x91, 0xc2]);
        },
        Reply::Failure(err) => panic!("{:?}", err),
    }
}

#[test]
fn encode_failure_is_a_serialize_failure() {
    let response = Reply::respond_to(rmp_serde::to_vec_named(&Stubborn));
    assert_eq!(response.status_code(), 400);
    match response {
        Reply::Failure(MsgPackError::Serialize(rmp_serde::encode::Error::Syntax(text))) => {
            assert_eq!(text, "no");
        },
        _ => panic!("a body was made of a value that cannot be encoded"),
    }
}

#[test]
fn empty_encoding_is_still_a_body() {
    let response = Reply::respond_to(Ok(Vec::new()));
    assert_eq!(response.status_code(), 200);
    assert!(matches!(response, Reply::Body { body, .. } if body.is_empty()));
}
