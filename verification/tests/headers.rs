use actix_msgpack::content_length::parse_length;
use actix_msgpack::media_type::{is_msgpack, same_bytes};
use actix_msgpack::{
    effective_limit, FailureKind, MsgPackConfig, MsgPackError, MsgPackMessage, Reply,
    DEFAULT_PAYLOAD_LIMIT,
};

#[test]
fn media_type_is_the_text_of_the_mime_constant() {
    match Reply::respond_to(Ok(vec![0xc0])) {
        Reply::Body { content_type, .. } => {
            assert_eq!(content_type, "application/msgpack");
            assert_eq!(content_type, mime::APPLICATION_MSGPACK.to_string());
        },
        Reply::Failure(err) => panic!("{:?}", err),
    }
    assert!(is_msgpack(mime::APPLICATION_MSGPACK.as_ref()));
    assert!(!is_msgpack(mime::APPLICATION_JSON.as_ref()));
}

#[test]
fn message_tells_whether_it_was_accepted() {
    assert!(MsgPackMessage::new("application/msgpack", None).accepted());
    assert!(MsgPackMessage::new("application/msgpack", Some(b"999999999")).limit(1).accepted());
    assert!(!MsgPackMessage::new("application/json", None).accepted());
    assert!(!MsgPackMessage::new("", Some(b"1")).accepted());
}

#[test]
fn is_msgpack_matches_every_character() {
    assert!(is_msgpack("application/msgpack"));
    assert!(!is_msgpack(""));
    assert!(!is_msgpack("application/json"));
    assert!(!is_msgpack("APPLICATION/MSGPACK"));
    assert!(!is_msgpack("application/msgpack;"));
    assert!(!is_msgpack("application/msgpacks"));
    assert!(!is_msgpack("application/msgpac"));
    assert!(!is_msgpack("application/msgp\u{e4}ck"));
}

#[test]
fn same_bytes_compares_length_and_content() {
    assert!(same_bytes(b"", b""));
    assert!(same_bytes(b"abc", b"abc"));
    assert!(!same_bytes(b"abc", b"abd"));
    assert!(!same_bytes(b"abc", b"ab"));
    assert!(!same_bytes(b"", b"a"));
}

#[test]
fn parse_length_reads_decimal_digits() {
    assert_eq!(parse_length(b"0"), Some(0));
    assert_eq!(parse_length(b"10"), Some(10));
    assert_eq!(parse_length(b"262144"), Some(262_144));
    assert_eq!(parse_length(b"007"), Some(7));
    assert_eq!(parse_length(b"+5"), Some(5));
    assert_eq!(parse_length(b"+0012"), Some(12));
}

#[test]
fn parse_length_refuses_everything_else() {
    assert_eq!(parse_length(b""), None);
    assert_eq!(parse_length(b"+"), None);
    assert_eq!(parse_length(b"-"), None);
    assert_eq!(parse_length(b"-5"), None);
    assert_eq!(parse_length(b"-0"), None);
    assert_eq!(parse_length(b"++5"), None);
    assert_eq!(parse_length(b"5+"), None);
    assert_eq!(parse_length(b" 5"), None);
    assert_eq!(parse_length(b"5 "), None);
    assert_eq!(parse_length(b"1_000"), None);
    assert_eq!(parse_length(b"0x10"), None);
    assert_eq!(parse_length(b"1.5"), None);
    assert_eq!(parse_length(b"ten"), None);
    assert_eq!(parse_length(b"1\0"), None);
    assert_eq!(parse_length(&[0x31, 0xff]), None);
    assert_eq!(parse_length("\u{661}".as_bytes()), None);
}

#[test]
fn parse_length_stops_at_the_largest_usize() {
    let max = usize::MAX.to_string();
    assert_eq!(parse_length(max.as_bytes()), Some(usize::MAX));
    assert_eq!(parse_length(format!("000{}", max).as_bytes()), Some(usize::MAX));
    let mut over = max.clone().into_bytes();
    let last = over.len() - 1;
    over[last] += 1;
    assert_eq!(parse_length(&over), None);
    assert_eq!(parse_length(format!("{}0", max).as_bytes()), None);
    assert_eq!(parse_length(format!("{}x", max).as_bytes()), None);
    assert_eq!(parse_length(b"99999999999999999999999999999999999999999"), None);
}

#[test]
fn parse_length_agrees_with_the_standard_parser() {
    let alphabet: [&str; 7] = ["", "0", "1", "9", "+", "-", " "];
    for a in alphabet {
        for b in alphabet {
            for c in alphabet {
                for d in alphabet {
                    let text = format!("{}{}{}{}", a, b, c, d);
                    assert_eq!(parse_length(text.as_bytes()), text.parse::<usize>().ok(), "{:?}", text);
                }
            }
        }
    }
    for value in [0usize, 1, 9, 10, 99, 100, 8192, 262_144, 262_145, usize::MAX - 1, usize::MAX] {
        let text = value.to_string();
        assert_eq!(parse_length(text.as_bytes()), Some(value));
    }
}

#[test]
fn configuration_holds_its_limit() {
    assert_eq!(DEFAULT_PAYLOAD_LIMIT, 262_144);
    assert_eq!(effective_limit(None), 262_144);
    assert_eq!(effective_limit(Some(&MsgPackConfig::default())), 262_144);

    let mut config = MsgPackConfig::default();
    config.limit(10);
    assert_eq!(effective_limit(Some(&config)), 10);
    config.limit(4096).limit(0);
    assert_eq!(effective_limit(Some(&config)), 0);
    config.limit(usize::MAX);
    assert_eq!(effective_limit(Some(&config)), usize::MAX);
}

#[test]
fn status_of_each_failure() {
    assert_eq!(MsgPackError::Overflow.status_code(), 413);
    assert_eq!(MsgPackError::ContentType.status_code(), 400);
    assert_eq!(MsgPackError::Deserialize(rmp_serde::decode::Error::OutOfRange).status_code(), 400);
    assert_eq!(MsgPackError::Serialize(rmp_serde::encode::Error::UnknownLength).status_code(), 400);
    assert_eq!(
        MsgPackError::Payload(actix_web::error::PayloadError::Overflow).status_code(),
        400
    );
    assert_eq!(MsgPackError::empty().status_code(), 400);
}

#[test]
fn kind_of_each_failure() {
    assert_eq!(MsgPackError::Overflow.kind(), FailureKind::Overflow);
    assert_eq!(MsgPackError::ContentType.kind(), FailureKind::ContentType);
    assert_eq!(
        MsgPackError::Deserialize(rmp_serde::decode::Error::OutOfRange).kind(),
        FailureKind::Deserialize
    );
    assert_eq!(
        MsgPackError::Serialize(rmp_serde::encode::Error::UnknownLength).kind(),
        FailureKind::Serialize
    );
    assert_eq!(
        MsgPackError::Payload(actix_web::error::PayloadError::Overflow).kind(),
        FailureKind::Payload
    );
    assert_eq!(MsgPackError::empty().kind(), FailureKind::Payload);
    assert_eq!(FailureKind::Overflow.status_code(), 413);
    for kind in [FailureKind::ContentType, FailureKind::Deserialize, FailureKind::Serialize,
        FailureKind::Payload]
    {
        assert_eq!(kind.status_code(), 400);
    }
}

#[test]
fn failures_come_from_their_causes() {
    let failure = MsgPackError::from(actix_web::error::PayloadError::EncodingCorrupted);
    assert!(matches!(
        failure,
        MsgPackError::Payload(actix_web::error::PayloadError::EncodingCorrupted)
    ));
    let failure = MsgPackError::from(rmp_serde::decode::Error::DepthLimitExceeded);
    assert!(matches!(
        failure,
        MsgPackError::Deserialize(rmp_serde::decode::Error::DepthLimitExceeded)
    ));
}
