use vstd::prelude::*;
use vstd::string::StringSliceAdditionalSpecFns;
use vstd::utf8::{encode_utf8, encode_utf8_decode_utf8};

verus! {

/// The text of the MessagePack media type.
pub open spec fn media_type_text() -> Seq<char> {
    "application/msgpack"@
}

/// The MessagePack media type, as the `mime` crate writes it.
///
/// Calls `AsRef<str>` on `mime::APPLICATION_MSGPACK`. The contract claims
/// that the text is `application/msgpack`, which is the text that `mime`
/// declares the constant with.
#[verifier::external_body]
pub(crate) fn media_type() -> (text: String)
    ensures
        text@ == media_type_text(),
{
    mime::APPLICATION_MSGPACK.as_ref().to_owned()
}

/// Two texts have the same characters exactly when their UTF-8 encodings
/// are the same bytes.
pub proof fn lemma_text_by_bytes(a: Seq<char>, b: Seq<char>)
    ensures
        (a == b) <==> (encode_utf8(a) == encode_utf8(b)),
{
    encode_utf8_decode_utf8(a);
    encode_utf8_decode_utf8(b);
}

/// Whether two byte strings are the same, byte for byte.
pub fn same_bytes(a: &[u8], b: &[u8]) -> (same: bool)
    ensures
        same == (a@ == b@),
{
    if a.len() != b.len() {
        return false;
    }
    let mut i: usize = 0;
    while i < a.len()
        invariant
            i <= a@.len(),
            a@.len() == b@.len(),
            a@.subrange(0, i as int) == b@.subrange(0, i as int),
        decreases a@.len() - i,
    {
        if a[i] != b[i] {
            return false;
        }
        assert(a@.subrange(0, i + 1) == a@.subrange(0, i as int).push(a@[i as int]));
        assert(b@.subrange(0, i + 1) == b@.subrange(0, i as int).push(b@[i as int]));
        i += 1;
    }
    assert(a@ == a@.subrange(0, i as int));
    assert(b@ == b@.subrange(0, i as int));
    true
}

/// Whether a content type is the MessagePack media type. The match is
/// exact: every character counts, letter case included.
pub fn is_msgpack(content_type: &str) -> (accepted: bool)
    ensures
        accepted == (content_type@ == media_type_text()),
{
    let expected = media_type();
    proof {
        lemma_text_by_bytes(content_type@, expected@);
    }
    same_bytes(content_type.as_bytes(), expected.as_str().as_bytes())
}

} // verus!
