use vstd::prelude::*;

verus! {

/// Whether a byte is an ASCII decimal digit.
pub open spec fn is_digit(byte: u8) -> bool {
    0x30 <= byte <= 0x39
}

/// Whether every byte of a text is an ASCII decimal digit.
pub open spec fn all_digits(text: Seq<u8>) -> bool {
    forall|i: int| 0 <= i < text.len() ==> is_digit(#[trigger] text[i])
}

/// The number that a text of decimal digits writes, most significant digit
/// first. The empty text writes zero.
pub open spec fn decimal_value(digits: Seq<u8>) -> nat
    decreases digits.len(),
{
    if digits.len() == 0 {
        0
    } else {
        decimal_value(digits.drop_last()) * 10 + (digits.last() - 0x30) as nat
    }
}

/// A header value without the one `+` that may stand before its digits.
pub open spec fn unsigned_part(header: Seq<u8>) -> Seq<u8> {
    if header.len() > 0 && header[0] == 0x2b {
        header.drop_first()
    } else {
        header
    }
}

/// The length that a `Content-Length` header value declares.
///
/// A value declares a length when it is one or more decimal digits, with at
/// most a single `+` before them, and the number fits in `usize`. Any other
/// value (empty, blank, signed with `-`, padded, too large) declares none.
pub open spec fn length_hint(header: Seq<u8>) -> Option<usize> {
    let digits = unsigned_part(header);
    if digits.len() > 0 && all_digits(digits) && decimal_value(digits) <= usize::MAX {
        Some(decimal_value(digits) as usize)
    } else {
        None
    }
}

/// Digits written after a number never make it smaller.
pub proof fn lemma_decimal_value_grows(digits: Seq<u8>, k: int)
    requires
        0 <= k <= digits.len(),
        all_digits(digits),
    ensures
        decimal_value(digits.subrange(0, k)) <= decimal_value(digits),
    decreases digits.len() - k,
{
    if k == digits.len() {
        assert(digits.subrange(0, k) == digits);
    } else {
        let shorter = digits.drop_last();
        assert(all_digits(shorter));
        assert(shorter.subrange(0, k) == digits.subrange(0, k));
        lemma_decimal_value_grows(shorter, k);
        assert(is_digit(digits.last()));
    }
}

/// Reads the length that a `Content-Length` header value declares, if it
/// declares one.
pub fn parse_length(header: &[u8]) -> (hint: Option<usize>)
    ensures
        hint == length_hint(header@),
{
    let n = header.len();
    let start: usize = if n > 0 && header[0] == 0x2b { 1 } else { 0 };
    let ghost digits = unsigned_part(header@);
    assert(digits == header@.subrange(start as int, n as int));
    if start == n {
        return None;
    }
    let mut value: usize = 0;
    let mut i: usize = start;
    while i < n
        invariant
            start <= i <= n,
            n == header@.len(),
            digits == unsigned_part(header@),
            digits == header@.subrange(start as int, n as int),
            all_digits(digits.subrange(0, i - start)),
            value == decimal_value(digits.subrange(0, i - start)),
        decreases n - i,
    {
        let byte = header[i];
        let ghost read = digits.subrange(0, i - start);
        let ghost next = digits.subrange(0, i - start + 1);
        assert(next.drop_last() == read);
        assert(next.last() == byte);
        if byte < 0x30 || byte > 0x39 {
            assert(!is_digit(digits[i - start]));
            return None;
        }
        assert(all_digits(next));
        let digit: usize = (byte - 0x30) as usize;
        proof {
            if all_digits(digits) {
                lemma_decimal_value_grows(digits, i - start + 1);
            }
        }
        let tens = match value.checked_mul(10) {
            Some(tens) => tens,
            None => {
                return None;
            },
        };
        value = match tens.checked_add(digit) {
            Some(sum) => sum,
            None => {
                return None;
            },
        };
        i += 1;
    }
    assert(digits.subrange(0, n - start) == digits);
    Some(value)
}

} // verus!
