//! Lower-case hexadecimal text of a byte string.

use vstd::prelude::*;

verus! {

/// The sixteen digits, in order of their value.
pub open spec fn hex_digits() -> Seq<char> {
    seq!['0', '1', '2', '3', '4', '5', '6', '7', '8', '9', 'a', 'b', 'c', 'd', 'e', 'f']
}

/// `c` is one of the sixteen lower-case hexadecimal digits.
pub open spec fn is_hex_digit(c: char) -> bool {
    exists|v: int| 0 <= v < 16 && hex_digits()[v] == c
}

/// Every character of `text` is a lower-case hexadecimal digit.
pub open spec fn is_hex_text(text: Seq<char>) -> bool {
    forall|i: int| 0 <= i < text.len() ==> is_hex_digit(#[trigger] text[i])
}

/// Two digits for each byte, the high half first.
pub open spec fn hex_text(bytes: Seq<u8>) -> Seq<char> {
    Seq::new(
        2 * bytes.len(),
        |i: int|
            if i % 2 == 0 {
                hex_digits()[bytes[i / 2] as int / 16]
            } else {
                hex_digits()[bytes[i / 2] as int % 16]
            },
    )
}

/// Calls `hex::encode`. Trusted: the string returned holds, for each byte of
/// `data` in order, the digit of its high four bits and then the digit of its
/// low four bits, both taken from `0123456789abcdef`.
#[verifier::external_body]
pub(crate) fn encode_hex(data: &[u8]) -> (text: String)
    requires
        2 * data@.len() <= isize::MAX,
    ensures
        text@ == hex_text(data@),
{
    hex::encode(data)
}

/// The hexadecimal text of a byte string is twice as long and made of
/// hexadecimal digits only.
pub proof fn hex_text_shape(bytes: Seq<u8>)
    ensures
        hex_text(bytes).len() == 2 * bytes.len(),
        is_hex_text(hex_text(bytes)),
{
    let text = hex_text(bytes);
    assert forall|i: int| 0 <= i < text.len() implies is_hex_digit(#[trigger] text[i]) by {
        let b = bytes[i / 2] as int;
        if i % 2 == 0 {
            assert(hex_digits()[b / 16] == text[i]);
        } else {
            assert(hex_digits()[b % 16] == text[i]);
        }
    }
}

/// Distinct digit values have distinct digits.
proof fn hex_digits_distinct(v: int, w: int)
    requires
        0 <= v < 16,
        0 <= w < 16,
        hex_digits()[v] == hex_digits()[w],
    ensures
        v == w,
{
}

/// Byte strings with the same hexadecimal text are the same.
pub proof fn hex_text_injective(a: Seq<u8>, b: Seq<u8>)
    requires
        hex_text(a) == hex_text(b),
    ensures
        a == b,
{
    assert(hex_text(a).len() == 2 * a.len());
    assert(hex_text(b).len() == 2 * b.len());
    assert(a.len() == b.len());
    assert forall|k: int| 0 <= k < a.len() implies a[k] == b[k] by {
        let ta = hex_text(a);
        let tb = hex_text(b);
        assert(ta[2 * k] == tb[2 * k]);
        assert(ta[2 * k + 1] == tb[2 * k + 1]);
        assert((2 * k) / 2 == k && (2 * k) % 2 == 0);
        assert((2 * k + 1) / 2 == k && (2 * k + 1) % 2 == 1);
        hex_digits_distinct(a[k] as int / 16, b[k] as int / 16);
        hex_digits_distinct(a[k] as int % 16, b[k] as int % 16);
    }
    assert(a =~= b);
}

} // verus!
