//! Hexadecimal text as the UUID routines read and write it.
use vstd::prelude::*;

verus! {

/// `c` is one of `0-9`, `a-f`, `A-F`.
pub open spec fn is_hex_digit(c: char) -> bool {
    ('0' <= c && c <= '9') || ('a' <= c && c <= 'f') || ('A' <= c && c <= 'F')
}

/// The value of a hexadecimal digit.
pub open spec fn hex_value(c: char) -> int {
    if '0' <= c && c <= '9' {
        c as int - '0' as int
    } else if 'a' <= c && c <= 'f' {
        c as int - 'a' as int + 10
    } else {
        c as int - 'A' as int + 10
    }
}

/// The bytes written by `s` as pairs of hexadecimal digits, high digit first.
pub open spec fn hex_decode(s: Seq<char>) -> Seq<u8> {
    Seq::new(s.len() / 2, |i: int| (16 * hex_value(s[2 * i]) + hex_value(s[2 * i + 1])) as u8)
}

/// The uppercase hexadecimal digit for a value below sixteen.
pub open spec fn upper_digit(n: int) -> char {
    if n < 10 {
        (('0' as int) + n) as char
    } else {
        (('A' as int) + n - 10) as char
    }
}

/// `b` written as uppercase hexadecimal, two digits per byte, high digit first.
pub open spec fn upper_hex(b: Seq<u8>) -> Seq<char> {
    Seq::new(
        2 * b.len(),
        |i: int|
            if i % 2 == 0 {
                upper_digit(b[i / 2] as int / 16)
            } else {
                upper_digit(b[i / 2] as int % 16)
            },
    )
}

/// `c` is one of `0-9`, `A-F`.
pub open spec fn is_upper_hex_digit(c: char) -> bool {
    ('0' <= c && c <= '9') || ('A' <= c && c <= 'F')
}

/// An uppercase digit is a digit, and reads back as the value it was made from.
pub proof fn lemma_upper_digit(n: int)
    requires
        0 <= n < 16,
    ensures
        is_upper_hex_digit(upper_digit(n)),
        hex_value(upper_digit(n)) == n,
{
}

/// Every character of `upper_hex(b)` is an uppercase hexadecimal digit.
pub proof fn lemma_upper_hex_digits(b: Seq<u8>)
    ensures
        forall|i: int| 0 <= i < upper_hex(b).len() ==> is_upper_hex_digit(#[trigger] upper_hex(b)[i]),
{
    assert forall|i: int| 0 <= i < upper_hex(b).len() implies is_upper_hex_digit(
        #[trigger] upper_hex(b)[i],
    ) by {
        lemma_upper_digit(b[i / 2] as int / 16);
        lemma_upper_digit(b[i / 2] as int % 16);
    }
}

/// Writing bytes as hexadecimal loses nothing: decoding gives the bytes back.
pub proof fn lemma_upper_hex_decode(b: Seq<u8>)
    ensures
        hex_decode(upper_hex(b)) == b,
{
    assert forall|i: int| 0 <= i < b.len() implies #[trigger] hex_decode(upper_hex(b))[i] == b[i] by {
        lemma_upper_digit(b[i] as int / 16);
        lemma_upper_digit(b[i] as int % 16);
        assert(upper_hex(b)[2 * i] == upper_digit(b[i] as int / 16));
        assert(upper_hex(b)[2 * i + 1] == upper_digit(b[i] as int % 16));
    }
    assert(hex_decode(upper_hex(b)) =~= b);
}

/// Distinct byte sequences are written as distinct hexadecimal text.
pub proof fn lemma_upper_hex_injective(a: Seq<u8>, b: Seq<u8>)
    requires
        a != b,
    ensures
        upper_hex(a) != upper_hex(b),
{
    lemma_upper_hex_decode(a);
    lemma_upper_hex_decode(b);
}

} // verus!
