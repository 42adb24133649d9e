//! Deriving the identifier of a macro call from its file path and its text.
//!
//! Each source file gets a namespace of its own: the name-based UUID of the
//! file's path under a fixed base namespace. The text of a call is then hashed
//! under that namespace, and the resulting sixteen bytes are written as
//! uppercase hexadecimal after a fixed prefix that starts with a letter.
use vstd::prelude::*;
use vstd::string::StringExecFns;
use vstd::utf8::encode_utf8;

use crate::hex::{hex_decode, is_hex_digit, is_upper_hex_digit, upper_hex};
use crate::hex::{lemma_upper_hex_digits, lemma_upper_hex_injective};

verus! {

#[verifier::external_type_specification]
#[verifier::external_body]
pub struct ExUuidError(uuid::Error);

/// The sixteen bytes of the UUID that the name `name` receives in the
/// namespace `namespace` (a version 5, SHA-1 based UUID).
pub uninterp spec fn name_uuid(namespace: Seq<u8>, name: Seq<u8>) -> Seq<u8>;

/// Relies on `uuid::Uuid::parse_str`: a text of thirty-two hexadecimal digits
/// is accepted and read two digits per byte, high digit first.
#[verifier::external_body]
fn parse_uuid(text: &str) -> (r: Result<[u8; 16], uuid::Error>)
    ensures
        text@.len() == 32 && (forall|i: int| 0 <= i < 32 ==> is_hex_digit(#[trigger] text@[i]))
            ==> (r is Ok && r->Ok_0@ == hex_decode(text@)),
{
    uuid::Uuid::parse_str(text).map(|u| *u.as_bytes())
}

/// Relies on `uuid::Uuid::new_v5`: the UUID is computed from the namespace's
/// bytes and the name's bytes alone.
#[verifier::external_body]
fn new_v5(namespace: &[u8; 16], name: &[u8]) -> (r: [u8; 16])
    ensures
        r@ == name_uuid(namespace@, name@),
{
    *uuid::Uuid::new_v5(&uuid::Uuid::from_bytes(*namespace), name).as_bytes()
}

/// Relies on `uuid::adapter::Simple::encode_upper`: each byte becomes two
/// uppercase hexadecimal digits, high digit first, with no separators.
#[verifier::external_body]
fn simple_upper(bytes: &[u8; 16]) -> (r: String)
    ensures
        r@ == upper_hex(bytes@),
{
    let mut buffer = uuid::Uuid::encode_buffer();
    uuid::Uuid::from_bytes(*bytes).to_simple().encode_upper(&mut buffer).to_string()
}

/// The bytes of the base namespace that every file namespace is derived from.
pub open spec fn base_namespace_bytes() -> Seq<u8> {
    seq![
        0x00u8, 0x00, 0x00, 0x00, 0x11, 0x11, 0x11, 0x11,
        0x11, 0xd2, 0xd3, 0xd4, 0xd5, 0xd6, 0xd7, 0xd8,
    ]
}

/// The namespace of the source file at `path`.
pub open spec fn file_namespace_bytes(path: Seq<char>) -> Seq<u8> {
    name_uuid(base_namespace_bytes(), encode_utf8(path))
}

/// The UUID of the call with text `seed` in the file at `path`.
pub open spec fn symbol_uuid_bytes(path: Seq<char>, seed: Seq<char>) -> Seq<u8> {
    name_uuid(file_namespace_bytes(path), encode_utf8(seed))
}

/// The prefix, letters only, that makes every derived symbol start with a
/// letter.
pub open spec fn symbol_prefix() -> Seq<char> {
    seq!['D', 'E', 'T', 'S', 'Y', 'M']
}

/// The symbol written for a UUID.
pub open spec fn symbol_for(uuid: Seq<u8>) -> Seq<char> {
    symbol_prefix() + upper_hex(uuid)
}

/// The symbol derived for the call with text `seed` in the file at `path`.
pub open spec fn symbol_text(path: Seq<char>, seed: Seq<char>) -> Seq<char> {
    symbol_for(symbol_uuid_bytes(path, seed))
}

/// `c` may start an identifier: an ASCII letter or `_`.
pub open spec fn is_ident_start(c: char) -> bool {
    ('a' <= c && c <= 'z') || ('A' <= c && c <= 'Z') || c == '_'
}

/// `c` may continue an identifier: an ASCII letter, an ASCII digit or `_`.
pub open spec fn is_ident_continue(c: char) -> bool {
    is_ident_start(c) || ('0' <= c && c <= '9')
}

/// `c` is an ASCII letter or an ASCII digit.
pub open spec fn is_ascii_alphanumeric(c: char) -> bool {
    ('a' <= c && c <= 'z') || ('A' <= c && c <= 'Z') || ('0' <= c && c <= '9')
}

/// `s` is an identifier made of ASCII characters.
pub open spec fn is_identifier(s: Seq<char>) -> bool {
    &&& s.len() > 0
    &&& is_ident_start(s[0])
    &&& forall|i: int| 1 <= i < s.len() ==> is_ident_continue(#[trigger] s[i])
}

/// The base namespace, read from its hexadecimal text.
pub fn base_namespace() -> (r: [u8; 16])
    ensures
        r@ == base_namespace_bytes(),
{
    let text = "000000001111111111d2d3d4d5d6d7d8";
    proof {
        reveal_strlit("000000001111111111d2d3d4d5d6d7d8");
    }
    let r = parse_uuid(text).unwrap();
    assert(r@ =~= base_namespace_bytes());
    r
}

/// The namespace of the source file at `path`: the UUID of the path's UTF-8
/// bytes under the base namespace.
pub fn file_namespace(path: &str) -> (r: [u8; 16])
    ensures
        r@ == file_namespace_bytes(path@),
{
    let base = base_namespace();
    new_v5(&base, path.as_bytes())
}

/// The UUID of the call with text `seed` in the file at `path`: the UUID of
/// the text's UTF-8 bytes under the file's namespace.
pub fn symbol_uuid(path: &str, seed: &str) -> (r: [u8; 16])
    ensures
        r@ == symbol_uuid_bytes(path@, seed@),
{
    let namespace = file_namespace(path);
    new_v5(&namespace, seed.as_bytes())
}

/// The symbol for a UUID: the prefix, then the UUID in uppercase hexadecimal.
pub fn symbol_name(uuid: &[u8; 16]) -> (r: String)
    ensures
        r@ == symbol_for(uuid@),
        r@.len() == 38,
        is_identifier(r@),
        'A' <= r@[0] <= 'Z',
        forall|i: int| 0 <= i < r@.len() ==> is_ascii_alphanumeric(#[trigger] r@[i]),
{
    let hex = simple_upper(uuid);
    let mut r = String::from_str("DETSYM");
    proof {
        reveal_strlit("DETSYM");
    }
    r.append(hex.as_str());
    assert(r@ =~= symbol_for(uuid@));
    proof {
        lemma_symbol_for_shape(uuid@);
    }
    r
}

/// The symbol derived for the call with text `seed` in the file at `path`.
pub fn derive_symbol(path: &str, seed: &str) -> (r: String)
    ensures
        r@ == symbol_text(path@, seed@),
        r@.len() == 38,
        is_identifier(r@),
        'A' <= r@[0] <= 'Z',
        forall|i: int| 0 <= i < r@.len() ==> is_ascii_alphanumeric(#[trigger] r@[i]),
{
    let uuid = symbol_uuid(path, seed);
    symbol_name(&uuid)
}

/// The symbol written for a UUID is the prefix followed by uppercase
/// hexadecimal digits: an identifier of ASCII letters and digits only.
pub proof fn lemma_symbol_for_shape(uuid: Seq<u8>)
    ensures
        symbol_for(uuid).len() == 6 + 2 * uuid.len(),
        symbol_for(uuid).subrange(0, 6) == symbol_prefix(),
        forall|i: int|
            6 <= i < symbol_for(uuid).len() ==> is_upper_hex_digit(#[trigger] symbol_for(uuid)[i]),
        forall|i: int|
            0 <= i < symbol_for(uuid).len() ==> is_ascii_alphanumeric(
                #[trigger] symbol_for(uuid)[i],
            ),
        'A' <= symbol_for(uuid)[0] <= 'Z',
        is_identifier(symbol_for(uuid)),
{
    lemma_upper_hex_digits(uuid);
    let s = symbol_for(uuid);
    assert(s.subrange(0, 6) =~= symbol_prefix());
    assert forall|i: int| 6 <= i < s.len() implies is_upper_hex_digit(#[trigger] s[i]) by {
        assert(s[i] == upper_hex(uuid)[i - 6]);
    }
    assert forall|i: int| 0 <= i < s.len() implies is_ascii_alphanumeric(#[trigger] s[i]) by {
        if i >= 6 {
            assert(s[i] == upper_hex(uuid)[i - 6]);
        }
    }
    assert forall|i: int| 1 <= i < s.len() implies is_ident_continue(#[trigger] s[i]) by {
        assert(is_ascii_alphanumeric(s[i]));
    }
}

/// Derivation is a function of the file path and the call's text: equal
/// inputs give the same symbol, in any run.
pub proof fn lemma_symbol_deterministic(
    path1: Seq<char>,
    seed1: Seq<char>,
    path2: Seq<char>,
    seed2: Seq<char>,
)
    requires
        path1 == path2,
        seed1 == seed2,
    ensures
        symbol_text(path1, seed1) == symbol_text(path2, seed2),
{
}

/// The symbol keeps all of the UUID: two calls get the same symbol exactly
/// when they get the same UUID. Distinct texts in one file, or one text in
/// distinct files, thus collide only where the 128-bit name-based UUIDs do.
pub proof fn lemma_symbols_equal_iff_uuids_equal(
    path1: Seq<char>,
    seed1: Seq<char>,
    path2: Seq<char>,
    seed2: Seq<char>,
)
    ensures
        symbol_text(path1, seed1) == symbol_text(path2, seed2) <==> symbol_uuid_bytes(path1, seed1)
            == symbol_uuid_bytes(path2, seed2),
{
    let u1 = symbol_uuid_bytes(path1, seed1);
    let u2 = symbol_uuid_bytes(path2, seed2);
    if u1 != u2 {
        lemma_upper_hex_injective(u1, u2);
        assert(symbol_for(u1).subrange(6, symbol_for(u1).len() as int) =~= upper_hex(u1));
        assert(symbol_for(u2).subrange(6, symbol_for(u2).len() as int) =~= upper_hex(u2));
    }
}

/// Every derived symbol is an identifier made of ASCII letters and digits
/// only: the letters `DETSYM`, then uppercase hexadecimal digits.
pub proof fn lemma_symbol_is_identifier(path: Seq<char>, seed: Seq<char>)
    ensures
        is_identifier(symbol_text(path, seed)),
        'A' <= symbol_text(path, seed)[0] <= 'Z',
        forall|i: int|
            0 <= i < symbol_text(path, seed).len() ==> is_ascii_alphanumeric(
                #[trigger] symbol_text(path, seed)[i],
            ),
        symbol_text(path, seed).subrange(0, 6) == symbol_prefix(),
        forall|i: int|
            6 <= i < symbol_text(path, seed).len() ==> is_upper_hex_digit(
                #[trigger] symbol_text(path, seed)[i],
            ),
{
    lemma_symbol_for_shape(symbol_uuid_bytes(path, seed));
}

} // verus!
