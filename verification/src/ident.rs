//! Entity identifiers: 128-bit tokens and their textual form.
//!
//! An identifier is held as the `u128` whose big-endian bytes are the
//! identifier's sixteen bytes. Reading and writing its text is left to the
//! `uuid` crate.

use vstd::prelude::*;
use vstd::arithmetic::power::pow;

verus! {

/// The identifier that `uuid::Uuid::parse_str` reads from `text`, `None`
/// where it rejects the text.
pub uninterp spec fn uuid_parsed(text: Seq<char>) -> Option<u128>;

/// The lower-case hexadecimal digit of a value below sixteen.
pub open spec fn hex_digit(n: int) -> char {
    seq!['0', '1', '2', '3', '4', '5', '6', '7', '8', '9', 'a', 'b', 'c', 'd', 'e', 'f'][n]
}

/// The `k`-th of the 32 hexadecimal digits of `id`, the most significant first.
pub open spec fn nibble(id: u128, k: int) -> int {
    (id as int / pow(16, (31 - k) as nat)) % 16
}

/// Whether place `i` of the hyphenated form holds a hyphen.
pub open spec fn is_hyphen_place(i: int) -> bool {
    i == 8 || i == 13 || i == 18 || i == 23
}

/// The number of hexadecimal digits that stand before place `i` of the
/// hyphenated form.
pub open spec fn digits_before(i: int) -> int {
    if i > 23 {
        i - 4
    } else if i > 18 {
        i - 3
    } else if i > 13 {
        i - 2
    } else if i > 8 {
        i - 1
    } else {
        i
    }
}

/// The hyphenated form of an identifier: its 32 lower-case hexadecimal
/// digits in groups of 8, 4, 4, 4 and 12, with a hyphen between groups.
pub open spec fn hyphenated(id: u128) -> Seq<char> {
    Seq::new(
        36,
        |i: int|
            if is_hyphen_place(i) {
                '-'
            } else {
                hex_digit(nibble(id, digits_before(i)))
            },
    )
}

/// Whether `c` is a lower-case hexadecimal digit or a hyphen.
pub open spec fn is_plain(c: char) -> bool {
    c == '-' || ('0' <= c && c <= '9') || ('a' <= c && c <= 'f')
}

/// The hyphenated form has 36 characters, hyphens at its four group
/// boundaries and nowhere else, and no character that a quoted string
/// would have to escape.
pub proof fn lemma_hyphenated_is_plain(id: u128)
    ensures
        hyphenated(id).len() == 36,
        forall|i: int| 0 <= i < 36 ==> is_plain(#[trigger] hyphenated(id)[i]),
        forall|i: int|
            0 <= i < 36 ==> (#[trigger] hyphenated(id)[i] == '-' <==> is_hyphen_place(i)),
{
    assert forall|i: int| 0 <= i < 36 implies is_plain(#[trigger] hyphenated(id)[i]) && (
    hyphenated(id)[i] == '-' <==> is_hyphen_place(i)) by {
        if !is_hyphen_place(i) {
            let n = nibble(id, digits_before(i));
            assert(0 <= n < 16);
            assert(is_plain(hex_digit(n)) && hex_digit(n) != '-');
        }
    }
}

/// Reads an identifier with `uuid::Uuid::parse_str`, which accepts the
/// simple, hyphenated and URN forms. The contract only names what that
/// function returns: the identifier's bytes as a big-endian number, or
/// `None` where it reports a parse error.
#[verifier::external_body]
pub(crate) fn parse_uuid(text: &str) -> (id: Option<u128>)
    ensures
        id == uuid_parsed(text@),
{
    match uuid::Uuid::parse_str(text) {
        Ok(parsed) => Some(u128::from_be_bytes(*parsed.as_bytes())),
        Err(_) => None,
    }
}

/// Writes an identifier with the `Display` impl of `uuid::Uuid`, reached
/// through `to_string`. The contract claims that the text is the
/// lower-case hyphenated form of the sixteen big-endian bytes.
#[verifier::external_body]
pub(crate) fn uuid_text(id: u128) -> (text: String)
    ensures
        text@ == hyphenated(id),
{
    uuid::Uuid::from_bytes(id.to_be_bytes()).to_string()
}

} // verus!
