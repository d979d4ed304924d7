use vstd::prelude::*;

verus! {

/// The lower-case hexadecimal digit for `d` (meaningful for `d < 16`).
pub open spec fn hex_char(d: nat) -> char {
    seq!['0', '1', '2', '3', '4', '5', '6', '7', '8', '9', 'a', 'b', 'c', 'd', 'e', 'f'][d as int]
}

/// The last `n` hexadecimal digits of `v`, most significant first.
pub open spec fn hex_digits(v: nat, n: nat) -> Seq<char>
    decreases n,
{
    if n == 0 {
        Seq::empty()
    } else {
        hex_digits(v / 16, (n - 1) as nat).push(hex_char(v % 16))
    }
}

/// The canonical text of an identifier: 32 lower-case hex digits in groups
/// of 8, 4, 4, 4 and 12, joined by hyphens.
pub open spec fn hyphenated(v: u128) -> Seq<char> {
    let d = hex_digits(v as nat, 32);
    d.subrange(0, 8) + seq!['-'] + d.subrange(8, 12) + seq!['-'] + d.subrange(12, 16)
        + seq!['-'] + d.subrange(16, 20) + seq!['-'] + d.subrange(20, 32)
}

/// What `uuid::Uuid::parse_str` makes of a text, as the 128-bit value of the
/// identifier (its bytes read big-endian), or `None` where it refuses it.
pub uninterp spec fn uuid_value_of(text: Seq<char>) -> Option<u128>;

/// Relies on `uuid::Uuid::parse_str` (with `Uuid::as_u128`): the result
/// depends on the text alone; an empty text is no identifier.
#[verifier::external_body]
pub fn parse_identifier(text: &str) -> (r: Option<u128>)
    ensures
        r == uuid_value_of(text@),
        text@.len() == 0 ==> r.is_none(),
{
    uuid::Uuid::parse_str(text).ok().map(|u| u.as_u128())
}

/// Relies on `uuid::Uuid::from_u128` and its `Display`, which writes the
/// hyphenated lower-case form of the big-endian bytes.
#[verifier::external_body]
pub fn identifier_text(v: u128) -> (r: String)
    ensures
        r@ == hyphenated(v),
{
    uuid::Uuid::from_u128(v).to_string()
}

} // verus!
