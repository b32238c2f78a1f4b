//! Item identifiers: 128-bit UUIDs held as `u128`, most significant byte first.
use vstd::prelude::*;

verus! {

/// The lower-case hexadecimal digit for `d` in `0..16`.
pub open spec fn hex_digit(d: int) -> char {
    seq!['0', '1', '2', '3', '4', '5', '6', '7', '8', '9', 'a', 'b', 'c', 'd', 'e', 'f'][d]
}

/// The `j`-th hexadecimal digit of `v`, counting from the most significant.
pub open spec fn nibble(v: u128, j: int) -> int {
    (v as int / vstd::arithmetic::power2::pow2((4 * (31 - j)) as nat) as int) % 16
}

/// How many hyphens stand before position `i` of the hyphenated form.
pub open spec fn hyphens_before(i: int) -> int {
    if i < 8 {
        0
    } else if i < 13 {
        1
    } else if i < 18 {
        2
    } else if i < 23 {
        3
    } else {
        4
    }
}

/// The canonical text of an identifier: 32 lower-case hex digits in groups
/// of 8, 4, 4, 4 and 12, joined by hyphens.
pub open spec fn hyphenated(v: u128) -> Seq<char> {
    Seq::new(
        36,
        |i: int|
            if i == 8 || i == 13 || i == 18 || i == 23 {
                '-'
            } else {
                hex_digit(nibble(v, i - hyphens_before(i)))
            },
    )
}

/// The upper-case hexadecimal digit for `d` in `0..16`.
pub open spec fn upper_hex_digit(d: int) -> char {
    seq!['0', '1', '2', '3', '4', '5', '6', '7', '8', '9', 'A', 'B', 'C', 'D', 'E', 'F'][d]
}

/// `c` is the hexadecimal digit for `d`, in either case.
pub open spec fn is_hex_digit_of(c: char, d: int) -> bool {
    0 <= d < 16 && (hex_digit(d) == c || upper_hex_digit(d) == c)
}

/// The number that the hexadecimal digits `d` spell, most significant first;
/// `None` where one of them is no hexadecimal digit.
pub open spec fn digits_value(d: Seq<char>) -> Option<int>
    decreases d.len(),
{
    if d.len() == 0 {
        Some(0)
    } else if exists|x: int| is_hex_digit_of(d.last(), x) {
        match digits_value(d.drop_last()) {
            Some(high) => Some(high * 16 + choose|x: int| is_hex_digit_of(d.last(), x)),
            None => None,
        }
    } else {
        None
    }
}

/// 32 hexadecimal digits, as a `u128`.
pub open spec fn simple_value(s: Seq<char>) -> Option<u128> {
    if s.len() == 32 {
        match digits_value(s) {
            Some(v) => Some(v as u128),
            None => None,
        }
    } else {
        None
    }
}

/// 32 hexadecimal digits in groups of 8, 4, 4, 4 and 12 joined by hyphens.
pub open spec fn hyphenated_value(s: Seq<char>) -> Option<u128> {
    if s.len() == 36 && s[8] == '-' && s[13] == '-' && s[18] == '-' && s[23] == '-' {
        simple_value(
            s.subrange(0, 8) + s.subrange(9, 13) + s.subrange(14, 18) + s.subrange(19, 23)
                + s.subrange(24, 36),
        )
    } else {
        None
    }
}

/// The identifier that a text spells, in one of the four forms that
/// `uuid::Uuid::parse_str` accepts: simple, hyphenated, hyphenated in braces,
/// or hyphenated after a `urn:uuid:` prefix in any case.
pub open spec fn uuid_value(s: Seq<char>) -> Option<u128> {
    if s.len() == 32 {
        simple_value(s)
    } else if s.len() == 36 {
        hyphenated_value(s)
    } else if s.len() == 38 && s[0] == '{' && s[37] == '}' {
        hyphenated_value(s.subrange(1, 37))
    } else if s.len() == 45 && forall|i: int|
        0 <= i < 9 ==> s[i] == seq!['u', 'r', 'n', ':', 'u', 'u', 'i', 'd', ':'][i] || s[i]
            == seq!['U', 'R', 'N', ':', 'U', 'U', 'I', 'D', ':'][i] {
        hyphenated_value(s.subrange(9, 45))
    } else {
        None
    }
}

/// Relies on `uuid::Uuid::parse_str` and `Uuid::as_u128`: the text is
/// accepted in exactly the four forms of `uuid_value`, its hex digits read
/// most significant first; the canonical hyphenated text of a value parses
/// back to that value.
#[verifier::external_body]
pub(crate) fn parse_item_id(s: &str) -> (r: Option<u128>)
    ensures
        r == uuid_value(s@),
        forall|v: u128| s@ == hyphenated(v) ==> r == Some(v),
{
    uuid::Uuid::parse_str(s).ok().map(|u| u.as_u128())
}

/// Relies on `uuid::Uuid::from_u128` (big-endian bytes) and the `Display` of
/// `Uuid::hyphenated`, which writes lower-case hex in 8-4-4-4-12 groups.
#[verifier::external_body]
pub(crate) fn item_id_text(id: u128) -> (r: String)
    ensures
        r@ == hyphenated(id),
{
    uuid::Uuid::from_u128(id).hyphenated().to_string()
}

} // verus!
