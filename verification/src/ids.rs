//! Identifier generation: opaque repository names and submission identifiers.
//!
//! A repository name is eight random bytes rendered as sixteen lowercase hex
//! digits; a submission identifier is a random version-4 UUID in hyphenated
//! lowercase form. Neither is guaranteed unique beyond probabilistic
//! collision resistance, and no caller retries on collision.

use vstd::prelude::*;

use rand::Rng;

verus! {

/// A decimal digit or a lowercase hex letter.
pub open spec fn is_lower_hex_digit(c: char) -> bool {
    ('0' <= c && c <= '9') || ('a' <= c && c <= 'f')
}

/// A hex digit of either case.
pub open spec fn is_hex_digit(c: char) -> bool {
    is_lower_hex_digit(c) || ('A' <= c && c <= 'F')
}

/// The lowercase image of a hex digit: uppercase letters fold, everything
/// else is unchanged.
pub open spec fn lower_hex_char(c: char) -> char {
    match c {
        'A' => 'a',
        'B' => 'b',
        'C' => 'c',
        'D' => 'd',
        'E' => 'e',
        'F' => 'f',
        _ => c,
    }
}

/// The lowercase hex digit with value `n`, for `n < 16`.
pub open spec fn hex_digit_char(n: u8) -> char {
    if n == 0 {
        '0'
    } else if n == 1 {
        '1'
    } else if n == 2 {
        '2'
    } else if n == 3 {
        '3'
    } else if n == 4 {
        '4'
    } else if n == 5 {
        '5'
    } else if n == 6 {
        '6'
    } else if n == 7 {
        '7'
    } else if n == 8 {
        '8'
    } else if n == 9 {
        '9'
    } else if n == 10 {
        'a'
    } else if n == 11 {
        'b'
    } else if n == 12 {
        'c'
    } else if n == 13 {
        'd'
    } else if n == 14 {
        'e'
    } else {
        'f'
    }
}

/// The two lowercase hex digits of one byte, most significant nibble first.
pub open spec fn hex_pair(b: u8) -> Seq<char> {
    seq![hex_digit_char(b / 16), hex_digit_char(b % 16)]
}

/// The lowercase hex encoding of a byte sequence.
pub open spec fn hex_lower_of(bytes: Seq<u8>) -> Seq<char>
    decreases bytes.len(),
{
    if bytes.len() == 0 {
        Seq::empty()
    } else {
        hex_pair(bytes[0]) + hex_lower_of(bytes.drop_first())
    }
}

/// A well-formed repository name: exactly sixteen lowercase hex digits.
pub open spec fn is_repo_name(s: Seq<char>) -> bool {
    s.len() == 16 && (forall|i: int| 0 <= i < s.len() ==> is_lower_hex_digit(#[trigger] s[i]))
}

/// The hex encoding has two digits per byte, all of them lowercase.
pub proof fn lemma_hex_lower_of_shape(bytes: Seq<u8>)
    ensures
        hex_lower_of(bytes).len() == 2 * bytes.len(),
        forall|i: int|
            0 <= i < hex_lower_of(bytes).len() ==> is_lower_hex_digit(
                #[trigger] hex_lower_of(bytes)[i],
            ),
    decreases bytes.len(),
{
    if bytes.len() > 0 {
        lemma_hex_lower_of_shape(bytes.drop_first());
        assert(hex_lower_of(bytes) == hex_pair(bytes[0]) + hex_lower_of(bytes.drop_first()));
        assert forall|i: int| 0 <= i < hex_lower_of(bytes).len() implies is_lower_hex_digit(
            hex_lower_of(bytes)[i],
        ) by {
            if i >= 2 {
                assert(hex_lower_of(bytes)[i] == hex_lower_of(bytes.drop_first())[i - 2]);
            }
        }
    }
}

/// Relies on rand's thread-local generator to fill an array with random
/// bytes. Nothing is assumed of the values drawn: two calls may or may not
/// agree.
#[verifier::external_body]
fn random_bytes() -> (r: [u8; 8]) {
    rand::thread_rng().gen()
}

/// Relies on hex::encode: each input byte becomes two lowercase hex digits,
/// most significant nibble first.
#[verifier::external_body]
fn to_lower_hex(bytes: &[u8; 8]) -> (r: String)
    ensures
        r@ == hex_lower_of(bytes@),
{
    hex::encode(bytes)
}

/// Generate a repository name: a fresh random token of sixteen lowercase hex
/// characters. This is the name under which the repository is created on the
/// git server and looked up ever after.
pub fn generate_repo_id() -> (r: String)
    ensures
        is_repo_name(r@),
{
    let bytes = random_bytes();
    let id = to_lower_hex(&bytes);
    proof {
        lemma_hex_lower_of_shape(bytes@);
    }
    id
}

/// Holds at each position of a hyphenated lowercase version-4 UUID string.
pub open spec fn uuid_char_ok(s: Seq<char>, i: int) -> bool {
    if i == 8 || i == 13 || i == 18 || i == 23 {
        s[i] == '-'
    } else if i == 14 {
        s[i] == '4'
    } else if i == 19 {
        s[i] == '8' || s[i] == '9' || s[i] == 'a' || s[i] == 'b'
    } else {
        is_lower_hex_digit(s[i])
    }
}

/// A hyphenated lowercase version-4 UUID string: 36 characters, hyphens at
/// positions 8, 13, 18 and 23, the version digit `4`, a RFC 4122 variant
/// digit, and lowercase hex digits everywhere else.
pub open spec fn is_uuid_string(s: Seq<char>) -> bool {
    s.len() == 36 && (forall|i: int| 0 <= i < s.len() ==> #[trigger] uuid_char_ok(s, i))
}

/// Relies on uuid: `Uuid::new_v4` draws a random 128-bit value, forces the
/// version-4 and RFC 4122 variant bits, and displays as 36 hyphenated
/// lowercase hex characters. Only the shape of the string is assumed, never
/// its value.
#[verifier::external_body]
fn random_uuid_string() -> (r: String)
    ensures
        is_uuid_string(r@),
{
    uuid::Uuid::new_v4().to_string()
}

/// Generate a submission identifier: a random 128-bit value formatted as a
/// standard UUID string. It doubles as the log-stream identifier of the
/// submission.
pub fn generate_submission_id() -> (r: String)
    ensures
        is_uuid_string(r@),
{
    random_uuid_string()
}

} // verus!
