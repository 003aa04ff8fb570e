//! Opaque references between documents.
//!
//! Every cross-document link is carried as a 24-digit hex identifier string.
//! An `Oid` wraps one such string; its abstract value is the case-folded
//! digit sequence, so two references denote the same document exactly when
//! their views agree.

use vstd::prelude::*;

use crate::ids::{is_hex_digit, lower_hex_char};

verus! {

/// A well-formed reference string: exactly 24 hex digits of either case.
pub open spec fn is_object_ref(s: Seq<char>) -> bool {
    s.len() == 24 && (forall|i: int| 0 <= i < s.len() ==> is_hex_digit(#[trigger] s[i]))
}

/// The case-folded image of a reference string.
pub open spec fn canonical_of(s: Seq<char>) -> Seq<char> {
    s.map_values(|c: char| lower_hex_char(c))
}

/// An opaque reference to a stored document. The store assigns these; this
/// core only validates, compares and forwards them.
pub struct Oid {
    hex: String,
}

impl View for Oid {
    type V = Seq<char>;

    closed spec fn view(&self) -> Seq<char> {
        canonical_of(self.hex@)
    }
}

/// Exec check that one character is a hex digit.
fn hex_digit_check(c: char) -> (r: bool)
    ensures
        r == is_hex_digit(c),
{
    ('0' <= c && c <= '9') || ('a' <= c && c <= 'f') || ('A' <= c && c <= 'F')
}

impl Oid {
    /// The stored string is a well-formed reference.
    pub closed spec fn wf(&self) -> bool {
        is_object_ref(self.hex@)
    }

    /// Validate a raw identifier string. `Some` exactly when the string is a
    /// well-formed reference; the reference then denotes the case-folded
    /// digits.
    pub fn parse(s: &str) -> (r: Option<Oid>)
        ensures
            r is Some <==> is_object_ref(s@),
            r matches Some(oid) ==> oid@ == canonical_of(s@) && oid.wf(),
    {
        let len = s.unicode_len();
        if len != 24 {
            return None;
        }
        let mut i: usize = 0;
        while i < 24
            invariant
                s@.len() == 24,
                0 <= i <= 24,
                forall|j: int| 0 <= j < i ==> is_hex_digit(#[trigger] s@[j]),
            decreases 24 - i,
        {
            if !hex_digit_check(s.get_char(i)) {
                return None;
            }
            i += 1;
        }
        Some(Oid { hex: s.to_owned() })
    }

    /// The raw digits, for handing to the store driver.
    pub fn as_str(&self) -> (r: &str)
        ensures
            canonical_of(r@) == self@,
            self.wf() ==> is_object_ref(r@),
    {
        self.hex.as_str()
    }

    /// An owned copy of the raw digits.
    pub fn hex_string(&self) -> (r: String)
        ensures
            canonical_of(r@) == self@,
            self.wf() ==> is_object_ref(r@),
    {
        self.hex.clone()
    }

    /// Two references denote the same document: their case-folded digits
    /// agree.
    pub fn same_ref(&self, other: &Oid) -> (r: bool)
        requires
            self.wf(),
            other.wf(),
        ensures
            r == (self@ == other@),
    {
        let mut i: usize = 0;
        while i < 24
            invariant
                self.wf(),
                other.wf(),
                self.hex@.len() == 24,
                other.hex@.len() == 24,
                0 <= i <= 24,
                forall|j: int|
                    0 <= j < i ==> lower_hex_char(#[trigger] self.hex@[j]) == lower_hex_char(
                        other.hex@[j],
                    ),
            decreases 24 - i,
        {
            let a = lower_hex(self.hex.as_str().get_char(i));
            let b = lower_hex(other.hex.as_str().get_char(i));
            if a != b {
                proof {
                    assert(self@[i as int] != other@[i as int]);
                }
                return false;
            }
            i += 1;
        }
        proof {
            assert(self@ =~= other@);
        }
        true
    }
}

impl Clone for Oid {
    /// The copy denotes the same document.
    fn clone(&self) -> (r: Self)
        ensures
            r@ == self@,
            self.wf() ==> r.wf(),
    {
        Oid { hex: self.hex.clone() }
    }
}

/// Exec case-folding of one hex digit.
fn lower_hex(c: char) -> (r: char)
    ensures
        r == lower_hex_char(c),
{
    match c {
        'A' => 'a',
        'B' => 'b',
        'C' => 'c',
        'D' => 'd',
        'E' => 'e',
        'F' => 'f',
        _ => c,
    }
}

} // verus!
