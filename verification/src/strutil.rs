//! Small trusted bridges to `std` string operations that vstd gives no
//! specification, and the name for the result of Unicode lower-casing.

use vstd::prelude::*;
use crate::chars::is_slug_char;

verus! {

/// What `str::to_lowercase` returns on the given characters. The result
/// depends on the characters alone.
pub uninterp spec fn lower_of(s: Seq<char>) -> Seq<char>;

/// Relies on `str::to_lowercase`: the result is a function of the input
/// characters alone, and characters without a lower-case mapping — among
/// them lower-case ASCII letters, ASCII digits and the hyphen — are left
/// unchanged, so an input made only of those comes back as it was.
#[verifier::external_body]
pub fn lowercase(s: &str) -> (r: String)
    ensures
        r@ == lower_of(s@),
        (forall|i: int| 0 <= i < s@.len() ==> is_slug_char(#[trigger] s@[i]) || s@[i] == '-') ==> r@
            == s@,
{
    s.to_lowercase()
}

/// Relies on `String::push`: appends exactly one character.
#[verifier::external_body]
pub fn push_char(s: &mut String, c: char)
    ensures
        final(s)@ == old(s)@.push(c),
{
    s.push(c);
}

} // verus!
