//! Comparing texts.

use vstd::prelude::*;

verus! {

/// Whether `a` and `b` are the same text, character by character.
pub fn same_text(a: &str, b: &str) -> (same: bool)
    ensures
        same == (a@ == b@),
{
    String::from_str(a) == String::from_str(b)
}

} // verus!
