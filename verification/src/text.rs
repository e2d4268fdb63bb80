//! Comparison of texts.

use vstd::prelude::*;
use vstd::std_specs::iter::IteratorSpec;

verus! {

/// Whether `left` and `right` hold the same characters.
pub fn text_eq(left: &str, right: &str) -> (same: bool)
    ensures
        same == (left@ == right@),
{
    let mut left_chars = left.chars();
    let mut right_chars = right.chars();
    let ghost mut seen: int = 0;
    loop
        invariant
            0 <= seen <= left@.len(),
            seen <= right@.len(),
            left_chars.obeys_prophetic_iter_laws(),
            right_chars.obeys_prophetic_iter_laws(),
            left_chars.remaining() == left@.skip(seen),
            right_chars.remaining() == right@.skip(seen),
            forall|i: int| 0 <= i < seen ==> left@[i] == right@[i],
        decreases left@.len() - seen,
    {
        let a = left_chars.next();
        let b = right_chars.next();
        match (a, b) {
            (None, None) => {
                assert(left@ =~= right@);
                return true;
            },
            (Some(a), Some(b)) => {
                if a != b {
                    assert(left@[seen] == a);
                    assert(right@[seen] == b);
                    return false;
                }
                assert(left@.skip(seen).drop_first() =~= left@.skip(seen + 1));
                assert(right@.skip(seen).drop_first() =~= right@.skip(seen + 1));
                proof {
                    seen = seen + 1;
                }
            },
            _ => {
                assert(left@.len() != right@.len());
                return false;
            },
        }
    }
}

} // verus!
