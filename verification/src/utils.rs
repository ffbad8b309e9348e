//! Small helpers for building external-tool command lines.

use vstd::prelude::*;

verus! {

/// Owned copies of the given argument words, in order.
pub fn to_string_vec(items: &[&str]) -> (r: Vec<String>)
    ensures
        r@.len() == items@.len(),
        forall|i: int| 0 <= i < r@.len() ==> r@[i]@ == items@[i]@,
{
    let mut out: Vec<String> = Vec::new();
    let n = items.len();
    let mut i: usize = 0;
    while i < n
        invariant
            i <= n,
            n == items@.len(),
            out@.len() == i,
            forall|k: int| 0 <= k < i ==> out@[k]@ == items@[k]@,
        decreases n - i,
    {
        out.push(items[i].to_owned());
        i = i + 1;
    }
    out
}

} // verus!
