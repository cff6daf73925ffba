//! Owned strings assembled from pieces.

use vstd::prelude::*;

verus! {

/// `String::push_str` appends the given slice to the end of the string and
/// leaves what was there untouched.
pub assume_specification[ String::push_str ](s: &mut String, other: &str)
    ensures
        final(s)@ == old(s)@ + other@,
;

/// The owned concatenation of two string slices.
pub fn joined(a: &str, b: &str) -> (r: String)
    ensures
        r@ == a@ + b@,
{
    let mut out = a.to_owned();
    out.push_str(b);
    out
}

} // verus!
