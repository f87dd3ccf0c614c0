//! String assembly for metric names and error messages.

use vstd::prelude::*;
use vstd::string::StringExecFns;

verus! {

/// The left string followed by the right, character for character.
pub(crate) fn concat_strs(a: &str, b: &str) -> (r: String)
    ensures
        r@ == a@ + b@,
{
    let s: String = a.to_owned();
    s.concat(b)
}

} // verus!
