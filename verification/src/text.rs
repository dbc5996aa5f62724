//! Text assembly for messages and header values.

use vstd::prelude::*;

verus! {

/// `[&str]::concat` on three pieces: the result is the three texts in a row.
#[verifier::external_body]
pub(crate) fn concat3(first: &str, second: &str, third: &str) -> (joined: String)
    ensures
        joined@ == first@ + second@ + third@,
{
    [first, second, third].concat()
}

} // verus!
