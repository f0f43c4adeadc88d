//! A stand-in for fallible work, for callers that want to exercise their
//! handling of results without an engine at hand.

use vstd::prelude::*;
use vstd::string::StringExecFns;

verus! {

/// The text that the stand-in operation answers with.
pub open spec fn success_text() -> Seq<char> {
    "success"@
}

/// An operation that may fail by its type and never does: it answers with
/// [`success_text`].
pub fn some_fallible_operation() -> (outcome: Result<String, &'static str>)
    ensures
        outcome is Ok,
        outcome->Ok_0@ == success_text(),
{
    Ok(String::from_str("success"))
}

} // verus!
