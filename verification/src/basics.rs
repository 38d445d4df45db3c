//! The smallest operations the boundary serves: one step that always reports
//! a failure, one layer that handles it locally with an explicit substitute
//! message, and one layer that propagates it to its caller unchanged. Nothing
//! here panics; every fault is either handled or propagated.

use vstd::prelude::*;
use vstd::string::StringExecFns;

verus! {

/// A fallible step that always reports a failure, with a fixed description.
pub fn a_fn_that_errs() -> (r: Result<(), String>)
    ensures
        r matches Err(m) && m@ == "to err is human"@,
{
    Err("to err is human".to_owned())
}

/// Local, explicit recovery: the layer has enough information to substitute a
/// message for either outcome, so the fault stops here.
pub fn handled_message(r: &Result<(), String>) -> (m: String)
    ensures
        r is Ok ==> m@ == "all is good"@,
        r matches Err(e) ==> m@ == "handling the error: "@ + e@,
{
    match r {
        Ok(_) => "all is good".to_owned(),
        Err(e) => "handling the error: ".to_owned().concat(e.as_str()),
    }
}

/// Propagation without handling: the failing step's fault is passed to the
/// caller exactly as it was produced.
pub fn try_operator() -> (r: Result<(), String>)
    ensures
        r matches Err(m) && m@ == "to err is human"@,
{
    let step = a_fn_that_errs();
    match step {
        Ok(u) => Ok(u),
        Err(e) => Err(e),
    }
}

/// Entry point of the walkthrough: drives the propagated and the handled
/// variants once; their outcomes are values, so nothing escapes.
pub fn errors() {
    let propagated = try_operator();
    let _message = handled_message(&propagated);
}

} // verus!
