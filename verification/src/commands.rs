//! The operations the dispatcher exposes to the remote caller. The
//! surrounding program performs the reads and hands their outcomes in as
//! plain values; everything these operations decide — what passes through,
//! what becomes which fault, and what the caller sees — is verified here.

use crate::fault::{wrap, Fault, PrimitiveFault};
use crate::render::{render, spec_render};
use crate::unified::MyCustomError;
use vstd::prelude::*;

verus! {

/// The string-mode operation: a successful read passes its content through
/// unchanged; a failed read is wrapped with the context of the step being
/// attempted and rendered for the caller as one flat string, so the wire
/// form reads as a causal narrative from effect to root cause.
pub fn error_as_string(context: String, read: Result<String, PrimitiveFault>) -> (r: Result<
    String,
    String,
>)
    ensures
        read matches Ok(content) ==> r == Result::<String, String>::Ok(content),
        read matches Err(p) ==> r matches Err(m) && m@ == context@ + ": "@ + spec_render(
            Fault::Primitive(p),
        ),
{
    match read {
        Ok(content) => Ok(content),
        Err(p) => {
            let f = wrap(context, Fault::Primitive(p));
            Err(render(&f))
        },
    }
}

/// The unified-taxonomy operation: a failed open converts into the taxonomy
/// automatically and losslessly; a successful open is a success.
pub fn using_thiserror(open: Result<(), PrimitiveFault>) -> (r: Result<(), MyCustomError>)
    ensures
        open is Ok ==> r is Ok,
        open matches Err(p) ==> r == Result::<(), MyCustomError>::Err(MyCustomError::File(p)),
{
    match open {
        Ok(u) => Ok(u),
        Err(p) => Err(MyCustomError::from_primitive(p)),
    }
}

/// The operation whose failure comes from an unrecognized, aggregated source:
/// it always reports the opaque arm, carrying the source's description.
pub fn using_thiserror_and_anyhow() -> (r: Result<(), MyCustomError>)
    ensures
        r matches Err(e) && e matches MyCustomError::Other(s) && s@ == "Whoah"@,
{
    proof {
        reveal_strlit("Whoah");
    }
    Err(MyCustomError::from_opaque("Whoah".to_owned()))
}

} // verus!
