//! The crash guard: one operation's boundary, where a fatal internal abort is
//! degraded to a reported `Crashed` failure instead of escaping to the caller
//! or the process. The surrounding program intercepts the abort at the task
//! boundary (however the operation is scheduled) and hands the guard what it
//! observed; the guard's translation of that observation is verified here.

use crate::fault::{Fault, FaultKind, PrimitiveFault};
use crate::render::{
    frames_of, kind_name, render, render_structured, spec_frames, spec_render, spec_wire_kind,
    spec_wire_message, WireError,
};
use vstd::prelude::*;

verus! {

/// What crossed one operation's boundary: the operation completed with its
/// own result, or it aborted and at most a diagnostic text was recovered.
/// `Aborted` never leaves the guard as anything but a reported failure.
#[derive(Debug)]
pub enum Outcome<V> {
    Completed(Result<V, Fault>),
    Aborted(Option<String>),
}

/// The detail a contained crash reports: the recovered diagnostic only when
/// configuration explicitly allows exposing it and it is non-empty; otherwise
/// a generic text, so raw internal diagnostics never leak by default.
pub open spec fn spec_crash_detail(diag: Option<String>, expose: bool) -> Seq<char> {
    match diag {
        Some(d) => if expose && d@.len() > 0 {
            d@
        } else {
            "operation aborted"@
        },
        None => "operation aborted"@,
    }
}

/// Builds the primitive fault a contained crash is reported as.
pub fn crash_fault(diag: Option<String>, expose_diagnostics: bool) -> (r: PrimitiveFault)
    ensures
        r.kind == FaultKind::Crashed,
        r.detail@ == spec_crash_detail(diag, expose_diagnostics),
        r.wf(),
{
    proof {
        reveal_strlit("operation aborted");
    }
    let detail: String = match diag {
        Some(d) => if expose_diagnostics && !d.as_str().is_empty() {
            d
        } else {
            "operation aborted".to_owned()
        },
        None => "operation aborted".to_owned(),
    };
    PrimitiveFault { kind: FaultKind::Crashed, detail }
}

/// Translates one operation's outcome for a deployment using the string wire
/// form: a completed success passes through unchanged, a completed failure is
/// rendered, and an abort is contained as a rendered `Crashed` failure.
pub fn guard_outcome<V>(o: Outcome<V>, expose_diagnostics: bool) -> (r: Result<V, String>)
    ensures
        o matches Outcome::Completed(Ok(v)) ==> r matches Ok(rv) && rv == v,
        o matches Outcome::Completed(Err(f)) ==> r matches Err(m) && m@ == spec_render(f),
        o matches Outcome::Aborted(diag) ==> r matches Err(m) && m@ == kind_name(
            FaultKind::Crashed,
        ) + ": "@ + spec_crash_detail(diag, expose_diagnostics),
{
    match o {
        Outcome::Completed(Ok(v)) => Ok(v),
        Outcome::Completed(Err(f)) => Err(render(&f)),
        Outcome::Aborted(diag) => {
            let p = crash_fault(diag, expose_diagnostics);
            let f = Fault::Primitive(p);
            Err(render(&f))
        },
    }
}

/// The same containment for a deployment using the structured wire form.
pub fn guard_outcome_structured<V>(o: Outcome<V>, expose_diagnostics: bool) -> (r: Result<
    V,
    WireError,
>)
    ensures
        o matches Outcome::Completed(Ok(v)) ==> r matches Ok(rv) && rv == v,
        o matches Outcome::Completed(Err(f)) ==> r matches Err(w) && w.kind@ == spec_wire_kind(f)
            && w.message@ == spec_wire_message(f) && frames_of(w.context@) == spec_frames(f),
        o matches Outcome::Aborted(diag) ==> r matches Err(w) && w.kind@ == kind_name(
            FaultKind::Crashed,
        ) && w.message@ == spec_crash_detail(diag, expose_diagnostics) && frames_of(w.context@)
            == Seq::<Seq<char>>::empty(),
{
    match o {
        Outcome::Completed(Ok(v)) => Ok(v),
        Outcome::Completed(Err(f)) => Err(render_structured(&f)),
        Outcome::Aborted(diag) => {
            let p = crash_fault(diag, expose_diagnostics);
            let f = Fault::Primitive(p);
            Err(render_structured(&f))
        },
    }
}

/// Crash containment: whatever an aborted operation left behind, the guard
/// reports a failure of kind `Crashed` with a non-empty detail — an abort is
/// always translated to a completed, reportable result.
pub proof fn lemma_crash_contained(diag: Option<String>, expose: bool)
    ensures
        spec_crash_detail(diag, expose).len() > 0,
        !expose ==> spec_crash_detail(diag, expose) == "operation aborted"@,
{
    reveal_strlit("operation aborted");
}

} // verus!
