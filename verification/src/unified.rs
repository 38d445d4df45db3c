//! The unified taxonomy one operation exposes to the caller: each known fault
//! source gets its own variant, a context-bearing variant names what was being
//! opened, and everything unrecognized is folded into an opaque arm of which
//! only a renderable description survives (the one documented lossy edge).

use crate::fault::{Fault, FaultKind, PrimitiveFault};
use crate::render::{kind_name, render, spec_render, spec_wire_kind, spec_wire_message};
use vstd::prelude::*;
use vstd::string::StringExecFns;

verus! {

/// The closed return type of an operation that unifies heterogeneous fault
/// sources: a known primitive source, a known source described with the path
/// it was opening, or an unrecognized source kept only as its description.
#[derive(Debug)]
pub enum MyCustomError {
    File(PrimitiveFault),
    BetterFile(PrimitiveFault, String),
    Other(String),
}

impl MyCustomError {
    /// Well-formedness: the carried fault, path and description are non-empty.
    pub open spec fn wf(self) -> bool {
        match self {
            MyCustomError::File(p) => p.wf(),
            MyCustomError::BetterFile(p, path) => p.wf() && path@.len() > 0,
            MyCustomError::Other(s) => s@.len() > 0,
        }
    }

    /// Conversion from a known primitive source: total and lossless — the
    /// whole fault is kept, nothing is dropped.
    pub fn from_primitive(p: PrimitiveFault) -> (r: Self)
        ensures
            r == MyCustomError::File(p),
    {
        MyCustomError::File(p)
    }

    /// Conversion from a known primitive source together with the path the
    /// operation was opening when it failed.
    pub fn described(p: PrimitiveFault, path: String) -> (r: Self)
        ensures
            r == MyCustomError::BetterFile(p, path),
    {
        MyCustomError::BetterFile(p, path)
    }

    /// Total fallback for an unrecognized source: only its rendered
    /// description is captured (the structured kind of the source is lost by
    /// design), and an empty description is replaced so that the wire error
    /// stays non-empty.
    pub fn from_opaque(description: String) -> (r: Self)
        ensures
            r matches MyCustomError::Other(s) && s@ == if description@.len() > 0 {
                description@
            } else {
                "unspecified failure"@
            },
            r.wf(),
    {
        proof {
            reveal_strlit("unspecified failure");
        }
        if description.as_str().is_empty() {
            MyCustomError::Other("unspecified failure".to_owned())
        } else {
            MyCustomError::Other(description)
        }
    }

    /// Lowers the taxonomy into the general fault chain, so that one renderer
    /// serves every arm: a described source becomes a context frame around
    /// its cause, the opaque arm becomes an opaque fault.
    pub fn to_fault(self) -> (f: Fault)
        ensures
            self matches MyCustomError::File(p) ==> f == Fault::Primitive(p),
            self matches MyCustomError::BetterFile(p, path) ==> f matches Fault::Context {
                context,
                cause,
            } && context@ == "error opening "@ + path@ && *cause == Fault::Primitive(p),
            self matches MyCustomError::Other(s) ==> f == Fault::Opaque(s),
            self.wf() ==> f.wf(),
    {
        match self {
            MyCustomError::File(p) => Fault::Primitive(p),
            MyCustomError::BetterFile(p, path) => {
                let ghost gp = p;
                let ghost gpath = path@;
                let ctx = "error opening ".to_owned().concat(path.as_str());
                let f = Fault::Context { context: ctx, cause: Box::new(Fault::Primitive(p)) };
                proof {
                    if gp.wf() && gpath.len() > 0 {
                        assert(f matches Fault::Context { context, cause } && context@.len() > 0
                            && cause.wf());
                        assert(f.wf());
                    }
                }
                f
            },
            MyCustomError::Other(s) => Fault::Opaque(s),
        }
    }

    /// The flattened string this unified fault shows on the wire; what the
    /// boundary serializes when an operation returns this type.
    pub fn message(self) -> (r: String)
        ensures
            self matches MyCustomError::File(p) ==> r@ == spec_render(Fault::Primitive(p)),
            self matches MyCustomError::BetterFile(p, path) ==> r@ == "error opening "@ + path@
                + ": "@ + spec_render(Fault::Primitive(p)),
            self matches MyCustomError::Other(s) ==> r@ == s@,
    {
        let f = self.to_fault();
        render(&f)
    }
}

/// Lossless known-source conversion: a known primitive fault carried through
/// the taxonomy renders with its kind and its detail preserved exactly, in
/// both wire forms.
pub proof fn lemma_known_source_lossless(p: PrimitiveFault)
    ensures
        spec_wire_kind(Fault::Primitive(p)) == kind_name(p.kind),
        spec_wire_message(Fault::Primitive(p)) == p.detail@,
        spec_render(Fault::Primitive(p)) == kind_name(p.kind) + ": "@ + p.detail@,
{
}

/// Opaque fallback: an unrecognized source renders using its captured
/// description verbatim — nothing is added, truncated or refused.
pub proof fn lemma_opaque_verbatim(s: String)
    ensures
        spec_render(Fault::Opaque(s)) == s@,
        spec_wire_message(Fault::Opaque(s)) == s@,
        spec_wire_kind(Fault::Opaque(s)) == kind_name(FaultKind::Aggregated),
{
}

} // verus!
