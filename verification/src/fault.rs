//! The fault data model: a closed set of failure kinds, the leaf fault a
//! failing primitive operation constructs, and the linear chain a fault grows
//! as each call layer adds the context it was attempting.

use vstd::prelude::*;

verus! {

/// Closed set of caller-facing failure categories. Every primitive failure
/// maps to exactly one kind; whatever fits no named kind falls into `Other`.
#[derive(Clone, Copy, Debug, PartialEq, Eq, Structural)]
pub enum FaultKind {
    NotFound,
    PermissionDenied,
    Malformed,
    Aggregated,
    Crashed,
    Other,
}

/// The platform classes of an input/output failure that the taxonomy tells
/// apart. The surrounding program converts the platform's own error kind into
/// this type, one variant for one; everything it does not recognize becomes
/// `Unrecognized`.
#[derive(Clone, Copy, Debug, PartialEq, Eq, Structural)]
pub enum IoClass {
    NotFound,
    PermissionDenied,
    InvalidData,
    Unrecognized,
}

/// How each platform class lands in the taxonomy; total by construction.
pub open spec fn spec_classify_io(class: IoClass) -> FaultKind {
    match class {
        IoClass::NotFound => FaultKind::NotFound,
        IoClass::PermissionDenied => FaultKind::PermissionDenied,
        IoClass::InvalidData => FaultKind::Malformed,
        IoClass::Unrecognized => FaultKind::Other,
    }
}

/// Leaf representation of a single low-level failure: a machine-readable kind
/// and a human-readable detail. Immutable once constructed.
#[derive(Debug)]
pub struct PrimitiveFault {
    pub kind: FaultKind,
    pub detail: String,
}

impl PrimitiveFault {
    /// A primitive fault never swallows its cause: the detail is non-empty.
    pub open spec fn wf(self) -> bool {
        self.detail@.len() > 0
    }

    /// Direct construction at the point a low-level operation fails; an
    /// empty detail is replaced so that no failure is reported silently.
    pub fn new(kind: FaultKind, detail: String) -> (r: Self)
        ensures
            r.kind == kind,
            r.detail@ == if detail@.len() > 0 {
                detail@
            } else {
                "unspecified failure"@
            },
            r.wf(),
    {
        proof {
            reveal_strlit("unspecified failure");
        }
        if detail.as_str().is_empty() {
            PrimitiveFault { kind, detail: "unspecified failure".to_owned() }
        } else {
            PrimitiveFault { kind, detail }
        }
    }

    /// Classifies a platform input/output failure: the class picks the kind,
    /// the platform's own description becomes the detail, and an empty
    /// description is replaced so that no failure is reported silently.
    pub fn from_io(class: IoClass, detail: String) -> (r: Self)
        ensures
            r.kind == spec_classify_io(class),
            r.detail@ == if detail@.len() > 0 {
                detail@
            } else {
                "input/output error"@
            },
            r.wf(),
    {
        proof {
            reveal_strlit("input/output error");
        }
        let kind = match class {
            IoClass::NotFound => FaultKind::NotFound,
            IoClass::PermissionDenied => FaultKind::PermissionDenied,
            IoClass::InvalidData => FaultKind::Malformed,
            IoClass::Unrecognized => FaultKind::Other,
        };
        if detail.as_str().is_empty() {
            PrimitiveFault { kind, detail: "input/output error".to_owned() }
        } else {
            PrimitiveFault { kind, detail }
        }
    }
}

/// A fault as it travels up the call stack: a leaf, a context frame wrapped
/// around an owned cause, or an opaque aggregate of which only a rendered
/// description survives. Chains are strictly linear and finite.
#[derive(Debug)]
pub enum Fault {
    Primitive(PrimitiveFault),
    Context { context: String, cause: Box<Fault> },
    Opaque(String),
}

impl Fault {
    /// Well-formedness: every detail, context and opaque description along the
    /// chain is non-empty.
    pub open spec fn wf(self) -> bool
        decreases self,
    {
        match self {
            Fault::Primitive(p) => p.wf(),
            Fault::Context { context, cause } => context@.len() > 0 && cause.wf(),
            Fault::Opaque(s) => s@.len() > 0,
        }
    }
}

/// Wraps one more context frame around a fault: total, never fails, and
/// order-preserving — the newest context sits outermost, the cause is owned
/// exclusively by the new frame.
pub fn wrap(ctx: String, fault: Fault) -> (r: Fault)
    ensures
        r matches Fault::Context { context, cause } && context == ctx && *cause == fault,
        ctx@.len() > 0 && fault.wf() ==> r.wf(),
{
    Fault::Context { context: ctx, cause: Box::new(fault) }
}

} // verus!
