//! The boundary renderer: the one place a fault is turned into the wire form
//! delivered to the caller. Two wire forms exist — one flattened string, or a
//! structured record of kind, root message and ordered context frames — and a
//! deployment picks exactly one of them. Rendering is total, pure and
//! deterministic: its result is pinned to a spec function of the fault alone.

use crate::fault::{Fault, FaultKind, PrimitiveFault};
use vstd::prelude::*;
use vstd::string::StringExecFns;

verus! {

/// The stable name each kind shows on the wire.
pub open spec fn kind_name(k: FaultKind) -> Seq<char> {
    match k {
        FaultKind::NotFound => "NotFound"@,
        FaultKind::PermissionDenied => "PermissionDenied"@,
        FaultKind::Malformed => "Malformed"@,
        FaultKind::Aggregated => "Aggregated"@,
        FaultKind::Crashed => "Crashed"@,
        FaultKind::Other => "Other"@,
    }
}

/// Executable counterpart of [`kind_name`].
pub fn kind_label(k: FaultKind) -> (r: String)
    ensures
        r@ == kind_name(k),
{
    match k {
        FaultKind::NotFound => "NotFound".to_owned(),
        FaultKind::PermissionDenied => "PermissionDenied".to_owned(),
        FaultKind::Malformed => "Malformed".to_owned(),
        FaultKind::Aggregated => "Aggregated".to_owned(),
        FaultKind::Crashed => "Crashed".to_owned(),
        FaultKind::Other => "Other".to_owned(),
    }
}

/// The flattened string wire form: a leaf shows its kind and detail, a context
/// frame prefixes what it wraps, an opaque aggregate shows its captured
/// description verbatim.
pub open spec fn spec_render(f: Fault) -> Seq<char>
    decreases f,
{
    match f {
        Fault::Primitive(p) => kind_name(p.kind) + ": "@ + p.detail@,
        Fault::Context { context, cause } => context@ + ": "@ + spec_render(*cause),
        Fault::Opaque(s) => s@,
    }
}

/// The kind field of the structured wire form: the kind of the root of the
/// chain; an opaque root has only its `Aggregated` classification left.
pub open spec fn spec_wire_kind(f: Fault) -> Seq<char>
    decreases f,
{
    match f {
        Fault::Primitive(p) => kind_name(p.kind),
        Fault::Context { cause, .. } => spec_wire_kind(*cause),
        Fault::Opaque(_) => kind_name(FaultKind::Aggregated),
    }
}

/// The message field of the structured wire form: the root's own detail.
pub open spec fn spec_wire_message(f: Fault) -> Seq<char>
    decreases f,
{
    match f {
        Fault::Primitive(p) => p.detail@,
        Fault::Context { cause, .. } => spec_wire_message(*cause),
        Fault::Opaque(s) => s@,
    }
}

/// The ordered context frames of the structured wire form, outermost first.
pub open spec fn spec_frames(f: Fault) -> Seq<Seq<char>>
    decreases f,
{
    match f {
        Fault::Context { context, cause } => seq![context@] + spec_frames(*cause),
        _ => Seq::empty(),
    }
}

/// The views of a vector of context frames.
pub open spec fn frames_of(v: Seq<String>) -> Seq<Seq<char>> {
    v.map_values(|s: String| s@)
}

/// The structured wire form: no owned resources beyond its strings, built
/// only at render time and never mutated afterwards.
#[derive(Debug)]
pub struct WireError {
    pub kind: String,
    pub message: String,
    pub context: Vec<String>,
}

/// Renders a fault into the flattened string wire form.
pub fn render(f: &Fault) -> (r: String)
    ensures
        r@ == spec_render(*f),
    decreases *f,
{
    match f {
        Fault::Primitive(p) => kind_label(p.kind).concat(": ").concat(p.detail.as_str()),
        Fault::Context { context, cause } => {
            let inner = render(&**cause);
            context.clone().concat(": ").concat(inner.as_str())
        },
        Fault::Opaque(s) => s.clone(),
    }
}

/// Renders a fault into the structured wire form: the root's kind and
/// message, and every context frame in outer-to-inner order.
pub fn render_structured(f: &Fault) -> (w: WireError)
    ensures
        w.kind@ == spec_wire_kind(*f),
        w.message@ == spec_wire_message(*f),
        frames_of(w.context@) == spec_frames(*f),
{
    let mut frames: Vec<String> = Vec::new();
    let mut cur: &Fault = f;
    loop
        invariant
            frames_of(frames@) + spec_frames(*cur) == spec_frames(*f),
            spec_wire_kind(*cur) == spec_wire_kind(*f),
            spec_wire_message(*cur) == spec_wire_message(*f),
        decreases *cur,
    {
        match cur {
            Fault::Context { context, cause } => {
                let ghost before = frames@;
                frames.push(context.clone());
                proof {
                    assert(frames_of(frames@) =~= frames_of(before) + seq![context@]);
                    assert(frames_of(before) + spec_frames(*cur) =~= frames_of(frames@)
                        + spec_frames(**cause));
                }
                cur = &**cause;
            },
            Fault::Primitive(p) => {
                proof {
                    assert(frames_of(frames@) =~= spec_frames(*f));
                }
                return WireError {
                    kind: kind_label(p.kind),
                    message: p.detail.clone(),
                    context: frames,
                };
            },
            Fault::Opaque(s) => {
                proof {
                    assert(frames_of(frames@) =~= spec_frames(*f));
                }
                return WireError {
                    kind: kind_label(FaultKind::Aggregated),
                    message: s.clone(),
                    context: frames,
                };
            },
        }
    }
}

/// Totality: every well-formed fault renders to a non-empty wire string —
/// there is no fault value the boundary cannot report.
pub proof fn lemma_render_nonempty(f: Fault)
    requires
        f.wf(),
    ensures
        spec_render(f).len() > 0,
{
    reveal_strlit(": ");
}

/// Totality of the structured form: a well-formed fault always carries a
/// non-empty kind and a non-empty root message.
pub proof fn lemma_structured_nonempty(f: Fault)
    requires
        f.wf(),
    ensures
        spec_wire_kind(f).len() > 0,
        spec_wire_message(f).len() > 0,
    decreases f,
{
    reveal_strlit("NotFound");
    reveal_strlit("PermissionDenied");
    reveal_strlit("Malformed");
    reveal_strlit("Aggregated");
    reveal_strlit("Crashed");
    reveal_strlit("Other");
    if let Fault::Context { cause, .. } = f {
        lemma_structured_nonempty(*cause);
    }
}

/// Chain order preservation: wrapping context `a` and then context `b` around
/// a root fault renders the newest context outermost, in both wire forms, and
/// leaves the root's kind and message untouched.
pub proof fn lemma_chain_order(outer: Fault, inner: Fault, root: Fault, a: String, b: String)
    requires
        inner matches Fault::Context { context, cause } && context == a && *cause == root,
        outer matches Fault::Context { context, cause } && context == b && *cause == inner,
    ensures
        spec_render(outer) == b@ + ": "@ + (a@ + ": "@ + spec_render(root)),
        spec_frames(outer) == seq![b@, a@] + spec_frames(root),
        spec_wire_kind(outer) == spec_wire_kind(root),
        spec_wire_message(outer) == spec_wire_message(root),
{
    assert(spec_render(inner) == a@ + ": "@ + spec_render(root));
    assert(spec_render(outer) == b@ + ": "@ + (a@ + ": "@ + spec_render(root)));
    assert(spec_frames(inner) == seq![a@] + spec_frames(root));
    assert(spec_frames(outer) == seq![b@] + (seq![a@] + spec_frames(root)));
    assert(spec_frames(outer) =~= seq![b@, a@] + spec_frames(root));
    assert(spec_wire_kind(inner) == spec_wire_kind(root));
    assert(spec_wire_kind(outer) == spec_wire_kind(root));
    assert(spec_wire_message(inner) == spec_wire_message(root));
    assert(spec_wire_message(outer) == spec_wire_message(root));
}

/// Idempotent rendering: the wire string is a function of the fault alone, so
/// any two renderings of the same fault are identical.
pub proof fn lemma_render_deterministic(f: Fault, r1: String, r2: String)
    requires
        r1@ == spec_render(f),
        r2@ == spec_render(f),
    ensures
        r1@ == r2@,
{
}

} // verus!
