//! Configuration parsing: the one operation of the library whose logic runs
//! through an outside parser. A configuration is a JSON map document — any
//! other shape is rejected — and its values stay opaque; what the boundary
//! core is responsible for — when parsing is reported as a fault and what
//! that fault looks like — is verified here.

use crate::fault::{FaultKind, PrimitiveFault};
use crate::unified::MyCustomError;
use vstd::prelude::*;

verus! {

/// serde_json's value type, declared so the parsed configuration's entries
/// can be carried through signatures; the library never looks inside one.
#[verifier::external_type_specification]
#[verifier::external_body]
pub struct ExValue(serde_json::Value);

/// serde_json's map type, declared so the parsed configuration document can
/// be carried through signatures; the library never looks inside one.
#[verifier::external_type_specification]
#[verifier::external_body]
#[verifier::reject_recursive_types(K)]
#[verifier::reject_recursive_types(V)]
pub struct ExMap<K, V>(serde_json::Map<K, V>);

/// What serde_json's parser reports for a text when the target is a map
/// document: nothing when it accepts, its description of the rejection
/// otherwise; a function of the text alone.
pub uninterp spec fn json_parse_err(s: Seq<char>) -> Option<Seq<char>>;

/// Relies on serde_json::from_str, deserializing into serde_json::Map: it
/// accepts exactly the texts that are well-formed JSON map documents,
/// deterministically in the text, and on rejection returns the parser's own
/// description of the failure.
#[verifier::external_body]
fn parse_json_map(s: &str) -> (r: Result<serde_json::Map<String, serde_json::Value>, String>)
    ensures
        r is Ok <==> json_parse_err(s@) is None,
        r matches Err(m) ==> json_parse_err(s@) matches Some(t) && m@ == t,
{
    match serde_json::from_str::<serde_json::Map<String, serde_json::Value>>(s) {
        Ok(v) => Ok(v),
        Err(e) => Err(e.to_string()),
    }
}

/// Builds the `Malformed` primitive fault a rejected text is reported as:
/// the parser's own description becomes the detail, and an empty description
/// is replaced so that the failure is never reported silently.
pub fn classify_parse_error(msg: String) -> (r: PrimitiveFault)
    ensures
        r.kind == FaultKind::Malformed,
        r.detail@ == if msg@.len() > 0 {
            msg@
        } else {
            "malformed input"@
        },
        r.wf(),
{
    proof {
        reveal_strlit("malformed input");
    }
    if msg.as_str().is_empty() {
        PrimitiveFault { kind: FaultKind::Malformed, detail: "malformed input".to_owned() }
    } else {
        PrimitiveFault { kind: FaultKind::Malformed, detail: msg }
    }
}

/// Parses a configuration text. Succeeds exactly on the texts the parser
/// accepts as a map document; every rejection is classified as a well-formed
/// `Malformed` fault carrying the parser's description.
pub fn parse_config(text: &str) -> (r: Result<
    serde_json::Map<String, serde_json::Value>,
    PrimitiveFault,
>)
    ensures
        r is Ok <==> json_parse_err(text@) is None,
        r matches Err(p) ==> p.kind == FaultKind::Malformed && p.wf() && (json_parse_err(text@)
            matches Some(t) && p.detail@ == if t.len() > 0 {
            t
        } else {
            "malformed input"@
        }),
{
    match parse_json_map(text) {
        Ok(v) => Ok(v),
        Err(msg) => Err(classify_parse_error(msg)),
    }
}

/// The compute part of loading a configuration: the text read from the
/// resource (or the read failure, already classified) comes in, and the
/// parsed map document or a unified fault goes out. A read failure is carried
/// losslessly; a parse rejection is classified as `Malformed` with the
/// parser's description preserved.
pub fn load_config(read: Result<String, PrimitiveFault>) -> (r: Result<
    serde_json::Map<String, serde_json::Value>,
    MyCustomError,
>)
    ensures
        read matches Err(p) ==> r matches Err(e) && e == MyCustomError::File(p),
        read matches Ok(text) ==> (r is Ok <==> json_parse_err(text@) is None),
        read matches Ok(text) ==> (r matches Err(e) ==> e matches MyCustomError::File(p) && p.kind
            == FaultKind::Malformed && p.wf() && (json_parse_err(text@) matches Some(t)
            && p.detail@ == if t.len() > 0 {
            t
        } else {
            "malformed input"@
        })),
{
    match read {
        Ok(text) => match parse_config(text.as_str()) {
            Ok(v) => Ok(v),
            Err(p) => Err(MyCustomError::from_primitive(p)),
        },
        Err(p) => Err(MyCustomError::from_primitive(p)),
    }
}

} // verus!
