//! The operations around the core: classification of platform failures, the
//! unified taxonomy, configuration parsing through the real outside parser,
//! and the plain-`Result` walkthrough.

use fault_boundary::basics::{a_fn_that_errs, errors, handled_message, try_operator};
use fault_boundary::commands::{error_as_string, using_thiserror, using_thiserror_and_anyhow};
use fault_boundary::config::{classify_parse_error, load_config, parse_config};
use fault_boundary::fault::{Fault, FaultKind, IoClass, PrimitiveFault};
use fault_boundary::render::{render, render_structured};
use fault_boundary::unified::MyCustomError;

#[test]
fn io_classification_is_total() {
    let not_found = PrimitiveFault::from_io(IoClass::NotFound, "gone".to_string());
    assert_eq!(not_found.kind, FaultKind::NotFound);
    assert_eq!(not_found.detail, "gone");
    let denied = PrimitiveFault::from_io(IoClass::PermissionDenied, "locked".to_string());
    assert_eq!(denied.kind, FaultKind::PermissionDenied);
    let invalid = PrimitiveFault::from_io(IoClass::InvalidData, "garbled".to_string());
    assert_eq!(invalid.kind, FaultKind::Malformed);
    let unknown = PrimitiveFault::from_io(IoClass::Unrecognized, "odd".to_string());
    assert_eq!(unknown.kind, FaultKind::Other);
    let silent = PrimitiveFault::from_io(IoClass::NotFound, String::new());
    assert_eq!(silent.detail, "input/output error");
}

#[test]
fn lossless_permission_denied_conversion() {
    let p = PrimitiveFault::new(FaultKind::PermissionDenied, "detail kept intact".to_string());
    let unified = MyCustomError::from_primitive(p);
    let f = unified.to_fault();
    let w = render_structured(&f);
    assert_eq!(w.kind, "PermissionDenied");
    assert_eq!(w.message, "detail kept intact");
    assert_eq!(render(&f), "PermissionDenied: detail kept intact");
}

#[test]
fn described_source_names_the_path() {
    let p = PrimitiveFault::new(FaultKind::NotFound, "no such file".to_string());
    let unified = MyCustomError::described(p, "some/path/file.txt".to_string());
    assert_eq!(
        unified.message(),
        "error opening some/path/file.txt: NotFound: no such file"
    );
}

#[test]
fn opaque_fallback_renders_verbatim() {
    let description = "upstream failed in some way nobody anticipated".to_string();
    let unified = MyCustomError::from_opaque(description.clone());
    let f = unified.to_fault();
    assert_eq!(render(&f), description);
    let w = render_structured(&f);
    assert_eq!(w.kind, "Aggregated");
    assert_eq!(w.message, description);
}

#[test]
fn parse_config_accepts_well_formed_maps() {
    let parsed = parse_config("{\"retries\": 3, \"name\": \"svc\"}");
    match parsed {
        Ok(v) => {
            assert_eq!(v.get("retries").and_then(|x| x.as_i64()), Some(3));
            assert_eq!(v.get("name").and_then(|x| x.as_str()), Some("svc"));
        }
        Err(_) => unreachable!(),
    }
}

#[test]
fn parse_config_rejects_non_map_documents() {
    match parse_config("[1, 2, 3]") {
        Ok(_) => unreachable!(),
        Err(p) => {
            assert_eq!(p.kind, FaultKind::Malformed);
            assert!(!p.detail.is_empty());
        }
    }
}

#[test]
fn parse_config_classifies_rejections() {
    let parsed = parse_config("this is not a document");
    match parsed {
        Ok(_) => unreachable!(),
        Err(p) => {
            assert_eq!(p.kind, FaultKind::Malformed);
            assert!(!p.detail.is_empty());
        }
    }
}

#[test]
fn classify_parse_error_never_silent() {
    let kept = classify_parse_error("expected value at line 1".to_string());
    assert_eq!(kept.kind, FaultKind::Malformed);
    assert_eq!(kept.detail, "expected value at line 1");
    let replaced = classify_parse_error(String::new());
    assert_eq!(replaced.detail, "malformed input");
}

#[test]
fn load_config_carries_read_faults_losslessly() {
    let read_fault = PrimitiveFault::from_io(IoClass::PermissionDenied, "denied".to_string());
    let r = load_config(Err(read_fault));
    match r {
        Err(MyCustomError::File(p)) => {
            assert_eq!(p.kind, FaultKind::PermissionDenied);
            assert_eq!(p.detail, "denied");
        }
        _ => unreachable!(),
    }
}

#[test]
fn load_config_parses_the_text_it_is_handed() {
    assert!(load_config(Ok("{\"retries\": 3}".to_string())).is_ok());
    match load_config(Ok("{broken".to_string())) {
        Err(MyCustomError::File(p)) => assert_eq!(p.kind, FaultKind::Malformed),
        _ => unreachable!(),
    }
    match load_config(Ok("[1, 2, 3]".to_string())) {
        Err(MyCustomError::File(p)) => assert_eq!(p.kind, FaultKind::Malformed),
        _ => unreachable!(),
    }
}

#[test]
fn error_as_string_passes_content_and_wraps_faults() {
    let ok = error_as_string("reading file".to_string(), Ok("file body".to_string()));
    assert_eq!(ok, Ok("file body".to_string()));
    let p = PrimitiveFault::from_io(IoClass::NotFound, "no such file".to_string());
    let err = error_as_string("reading file".to_string(), Err(p));
    assert_eq!(err, Err("reading file: NotFound: no such file".to_string()));
}

#[test]
fn empty_details_are_never_reported_silently() {
    let leaf = PrimitiveFault::new(FaultKind::Other, String::new());
    assert_eq!(leaf.detail, "unspecified failure");
    let named = PrimitiveFault::new(FaultKind::Other, "lost carrier".to_string());
    assert_eq!(named.detail, "lost carrier");
    match MyCustomError::from_opaque(String::new()) {
        MyCustomError::Other(s) => assert_eq!(s, "unspecified failure"),
        _ => unreachable!(),
    }
}

#[test]
fn using_thiserror_converts_automatically() {
    assert!(using_thiserror(Ok(())).is_ok());
    let p = PrimitiveFault::from_io(IoClass::NotFound, "no such file".to_string());
    match using_thiserror(Err(p)) {
        Err(e) => assert_eq!(e.message(), "NotFound: no such file"),
        Ok(_) => unreachable!(),
    }
}

#[test]
fn using_thiserror_and_anyhow_reports_the_opaque_arm() {
    match using_thiserror_and_anyhow() {
        Err(MyCustomError::Other(s)) => assert_eq!(s, "Whoah"),
        _ => unreachable!(),
    }
}

#[test]
fn walkthrough_handles_or_propagates() {
    assert_eq!(a_fn_that_errs(), Err("to err is human".to_string()));
    assert_eq!(try_operator(), Err("to err is human".to_string()));
    assert_eq!(handled_message(&Ok(())), "all is good");
    assert_eq!(
        handled_message(&Err("to err is human".to_string())),
        "handling the error: to err is human"
    );
    errors();
}

#[test]
fn wrapped_fault_still_counts_its_root() {
    let p = PrimitiveFault::new(FaultKind::Malformed, "bad byte".to_string());
    let f = fault_boundary::fault::wrap("decoding record".to_string(), Fault::Primitive(p));
    let w = render_structured(&f);
    assert_eq!(w.kind, "Malformed");
    assert_eq!(w.context, vec!["decoding record".to_string()]);
}
