use std::cell::RefCell;

use library_interface::linux::{
    create_library_interface, DiagnosticOutcome, LibraryInterface, LookupOutcome,
};
use library_interface::{ErrorCause, LibraryHandle};

fn opened(raw: usize) -> LibraryInterface {
    match LibraryInterface::new("libm.so.6", |_name: &str| Ok(LibraryHandle::from_raw(raw))) {
        Ok(l) => l,
        Err(e) => panic!("unexpected failure: {}", e.to_string()),
    }
}

#[test]
fn open_hands_the_name_to_the_loader() {
    let seen = RefCell::new(String::new());
    let r = LibraryInterface::new("libm.so.6", |name: &str| {
        seen.borrow_mut().push_str(name);
        Ok(LibraryHandle::from_raw(0x40))
    });
    assert!(r.is_ok());
    assert_eq!(seen.borrow().as_str(), "libm.so.6");
    let l = r.ok().unwrap();
    assert!(l.is_open());
    assert_eq!(l.handle().raw(), 0x40);
}

#[test]
fn missing_library_is_named_and_has_no_cause() {
    let r = LibraryInterface::new("libnothing.so", |_name: &str| Ok(LibraryHandle::invalid()));
    let e = r.err().unwrap();
    assert_eq!(e.message(), "libnothing.so could not be found");
    assert!(e.message().contains("libnothing.so"));
    assert!(e.source().is_none());
}

#[test]
fn scenario_missing_path() {
    let r = create_library_interface("/path/does/not/exist.so", |_name: &str| {
        Ok(LibraryHandle::invalid())
    });
    let e = r.err().unwrap();
    assert!(e.message().contains("/path/does/not/exist.so"));
    assert!(e.source().is_none());
    assert_eq!(
        e.to_string(),
        "LibraryInterfaceCreationError: /path/does/not/exist.so could not be found: None"
    );
}

#[test]
fn binding_failure_on_open_keeps_its_cause() {
    let r = LibraryInterface::new("bad\0name", |_name: &str| {
        Err(ErrorCause::Binding(String::from("nul byte found in provided data at position: 3")))
    });
    let e = r.err().unwrap();
    assert_eq!(e.message(), "An unexpected error occured");
    match e.source() {
        Some(ErrorCause::Binding(text)) => {
            assert_eq!(text.as_str(), "nul byte found in provided data at position: 3")
        }
        other => panic!("unexpected cause: {:?}", other),
    }
    assert_eq!(
        e.to_string(),
        "LibraryInterfaceCreationError: An unexpected error occured: \
         Some(nul byte found in provided data at position: 3)"
    );
}

#[test]
fn from_open_outcome_takes_over_a_valid_handle() {
    let r = LibraryInterface::from_open_outcome("libz.so", Ok(LibraryHandle::from_raw(9)));
    assert_eq!(r.ok().unwrap().handle(), LibraryHandle::from_raw(9));
}

#[test]
fn found_symbol_resolves_to_its_address() {
    let l = opened(0x10);
    let r = l.get_function(
        "sqrt",
        || {},
        |h: LibraryHandle, name: &str| {
            assert_eq!(h.raw(), 0x10);
            assert_eq!(name, "sqrt");
            LookupOutcome::Address(0x7f00_1000)
        },
        || panic!("no diagnostic query after a non-null lookup"),
    );
    assert_eq!(r.ok().unwrap().address(), 0x7f00_1000);
}

#[test]
fn scenario_math_library() {
    let l = opened(0x10);
    let sqrt = l.get_function(
        "sqrt",
        || {},
        |_h: LibraryHandle, _name: &str| LookupOutcome::Address(0x5000),
        || DiagnosticOutcome::Clear,
    );
    assert_ne!(sqrt.ok().unwrap().address(), 0);
    let missing = l.get_function(
        "definitely_not_a_symbol_xyz",
        || {},
        |_h: LibraryHandle, _name: &str| LookupOutcome::Address(0),
        || {
            DiagnosticOutcome::Pending(String::from(
                "libm.so.6: undefined symbol: definitely_not_a_symbol_xyz",
            ))
        },
    );
    let e = missing.err().unwrap();
    assert_eq!(
        e.message(),
        "Failed to load symbol definitely_not_a_symbol_xyz: \
         libm.so.6: undefined symbol: definitely_not_a_symbol_xyz"
    );
    assert!(e.source().is_none());
}

#[test]
fn resolution_protocol_order_for_null_address() {
    let calls = RefCell::new(Vec::new());
    let l = opened(0x10);
    let r = l.get_function(
        "weak_symbol",
        || calls.borrow_mut().push("clear"),
        |_h: LibraryHandle, _name: &str| {
            calls.borrow_mut().push("lookup");
            LookupOutcome::Address(0)
        },
        || {
            calls.borrow_mut().push("query");
            DiagnosticOutcome::Clear
        },
    );
    assert!(r.is_ok());
    assert_eq!(*calls.borrow(), vec!["clear", "lookup", "query"]);
}

#[test]
fn resolution_protocol_skips_query_for_non_null_address() {
    let calls = RefCell::new(Vec::new());
    let l = opened(0x10);
    let r = l.get_function(
        "cos",
        || calls.borrow_mut().push("clear"),
        |_h: LibraryHandle, _name: &str| {
            calls.borrow_mut().push("lookup");
            LookupOutcome::Address(0x44)
        },
        || {
            calls.borrow_mut().push("query");
            DiagnosticOutcome::Clear
        },
    );
    assert!(r.is_ok());
    assert_eq!(*calls.borrow(), vec!["clear", "lookup"]);
}

#[test]
fn scenario_null_symbol_without_diagnostic() {
    let l = opened(0x10);
    let r = l.get_function(
        "null_valued_symbol",
        || {},
        |_h: LibraryHandle, _name: &str| LookupOutcome::Address(0),
        || DiagnosticOutcome::Clear,
    );
    assert_eq!(r.ok().unwrap().address(), 0);
}

#[test]
fn failed_lookup_call_keeps_its_cause() {
    let l = opened(0x10);
    let r = l.get_function(
        "bad\0symbol",
        || {},
        |_h: LibraryHandle, _name: &str| {
            LookupOutcome::Failed(ErrorCause::Binding(String::from("interior nul")))
        },
        || panic!("no diagnostic query after a failed lookup"),
    );
    let e = r.err().unwrap();
    assert_eq!(e.message(), "An unexpected error occured");
    assert!(matches!(e.source(), Some(ErrorCause::Binding(t)) if t.as_str() == "interior nul"));
    assert_eq!(
        e.to_string(),
        "LibraryFunctionLoadingError: An unexpected error occured: Some(interior nul)"
    );
}

#[test]
fn failed_diagnostic_query_keeps_its_cause() {
    let l = opened(0x10);
    let r = l.get_function(
        "sym",
        || {},
        |_h: LibraryHandle, _name: &str| LookupOutcome::Address(0),
        || DiagnosticOutcome::Failed(ErrorCause::Binding(String::from("invalid utf-8"))),
    );
    let e = r.err().unwrap();
    assert_eq!(e.message(), "An unexpected error occurred");
    assert!(matches!(e.source(), Some(ErrorCause::Binding(t)) if t.as_str() == "invalid utf-8"));
}

#[test]
fn resolve_null_lookup_decides_each_diagnostic() {
    let ok = LibraryInterface::resolve_null_lookup("s", DiagnosticOutcome::Clear);
    assert_eq!(ok.ok().unwrap().address(), 0);
    let pending =
        LibraryInterface::resolve_null_lookup("s", DiagnosticOutcome::Pending(String::from("x")));
    assert_eq!(pending.err().unwrap().message(), "Failed to load symbol s: x");
    let failed = LibraryInterface::resolve_null_lookup(
        "s",
        DiagnosticOutcome::Failed(ErrorCause::SystemCode(2)),
    );
    assert_eq!(failed.err().unwrap().message(), "An unexpected error occurred");
}

#[test]
fn same_symbol_twice_gives_same_address() {
    let l = opened(0x10);
    let first = l
        .get_function("sqrt", || {}, |_h: LibraryHandle, _n: &str| LookupOutcome::Address(0x900), || {
            DiagnosticOutcome::Clear
        })
        .ok()
        .unwrap();
    let second = l
        .get_function("sqrt", || {}, |_h: LibraryHandle, _n: &str| LookupOutcome::Address(0x900), || {
            DiagnosticOutcome::Clear
        })
        .ok()
        .unwrap();
    assert_eq!(first, second);
}

#[test]
fn release_hands_out_the_handle_once() {
    let mut l = opened(0x10);
    for _ in 0..3 {
        let r = l.get_function(
            "sqrt",
            || {},
            |_h: LibraryHandle, _n: &str| LookupOutcome::Address(0x900),
            || DiagnosticOutcome::Clear,
        );
        assert!(r.is_ok());
    }
    assert_eq!(l.release(), Some(LibraryHandle::from_raw(0x10)));
    assert!(!l.is_open());
    assert_eq!(l.release(), None);
    assert_eq!(l.handle(), LibraryHandle::invalid());
}

#[test]
fn release_without_resolutions() {
    let mut l = opened(0x22);
    assert_eq!(l.release(), Some(LibraryHandle::from_raw(0x22)));
    assert_eq!(l.release(), None);
}

#[test]
fn scenario_two_interfaces_for_one_library() {
    let mut first = opened(0x10);
    let second = opened(0x10);
    assert_eq!(first.release(), Some(LibraryHandle::from_raw(0x10)));
    assert!(second.is_open());
    let r = second.get_function(
        "sqrt",
        || {},
        |h: LibraryHandle, _n: &str| {
            assert!(h.is_valid());
            LookupOutcome::Address(0x5000)
        },
        || DiagnosticOutcome::Clear,
    );
    assert_eq!(r.ok().unwrap().address(), 0x5000);
}
