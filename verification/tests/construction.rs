use iron_oxide::diagnostic::{classify_construction, ConstructionOutcome};
use iron_oxide::handle::Handle;
use iron_oxide::library::contains_name;
use iron_oxide::runtime::{ObjectData, Runtime};

fn table(names: &[&str]) -> ObjectData {
    ObjectData::FunctionTable { names: names.iter().map(|n| n.to_string()).collect() }
}

#[test]
fn construction_pure_success() {
    let mut rt = Runtime::new();
    let obj = rt.allocate(ObjectData::Opaque);
    match classify_construction(obj, 0) {
        ConstructionOutcome::Success { object } => {
            assert_eq!(object.unwrap_reference(), obj);
        }
        _ => panic!("a non-null object with a null diagnostic is pure success"),
    }
}

#[test]
fn construction_success_with_warning() {
    let mut rt = Runtime::new();
    let obj = rt.allocate(ObjectData::Opaque);
    let diag = rt.allocate(ObjectData::Opaque);
    match classify_construction(obj, diag) {
        ConstructionOutcome::SuccessWithDiagnostic { object, diagnostic } => {
            assert_eq!(object.unwrap_reference(), obj);
            assert_eq!(diagnostic.unwrap_reference(), diag);
        }
        _ => panic!("object and diagnostic together are success-with-warning"),
    }
}

#[test]
fn construction_hard_failure() {
    let mut rt = Runtime::new();
    let diag = rt.allocate(ObjectData::Opaque);
    match classify_construction(0, diag) {
        ConstructionOutcome::Failure { diagnostic } => {
            assert_eq!(diagnostic.unwrap_reference(), diag);
        }
        _ => panic!("a null object with a diagnostic is hard failure"),
    }
}

#[test]
fn strict_policy_releases_the_warned_object() {
    let mut rt = Runtime::new();
    let obj = rt.allocate(ObjectData::Opaque);
    let diag = rt.allocate(ObjectData::Opaque);
    let outcome = classify_construction(obj, diag);
    let result = rt.strict_construction_result(outcome);
    let err = result.err().expect("strict policy treats a diagnostic as failure");
    assert_eq!(err.unwrap_reference(), diag);
    assert_eq!(rt.retain_count(obj), 0);
    assert_eq!(rt.retain_count(diag), 1);
}

#[test]
fn strict_policy_passes_pure_success_through() {
    let mut rt = Runtime::new();
    let obj = rt.allocate(ObjectData::Opaque);
    let outcome = classify_construction(obj, 0);
    let result = rt.strict_construction_result(outcome);
    let ok = result.ok().expect("no diagnostic means success");
    assert_eq!(ok.unwrap_reference(), obj);
    assert_eq!(rt.retain_count(obj), 1);
}

#[test]
fn lookup_present_name_is_populated() {
    let mut rt = Runtime::new();
    let lib_ref = rt.allocate(table(&["vertex_main", "fragment_main", "kernel_sum"]));
    let lib = Handle::wrap(lib_ref);
    let name = "fragment_main".to_string();
    let found = rt.new_function_with_name(&lib, &name);
    let f = found.expect("a name the library exports must be found");
    assert!(rt.live(f.unwrap_reference()));
    assert_eq!(rt.retain_count(f.unwrap_reference()), 1);
}

#[test]
fn lookup_absent_name_is_empty() {
    let mut rt = Runtime::new();
    let lib_ref = rt.allocate(table(&["vertex_main", "fragment_main"]));
    let lib = Handle::wrap(lib_ref);
    let name = "missing_main".to_string();
    assert!(rt.new_function_with_name(&lib, &name).is_none());
}

#[test]
fn lookup_in_empty_table_is_empty() {
    let mut rt = Runtime::new();
    let lib_ref = rt.allocate(table(&[]));
    let lib = Handle::wrap(lib_ref);
    let name = "anything".to_string();
    assert!(rt.new_function_with_name(&lib, &name).is_none());
}

#[test]
fn function_names_come_back_name_for_name() {
    let mut rt = Runtime::new();
    let lib_ref = rt.allocate(table(&["alpha", "beta"]));
    let lib = Handle::wrap(lib_ref);
    let names = rt.get_function_names(&lib);
    assert_eq!(names, vec!["alpha".to_string(), "beta".to_string()]);
}

#[test]
fn contains_name_matches_membership() {
    let names = vec!["one".to_string(), "two".to_string()];
    assert!(contains_name(&names, &"two".to_string()));
    assert!(!contains_name(&names, &"three".to_string()));
}
