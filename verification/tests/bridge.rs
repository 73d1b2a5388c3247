use iron_oxide::handle::{Handle, NULL_REFERENCE};
use iron_oxide::runtime::{ObjectData, Runtime};

#[test]
fn wrap_and_release_decrements_once() {
    let mut rt = Runtime::new();
    let r = rt.allocate(ObjectData::Opaque);
    assert_eq!(rt.retain_count(r), 1);

    let h = rt.wrap_retaining(r);
    assert_eq!(rt.retain_count(r), 2);

    rt.release_handle(h);
    assert_eq!(rt.retain_count(r), 1);
    assert!(rt.live(r));
}

#[test]
fn release_of_last_retain_ends_the_object() {
    let mut rt = Runtime::new();
    let r = rt.allocate(ObjectData::Opaque);
    let h = Handle::wrap(r);
    rt.release_handle(h);
    assert_eq!(rt.retain_count(r), 0);
    assert!(!rt.live(r));
}

#[test]
fn optional_wrap_null_is_empty() {
    assert!(Handle::optional_wrap(NULL_REFERENCE).is_none());
}

#[test]
fn optional_wrap_valid_wraps_that_reference() {
    let h = Handle::optional_wrap(42).expect("non-null reference must wrap");
    assert_eq!(h.unwrap_reference(), 42);
}

#[test]
fn unwrap_reference_returns_the_wrapped_reference() {
    let h = Handle::wrap(7);
    assert_eq!(h.unwrap_reference(), 7);
}

#[test]
fn duplicate_takes_its_own_retain() {
    let mut rt = Runtime::new();
    let r = rt.allocate(ObjectData::Opaque);
    let h = Handle::wrap(r);
    let dup = rt.duplicate(&h);
    assert_eq!(dup.unwrap_reference(), r);
    assert_eq!(rt.retain_count(r), 2);

    rt.release_handle(dup);
    assert_eq!(rt.retain_count(r), 1);
    rt.release_handle(h);
    assert_eq!(rt.retain_count(r), 0);
}

#[test]
fn optional_wrap_retaining_null_leaves_ledger_untouched() {
    let mut rt = Runtime::new();
    let r = rt.allocate(ObjectData::Opaque);
    let none = rt.optional_wrap_retaining(NULL_REFERENCE);
    assert!(none.is_none());
    assert_eq!(rt.retain_count(r), 1);

    let some = rt.optional_wrap_retaining(r).expect("live reference must wrap");
    assert_eq!(some.unwrap_reference(), r);
    assert_eq!(rt.retain_count(r), 2);
}

#[test]
fn wrap_all_retains_every_entry() {
    let mut rt = Runtime::new();
    let a = rt.allocate(ObjectData::Opaque);
    let b = rt.allocate(ObjectData::Opaque);
    let c = rt.allocate(ObjectData::Opaque);
    let refs = vec![a, b, c];
    let handles = rt.wrap_all(&refs);
    assert_eq!(handles.len(), 3);
    for (h, r) in handles.iter().zip(refs.iter()) {
        assert_eq!(h.unwrap_reference(), *r);
        assert_eq!(rt.retain_count(*r), 2);
    }
}
