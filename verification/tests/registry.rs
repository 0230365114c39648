use std::any::TypeId;

use qcell::ScopeRegistry;

struct MarkerP;
struct MarkerQ;

#[test]
fn registry_check_and_insert() {
    let mut reg = ScopeRegistry::new();
    let t = TypeId::of::<MarkerP>();
    assert!(!reg.contains(t));
    assert!(reg.try_acquire(t));
    assert!(reg.contains(t));
    assert!(!reg.try_acquire(t));
    reg.release(t);
    assert!(!reg.contains(t));
    assert!(reg.try_acquire(t));
}

#[test]
fn registry_distinct_identities() {
    let mut reg = ScopeRegistry::new();
    let tp = TypeId::of::<MarkerP>();
    let tq = TypeId::of::<MarkerQ>();
    assert!(reg.try_acquire(tp));
    assert!(reg.try_acquire(tq));
    assert!(reg.contains(tp));
    assert!(reg.contains(tq));
    reg.release(tp);
    assert!(!reg.contains(tp));
    assert!(reg.contains(tq));
}

#[test]
fn registry_release_absent_is_harmless() {
    let mut reg = ScopeRegistry::new();
    let t = TypeId::of::<MarkerP>();
    reg.release(t);
    assert!(reg.try_acquire(t));
}
