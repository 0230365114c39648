use qcell::ScopeRegistry;
use qcell::TLCell;
use qcell::ThreadLocalSingletonOwner;
use qcell::ValueCellOwner;

struct MarkJ;
struct MarkK;
struct MarkL;
struct MarkM;
struct MarkN;
struct MarkO;

#[test]
fn tl_second_owner_refused_until_release() {
    let mut reg = ScopeRegistry::new();
    let owner1 = ThreadLocalSingletonOwner::<MarkJ>::new(&mut reg).unwrap();
    assert!(ThreadLocalSingletonOwner::<MarkJ>::new(&mut reg).is_none());
    owner1.release(&mut reg);
    let _owner2 = ThreadLocalSingletonOwner::<MarkJ>::new(&mut reg).unwrap();
}

#[test]
fn tl_distinct_markers_coexist() {
    let mut reg = ScopeRegistry::new();
    let _owner1 = ThreadLocalSingletonOwner::<MarkK>::new(&mut reg).unwrap();
    let _owner2 = ThreadLocalSingletonOwner::<MarkL>::new(&mut reg).unwrap();
}

#[test]
fn tl_same_marker_in_two_scopes() {
    let mut reg1 = ScopeRegistry::new();
    let mut reg2 = ScopeRegistry::new();
    let _owner1 = ThreadLocalSingletonOwner::<MarkK>::new(&mut reg1).unwrap();
    let _owner2 = ThreadLocalSingletonOwner::<MarkK>::new(&mut reg2).unwrap();
}

#[test]
fn tl_ro_and_rw() {
    let mut reg = ScopeRegistry::new();
    let mut owner = ThreadLocalSingletonOwner::<MarkM>::new(&mut reg).unwrap();
    let mut c1 = TLCell::<MarkM, u32>::new(100u32);
    let mut c2 = owner.cell(200u32);
    (*owner.rw(&mut c1)) += 1;
    (*owner.rw(&mut c2)) += 2;
    let c1ref = owner.ro(&c1);
    let c2ref = owner.ro(&c2);
    assert_eq!(303, *c1ref + *c2ref);
}

#[test]
fn tl_rw2_and_rw3() {
    let mut reg = ScopeRegistry::new();
    let mut owner = ThreadLocalSingletonOwner::<MarkN>::new(&mut reg).unwrap();
    let mut c1 = TLCell::<MarkN, u32>::new(1u32);
    let mut c2 = TLCell::<MarkN, u32>::new(2u32);
    let mut c3 = TLCell::<MarkN, u32>::new(3u32);
    let (v1, v2) = owner.rw2(&mut c1, &mut c2);
    *v1 += 10;
    *v2 += 20;
    let (w1, w2, w3) = owner.rw3(&mut c1, &mut c2, &mut c3);
    *w1 += 100;
    *w2 += 200;
    *w3 += 300;
    assert_eq!(111, *owner.ro(&c1));
    assert_eq!(222, *owner.ro(&c2));
    assert_eq!(303, *owner.ro(&c3));
}

#[test]
fn tl_proxy_is_accepted() {
    let mut reg = ScopeRegistry::new();
    let owner = ThreadLocalSingletonOwner::<MarkO>::new(&mut reg).unwrap();
    let proxy = owner.make_proxy();
    assert!(owner.validate_proxy(&proxy));
}
