use qcell::ScopeRegistry;
use qcell::TCell;
use qcell::TCellOwner;

struct MarkerA;
struct MarkerB;
struct MarkerC;
struct MarkerD;
struct MarkerE;
struct MarkerF;
struct MarkerG;
struct MarkerH;
struct MarkerI;

#[test]
fn tcell_singleton_2() {
    let mut reg = ScopeRegistry::new();
    let owner1 = TCellOwner::<MarkerA>::new(&mut reg).unwrap();
    owner1.release(&mut reg);
    let _owner2 = TCellOwner::<MarkerA>::new(&mut reg).unwrap();
}

#[test]
fn tcell_singleton_3() {
    let mut reg = ScopeRegistry::new();
    let _owner1 = TCellOwner::<MarkerB>::new(&mut reg).unwrap();
    let _owner2 = TCellOwner::<MarkerC>::new(&mut reg).unwrap();
}

#[test]
fn tcell() {
    let mut reg = ScopeRegistry::new();
    let mut owner = TCellOwner::<MarkerD>::new(&mut reg).unwrap();
    let mut c1 = TCell::<MarkerD, u32>::new(100u32);
    let mut c2 = owner.cell(200u32);
    (*owner.rw(&mut c1)) += 1;
    (*owner.rw(&mut c2)) += 2;
    let c1ref = owner.ro(&c1);
    let c2ref = owner.ro(&c2);
    let total = *c1ref + *c2ref;
    assert_eq!(total, 303);
}

#[test]
fn second_owner_same_marker_refused() {
    let mut reg = ScopeRegistry::new();
    let _owner1 = TCellOwner::<MarkerE>::new(&mut reg).unwrap();
    assert!(TCellOwner::<MarkerE>::new(&mut reg).is_none());
}

#[test]
fn same_marker_in_two_scopes() {
    let mut reg1 = ScopeRegistry::new();
    let mut reg2 = ScopeRegistry::new();
    let _owner1 = TCellOwner::<MarkerF>::new(&mut reg1).unwrap();
    let _owner2 = TCellOwner::<MarkerF>::new(&mut reg2).unwrap();
}

#[test]
fn many_shared_views() {
    let mut reg = ScopeRegistry::new();
    let owner = TCellOwner::<MarkerG>::new(&mut reg).unwrap();
    let c1 = TCell::<MarkerG, u32>::new(100u32);
    let c2 = TCell::<MarkerG, u32>::new(200u32);
    let c1ref = owner.ro(&c1);
    let c2ref = owner.ro(&c2);
    let c1ref2 = owner.ro(&c1);
    let c2ref2 = owner.ro(&c2);
    assert_eq!(600, *c1ref + *c2ref + *c1ref2 + *c2ref2);
}

#[test]
fn rw2_distinct_cells() {
    let mut reg = ScopeRegistry::new();
    let mut owner = TCellOwner::<MarkerH>::new(&mut reg).unwrap();
    let mut c1 = TCell::<MarkerH, u32>::new(100u32);
    let mut c2 = TCell::<MarkerH, u32>::new(200u32);
    let (c1mutref, c2mutref) = owner.rw2(&mut c1, &mut c2);
    *c1mutref += 1;
    *c2mutref += 2;
    assert_eq!(303, owner.ro(&c1) + owner.ro(&c2));
}

#[test]
fn rw3_distinct_cells() {
    let mut reg = ScopeRegistry::new();
    let mut owner = TCellOwner::<MarkerH>::new(&mut reg).unwrap();
    let mut c1 = TCell::<MarkerH, u32>::new(1u32);
    let mut c2 = TCell::<MarkerH, u32>::new(2u32);
    let mut c3 = TCell::<MarkerH, u32>::new(3u32);
    let (v1, v2, v3) = owner.rw3(&mut c1, &mut c2, &mut c3);
    *v1 += 10;
    *v2 += 20;
    *v3 += 30;
    assert_eq!(11, *owner.ro(&c1));
    assert_eq!(22, *owner.ro(&c2));
    assert_eq!(33, *owner.ro(&c3));
}

#[test]
fn cell_handed_to_new_scope() {
    // The supported cross-thread pattern, played out sequentially: the cell
    // moves on, and a fresh owner in the next scope continues from the value
    // the previous scope left behind.
    let mut reg1 = ScopeRegistry::new();
    let mut cell = TCell::<MarkerI, i32>::new(100);
    let mut owner1 = TCellOwner::<MarkerI>::new(&mut reg1).unwrap();
    *owner1.rw(&mut cell) += 1;
    assert_eq!(*owner1.ro(&cell), 101);
    let mut reg2 = ScopeRegistry::new();
    let mut owner2 = TCellOwner::<MarkerI>::new(&mut reg2).unwrap();
    *owner2.rw(&mut cell) += 1;
    assert_eq!(*owner2.ro(&cell), 102);
}
