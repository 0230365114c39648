//! The generic owner/cell layer.
//!
//! An owner kind implements [`ValueCellOwner`]: it chooses a proxy type, a
//! value stored in every cell of its family, and a validation predicate
//! saying which proxies it accepts. The borrow operations are defined here
//! once, for every owner kind, and require that the owner accepts the
//! cell's proxy. A singleton owner kind validates trivially — its
//! uniqueness per scope already carries the exclusivity argument — while an
//! owner kind with per-instance identity can store that identity in the
//! proxy and compare it at borrow time.

use vstd::prelude::*;

verus! {

/// An owner kind: a proxy type stored in each cell of the family, a
/// validation predicate over proxies, and the means to produce and to check
/// a proxy. Borrow operations for cells of this family are granted exactly
/// for proxies the owner accepts.
pub trait ValueCellOwner: Sized {
    type Proxy;

    /// Which proxies this owner accepts.
    spec fn proxy_ok(self, proxy: Self::Proxy) -> bool;

    /// Decide at runtime whether this owner accepts `proxy`.
    fn validate_proxy(&self, proxy: &Self::Proxy) -> (r: bool)
        ensures
            r == self.proxy_ok(*proxy),
    ;

    /// Produce a proxy that this owner accepts, for storing in a new cell.
    fn make_proxy(&self) -> (r: Self::Proxy)
        ensures
            self.proxy_ok(r),
    ;
}

/// A storage cell of the family of the owner kind `O`: one value of type
/// `T`, together with the proxy that binds the cell to its family. The cell
/// carries no access state; its contents are reached only through the
/// borrow operations below.
pub struct ValueCell<O: ValueCellOwner, T> {
    proxy: O::Proxy,
    value: T,
}

impl<O: ValueCellOwner, T> ValueCell<O, T> {
    /// The value the cell holds.
    pub closed spec fn val(self) -> T {
        self.value
    }

    /// The proxy the cell was created with.
    pub closed spec fn proxy_spec(self) -> O::Proxy {
        self.proxy
    }

    /// Create a cell holding `value`, bound to `owner`'s family by a proxy
    /// that `owner` accepts.
    pub fn from_owner(owner: &O, value: T) -> (r: Self)
        ensures
            r.val() == value,
            owner.proxy_ok(r.proxy_spec()),
    {
        ValueCell { proxy: owner.make_proxy(), value }
    }
}

/// Borrow the contents of a cell read-only, through a shared reference to
/// an owner that accepts the cell's proxy.
pub fn ro<'a, O: ValueCellOwner, T>(owner: &'a O, cell: &'a ValueCell<O, T>) -> (r: &'a T)
    requires
        owner.proxy_ok(cell.proxy_spec()),
    ensures
        *r == cell.val(),
{
    &cell.value
}

/// Borrow the contents of one cell mutably, through an exclusive reference
/// to an owner that accepts the cell's proxy.
pub fn rw<'a, O: ValueCellOwner, T>(owner: &'a mut O, cell: &'a mut ValueCell<O, T>) -> (r:
    &'a mut T)
    requires
        old(owner).proxy_ok(old(cell).proxy_spec()),
    ensures
        *r == old(cell).val(),
        final(cell).val() == *final(r),
        final(cell).proxy_spec() == old(cell).proxy_spec(),
        *final(owner) == *old(owner),
{
    &mut cell.value
}

/// Borrow the contents of two distinct cells mutably at the same time. The
/// views are independent: each cell ends up holding whatever its own view
/// was mutated to.
pub fn rw2<'a, O: ValueCellOwner, T, U>(
    owner: &'a mut O,
    c1: &'a mut ValueCell<O, T>,
    c2: &'a mut ValueCell<O, U>,
) -> (r: (&'a mut T, &'a mut U))
    requires
        old(owner).proxy_ok(old(c1).proxy_spec()),
        old(owner).proxy_ok(old(c2).proxy_spec()),
    ensures
        *r.0 == old(c1).val(),
        *r.1 == old(c2).val(),
        final(c1).val() == *final(r.0),
        final(c2).val() == *final(r.1),
        final(c1).proxy_spec() == old(c1).proxy_spec(),
        final(c2).proxy_spec() == old(c2).proxy_spec(),
        *final(owner) == *old(owner),
{
    (&mut c1.value, &mut c2.value)
}

/// Borrow the contents of three pairwise-distinct cells mutably at the same
/// time.
pub fn rw3<'a, O: ValueCellOwner, T, U, V>(
    owner: &'a mut O,
    c1: &'a mut ValueCell<O, T>,
    c2: &'a mut ValueCell<O, U>,
    c3: &'a mut ValueCell<O, V>,
) -> (r: (&'a mut T, &'a mut U, &'a mut V))
    requires
        old(owner).proxy_ok(old(c1).proxy_spec()),
        old(owner).proxy_ok(old(c2).proxy_spec()),
        old(owner).proxy_ok(old(c3).proxy_spec()),
    ensures
        *r.0 == old(c1).val(),
        *r.1 == old(c2).val(),
        *r.2 == old(c3).val(),
        final(c1).val() == *final(r.0),
        final(c2).val() == *final(r.1),
        final(c3).val() == *final(r.2),
        final(c1).proxy_spec() == old(c1).proxy_spec(),
        final(c2).proxy_spec() == old(c2).proxy_spec(),
        final(c3).proxy_spec() == old(c3).proxy_spec(),
        *final(owner) == *old(owner),
{
    (&mut c1.value, &mut c2.value, &mut c3.value)
}

} // verus!
