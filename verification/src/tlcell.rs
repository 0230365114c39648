//! The thread-scoped singleton owner kind.
//!
//! [`ThreadLocalSingletonOwner<Mark>`] is an owner kind for the generic
//! layer in [`crate::valuecell`]: its proxy carries no data, and validation
//! is trivially true, because the owner's singleton invariant — at most one
//! live owner per marker per scope, enforced through a [`ScopeRegistry`] —
//! already guarantees that borrows through one owner cannot conflict.
//! [`TLCell`] is the cell type of this family.

use core::marker::PhantomData;
use std::rc::Rc;
use vstd::prelude::*;

use crate::ident::type_id_of;
use crate::registry::ScopeRegistry;
use crate::valuecell::ValueCell;
use crate::valuecell::ValueCellOwner;

verus! {

/// Owner of the cells tagged with marker type `Mark`, at most one live per
/// marker per scope. Like [`crate::TCellOwner`], it is bound to the scope
/// that registered it: neither cloneable nor sendable to another thread.
pub struct ThreadLocalSingletonOwner<Mark: 'static> {
    // Rc makes the owner neither Send nor Sync: it must stay in its scope.
    mark: PhantomData<Rc<Mark>>,
    id: core::any::TypeId,
}

/// The proxy stored in each cell of a [`ThreadLocalSingletonOwner`] family.
/// It carries no data: a singleton owner accepts every proxy of its marker,
/// its uniqueness per scope being the whole validation argument.
pub struct ThreadLocalSingletonProxy<Mark: 'static> {
    mark: PhantomData<Mark>,
}

/// Cell accessed through the thread-scoped singleton owner of the same
/// marker type.
pub type TLCell<Mark, T> = ValueCell<ThreadLocalSingletonOwner<Mark>, T>;

impl<Mark: 'static> ValueCellOwner for ThreadLocalSingletonOwner<Mark> {
    type Proxy = ThreadLocalSingletonProxy<Mark>;

    open spec fn proxy_ok(self, proxy: Self::Proxy) -> bool {
        true
    }

    fn validate_proxy(&self, proxy: &Self::Proxy) -> (r: bool) {
        true
    }

    fn make_proxy(&self) -> (r: Self::Proxy) {
        ThreadLocalSingletonProxy { mark: PhantomData }
    }
}

impl<Mark: 'static> ThreadLocalSingletonOwner<Mark> {
    /// The marker identity this owner registered on construction.
    pub closed spec fn marker_id(self) -> core::any::TypeId {
        self.id
    }

    /// Create the owner for marker type `Mark` in the scope of `reg`.
    /// Returns `None`, leaving the scope unchanged, while another owner for
    /// `Mark` is live in that scope.
    pub fn new(reg: &mut ScopeRegistry) -> (r: Option<Self>)
        ensures
            match r {
                Some(owner) => !old(reg)@.contains(owner.marker_id()) && final(reg)@ == old(
                    reg,
                )@.insert(owner.marker_id()),
                None => final(reg)@ == old(reg)@,
            },
    {
        let t = type_id_of::<Mark>();
        if reg.try_acquire(t) {
            Some(ThreadLocalSingletonOwner { mark: PhantomData, id: t })
        } else {
            None
        }
    }

    /// Destroy the owner, unregistering its marker identity from the scope
    /// of `reg`, so that a new owner for `Mark` may be created there later.
    pub fn release(self, reg: &mut ScopeRegistry)
        ensures
            final(reg)@ == old(reg)@.remove(self.marker_id()),
    {
        reg.release(self.id);
    }

    /// Create a new cell of this owner's family, holding `value`. See also
    /// [`TLCell::new`], which needs no owner.
    pub fn cell<T>(&self, value: T) -> (r: TLCell<Mark, T>)
        ensures
            r.val() == value,
    {
        ValueCell::from_owner(self, value)
    }

    /// Borrow the contents of a cell read-only. Needs only a shared
    /// reference to the owner, so any number of such borrows, of the same or
    /// of different cells, may be live at the same time.
    pub fn ro<'a, T>(&'a self, cell: &'a TLCell<Mark, T>) -> (r: &'a T)
        ensures
            *r == cell.val(),
    {
        crate::valuecell::ro(self, cell)
    }

    /// Borrow the contents of one cell mutably. Needs an exclusive reference
    /// to the owner, so no other borrow through this owner can be live at
    /// the same time.
    pub fn rw<'a, T>(&'a mut self, cell: &'a mut TLCell<Mark, T>) -> (r: &'a mut T)
        ensures
            *r == old(cell).val(),
            final(cell).val() == *final(r),
            *final(self) == *old(self),
    {
        crate::valuecell::rw(self, cell)
    }

    /// Borrow the contents of two distinct cells mutably at the same time.
    /// The views are independent; passing the same cell twice is a
    /// compile-time error, since each cell is taken by exclusive reference.
    pub fn rw2<'a, T, U>(
        &'a mut self,
        c1: &'a mut TLCell<Mark, T>,
        c2: &'a mut TLCell<Mark, U>,
    ) -> (r: (&'a mut T, &'a mut U))
        ensures
            *r.0 == old(c1).val(),
            *r.1 == old(c2).val(),
            final(c1).val() == *final(r.0),
            final(c2).val() == *final(r.1),
            *final(self) == *old(self),
    {
        crate::valuecell::rw2(self, c1, c2)
    }

    /// Borrow the contents of three pairwise-distinct cells mutably at the
    /// same time.
    pub fn rw3<'a, T, U, V>(
        &'a mut self,
        c1: &'a mut TLCell<Mark, T>,
        c2: &'a mut TLCell<Mark, U>,
        c3: &'a mut TLCell<Mark, V>,
    ) -> (r: (&'a mut T, &'a mut U, &'a mut V))
        ensures
            *r.0 == old(c1).val(),
            *r.1 == old(c2).val(),
            *r.2 == old(c3).val(),
            final(c1).val() == *final(r.0),
            final(c2).val() == *final(r.1),
            final(c3).val() == *final(r.2),
            *final(self) == *old(self),
    {
        crate::valuecell::rw3(self, c1, c2, c3)
    }
}

impl<Mark: 'static, T> TLCell<Mark, T> {
    /// Create a new cell holding `value`, accessed through the
    /// thread-scoped singleton owner of the same marker type. No live owner
    /// is needed: cells carry no access state, so a transient owner value
    /// only fixes the marker family.
    pub fn new(value: T) -> (r: Self)
        ensures
            r.val() == value,
    {
        let owner = ThreadLocalSingletonOwner::<Mark> {
            mark: PhantomData,
            id: type_id_of::<Mark>(),
        };
        ValueCell::from_owner(&owner, value)
    }
}

} // verus!
