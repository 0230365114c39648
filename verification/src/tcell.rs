//! Marker-keyed cells and their borrowing owner.
//!
//! A [`TCell<Q, T>`] stores one `T` and is tagged with the marker type `Q`;
//! it exposes no access methods of its own. All access goes through a
//! [`TCellOwner<Q>`] for the same marker. Obtaining a mutable view requires
//! exclusive references to both the owner and the cell, so while such a view
//! is live, a second borrow through the same owner — and passing the same
//! cell twice to `rw2` or `rw3` — is rejected by the borrow checker.

use core::marker::PhantomData;
use std::rc::Rc;
use vstd::prelude::*;

use crate::ident::type_id_of;
use crate::registry::ScopeRegistry;

verus! {

/// Borrowing-owner of zero or more [`TCell`] instances.
///
/// At most one live owner per marker type `Q` can be registered in one
/// [`ScopeRegistry`] at any time. The owner is bound to the scope that
/// registered it: it is neither cloneable nor sendable to another thread
/// (another thread registers its own owner in its own registry).
pub struct TCellOwner<Q: 'static> {
    // Rc makes the owner neither Send nor Sync: it must stay in its scope.
    typ: PhantomData<Rc<Q>>,
    id: core::any::TypeId,
}

impl<Q: 'static> TCellOwner<Q> {
    /// The marker identity this owner registered on construction.
    pub closed spec fn marker_id(self) -> core::any::TypeId {
        self.id
    }

    /// Create the owner for marker type `Q` in the scope of `reg`. Returns
    /// `None`, leaving the scope unchanged, while another owner for `Q` is
    /// live in that scope; each owner may be used to access any number of
    /// `TCell<Q, T>` instances.
    pub fn new(reg: &mut ScopeRegistry) -> (r: Option<Self>)
        ensures
            match r {
                Some(owner) => !old(reg)@.contains(owner.marker_id()) && final(reg)@ == old(
                    reg,
                )@.insert(owner.marker_id()),
                None => final(reg)@ == old(reg)@,
            },
    {
        let t = type_id_of::<Q>();
        if reg.try_acquire(t) {
            Some(TCellOwner { typ: PhantomData, id: t })
        } else {
            None
        }
    }

    /// Destroy the owner, unregistering its marker identity from the scope
    /// of `reg`, so that a new owner for `Q` may be created there later.
    pub fn release(self, reg: &mut ScopeRegistry)
        ensures
            final(reg)@ == old(reg)@.remove(self.marker_id()),
    {
        reg.release(self.id);
    }

    /// Create a new cell holding `value`, owned for borrowing purposes by
    /// this owner. See also [`TCell::new`], which needs no owner.
    pub fn cell<T>(&self, value: T) -> (r: TCell<Q, T>)
        ensures
            r.val() == value,
    {
        TCell::<Q, T>::new(value)
    }

    /// Borrow the contents of a cell read-only. Needs only a shared
    /// reference to the owner, so any number of such borrows, of the same or
    /// of different cells, may be live at the same time.
    pub fn ro<'a, T>(&'a self, tc: &'a TCell<Q, T>) -> (r: &'a T)
        ensures
            *r == tc.val(),
    {
        &tc.value
    }

    /// Borrow the contents of one cell mutably. Needs an exclusive reference
    /// to the owner, so no other borrow through this owner can be live at
    /// the same time; the returned view must go out of scope before the
    /// owner can be used again.
    pub fn rw<'a, T>(&'a mut self, tc: &'a mut TCell<Q, T>) -> (r: &'a mut T)
        ensures
            *r == old(tc).val(),
            final(tc).val() == *final(r),
            *final(self) == *old(self),
    {
        &mut tc.value
    }

    /// Borrow the contents of two distinct cells mutably at the same time.
    /// The two views are independent: each cell ends up holding whatever its
    /// own view was mutated to. Passing the same cell twice is a
    /// compile-time error, since each cell is taken by exclusive reference.
    pub fn rw2<'a, T, U>(&'a mut self, tc1: &'a mut TCell<Q, T>, tc2: &'a mut TCell<Q, U>) -> (r:
        (&'a mut T, &'a mut U))
        ensures
            *r.0 == old(tc1).val(),
            *r.1 == old(tc2).val(),
            final(tc1).val() == *final(r.0),
            final(tc2).val() == *final(r.1),
            *final(self) == *old(self),
    {
        (&mut tc1.value, &mut tc2.value)
    }

    /// Borrow the contents of three pairwise-distinct cells mutably at the
    /// same time. As with [`TCellOwner::rw2`], distinctness is enforced by
    /// the exclusive references, and the three views are independent.
    pub fn rw3<'a, T, U, V>(
        &'a mut self,
        tc1: &'a mut TCell<Q, T>,
        tc2: &'a mut TCell<Q, U>,
        tc3: &'a mut TCell<Q, V>,
    ) -> (r: (&'a mut T, &'a mut U, &'a mut V))
        ensures
            *r.0 == old(tc1).val(),
            *r.1 == old(tc2).val(),
            *r.2 == old(tc3).val(),
            final(tc1).val() == *final(r.0),
            final(tc2).val() == *final(r.1),
            final(tc3).val() == *final(r.2),
            *final(self) == *old(self),
    {
        (&mut tc1.value, &mut tc2.value, &mut tc3.value)
    }
}

/// Cell whose contents are owned, for borrowing purposes, by the
/// [`TCellOwner`] with the same marker type.
///
/// The cell carries no access state: it may be created, moved and shared
/// freely, and reaches its contents only through a live owner.
pub struct TCell<Q, T> {
    owner: PhantomData<Q>,
    value: T,
}

impl<Q, T> TCell<Q, T> {
    /// The value the cell holds.
    pub closed spec fn val(self) -> T {
        self.value
    }

    /// Create a new cell holding `value`, owned for borrowing purposes by
    /// the `TCellOwner` derived from the same marker type `Q`.
    pub fn new(value: T) -> (r: TCell<Q, T>)
        ensures
            r.val() == value,
    {
        TCell { owner: PhantomData, value }
    }
}

} // verus!
