//! Runtime identity of marker types.
//!
//! A scope registry tracks which marker types currently have a live owner.
//! Marker types carry no data, so their identity is their `core::any::TypeId`
//! value, obtained and compared through the two trusted functions below.

use vstd::prelude::*;

verus! {

#[verifier::external_type_specification]
#[verifier::external_body]
pub struct ExTypeId(core::any::TypeId);

/// Relies on `core::any::TypeId::of`: returns the identity token of the type
/// `Q`; within one program, every call for the same `Q` returns the same
/// token, and calls for different types return different tokens.
#[verifier::external_body]
pub(crate) fn type_id_of<Q: 'static>() -> core::any::TypeId {
    core::any::TypeId::of::<Q>()
}

/// Relies on `TypeId`'s `PartialEq`: two identity tokens compare equal
/// exactly when they are the same value.
#[verifier::external_body]
pub(crate) fn type_id_eq(a: &core::any::TypeId, b: &core::any::TypeId) -> (r: bool)
    ensures
        r == (*a == *b),
{
    *a == *b
}

} // verus!
