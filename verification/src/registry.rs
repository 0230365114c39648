//! The per-scope owner registry.
//!
//! A scope (typically one thread) keeps a [`ScopeRegistry`]: the set of
//! marker identities that currently have a live owner. Owner construction
//! performs a check-and-insert on the registry, so at most one live owner
//! per marker can be registered in a scope at any time; releasing the owner
//! removes its marker's identity, after which a new owner for that marker
//! may be constructed again.

use vstd::prelude::*;

use crate::ident::type_id_eq;

verus! {

/// The set of marker identities that currently have a live owner in one
/// scope. Viewed as a `Set` of identity tokens.
pub struct ScopeRegistry {
    ids: Vec<core::any::TypeId>,
}

impl View for ScopeRegistry {
    type V = Set<core::any::TypeId>;

    closed spec fn view(&self) -> Set<core::any::TypeId> {
        self.ids@.to_set()
    }
}

impl ScopeRegistry {
    #[verifier::type_invariant]
    spec fn wf(self) -> bool {
        self.ids@.no_duplicates()
    }

    /// An empty scope: no marker has a live owner yet.
    pub fn new() -> (r: Self)
        ensures
            r@ == Set::<core::any::TypeId>::empty(),
    {
        let r = ScopeRegistry { ids: Vec::new() };
        proof {
            assert(r@ =~= Set::<core::any::TypeId>::empty());
        }
        r
    }

    /// Does marker identity `t` currently have a live owner in this scope?
    pub fn contains(&self, t: core::any::TypeId) -> (r: bool)
        ensures
            r == self@.contains(t),
    {
        let n = self.ids.len();
        let mut i: usize = 0;
        while i < n
            invariant
                n == self.ids@.len(),
                i <= n,
                forall|j: int| 0 <= j < i ==> self.ids@[j] != t,
            decreases n - i,
        {
            if type_id_eq(&self.ids[i], &t) {
                proof {
                    assert(self.ids@.contains(t));
                }
                return true;
            }
            i += 1;
        }
        proof {
            assert(!self.ids@.contains(t));
        }
        false
    }

    /// Check-and-insert for owner construction: registers a live owner for
    /// marker identity `t`, succeeding exactly when no owner for `t` is live
    /// in this scope.
    pub fn try_acquire(&mut self, t: core::any::TypeId) -> (r: bool)
        ensures
            r == !old(self)@.contains(t),
            final(self)@ == (if r {
                old(self)@.insert(t)
            } else {
                old(self)@
            }),
    {
        proof {
            use_type_invariant(&*self);
        }
        if self.contains(t) {
            false
        } else {
            let mut ids: Vec<core::any::TypeId> = Vec::new();
            core::mem::swap(&mut ids, &mut self.ids);
            ids.push(t);
            proof {
                let s = old(self).ids@;
                assert(!s.contains(t));
                assert forall|p: int, q: int|
                    0 <= p < s.push(t).len() && 0 <= q < s.push(t).len() && p != q implies s.push(
                    t,
                )[p] != s.push(t)[q] by {
                    if p < s.len() && q < s.len() {
                        assert(s[p] != s[q]);
                    } else if p == s.len() {
                        assert(s.push(t)[q] == s[q]);
                        if s[q] == t {
                            assert(s.contains(t));
                        }
                    } else {
                        assert(s.push(t)[p] == s[p]);
                        if s[p] == t {
                            assert(s.contains(t));
                        }
                    }
                }
                assert(ids@.no_duplicates());
                s.lemma_push_to_set_commute(t);
                assert(ids@.to_set() =~= old(self)@.insert(t));
            }
            self.ids = ids;
            true
        }
    }

    /// Removal for owner destruction: unregisters the live owner for marker
    /// identity `t`, permitting a new owner for `t` to be constructed in this
    /// scope later.
    pub fn release(&mut self, t: core::any::TypeId)
        ensures
            final(self)@ == old(self)@.remove(t),
    {
        proof {
            use_type_invariant(&*self);
        }
        let mut ids: Vec<core::any::TypeId> = Vec::new();
        core::mem::swap(&mut ids, &mut self.ids);
        let n = ids.len();
        let mut i: usize = 0;
        let mut found: bool = false;
        let mut idx: usize = 0;
        while i < n
            invariant
                n == ids@.len(),
                i <= n,
                ids@ == old(self).ids@,
                !found ==> forall|j: int| 0 <= j < i ==> ids@[j] != t,
                found ==> idx < n && ids@[idx as int] == t,
            decreases n - i,
        {
            if !found && type_id_eq(&ids[i], &t) {
                found = true;
                idx = i;
            }
            i += 1;
        }
        if found {
            ids.remove(idx);
            proof {
                let s = old(self).ids@;
                lemma_remove_found(s, t, idx as int);
                assert(ids@.to_set() =~= old(self)@.remove(t));
            }
        } else {
            proof {
                let s = old(self).ids@;
                assert(!s.contains(t));
                assert(ids@.to_set() =~= old(self)@.remove(t));
            }
        }
        self.ids = ids;
    }
}

/// Removing the one index that holds `t` from a duplicate-free sequence
/// removes exactly `t` from the sequence's set of elements, and keeps the
/// sequence duplicate-free.
proof fn lemma_remove_found(s: Seq<core::any::TypeId>, t: core::any::TypeId, idx: int)
    requires
        s.no_duplicates(),
        0 <= idx < s.len(),
        s[idx] == t,
    ensures
        s.remove(idx).no_duplicates(),
        s.remove(idx).to_set() == s.to_set().remove(t),
{
    s.remove_ensures(idx);
    let r = s.remove(idx);
    assert forall|p: int, q: int| 0 <= p < r.len() && 0 <= q < r.len() && p != q implies r[p]
        != r[q] by {
        let p0 = if p < idx {
            p
        } else {
            p + 1
        };
        let q0 = if q < idx {
            q
        } else {
            q + 1
        };
        assert(r[p] == s[p0]);
        assert(r[q] == s[q0]);
    }
    assert forall|x: core::any::TypeId| r.contains(x) implies s.to_set().remove(t).contains(
        x,
    ) by {
        let j = choose|j: int| 0 <= j < r.len() && r[j] == x;
        let j0 = if j < idx {
            j
        } else {
            j + 1
        };
        assert(s[j0] == x);
        assert(s.contains(x));
        if x == t {
            assert(s[j0] == s[idx]);
        }
    }
    assert forall|x: core::any::TypeId| s.to_set().remove(t).contains(x) implies r.contains(
        x,
    ) by {
        let j0 = choose|j0: int| 0 <= j0 < s.len() && s[j0] == x;
        if j0 < idx {
            assert(r[j0] == x);
        } else {
            assert(j0 != idx);
            assert(r[j0 - 1] == x);
        }
    }
    assert(r.to_set() =~= s.to_set().remove(t));
}

/// At most one live owner per marker and scope: while `t` is registered, a
/// second registration of `t` is refused (`try_acquire` returns `false`
/// exactly on a registered identity), and once `t` is released the scope is
/// as before, so a new registration of `t` succeeds.
pub proof fn lemma_singleton_lifecycle(s: Set<core::any::TypeId>, t: core::any::TypeId)
    requires
        !s.contains(t),
    ensures
        s.insert(t).contains(t),
        s.insert(t).remove(t) == s,
        !s.insert(t).remove(t).contains(t),
{
    assert(s.insert(t).remove(t) =~= s);
}

/// Owners for two distinct markers coexist in one scope: registering `t1`
/// does not register `t2`, so a subsequent registration of `t2` succeeds,
/// and then both identities are registered at once.
pub proof fn lemma_distinct_markers_coexist(
    s: Set<core::any::TypeId>,
    t1: core::any::TypeId,
    t2: core::any::TypeId,
)
    requires
        !s.contains(t1),
        !s.contains(t2),
        t1 != t2,
    ensures
        !s.insert(t1).contains(t2),
        s.insert(t1).insert(t2).contains(t1),
        s.insert(t1).insert(t2).contains(t2),
{
}

} // verus!
