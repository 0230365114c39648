//! Statically checked shared-data cells, keyed by marker types.
//!
//! A [`TCell<Q, T>`] is a storage location holding a `T`, tagged with a
//! caller-chosen marker type `Q`. The cell itself exposes no access methods:
//! all reads and writes go through a [`TCellOwner<Q>`], a token that is the
//! only key for cells of its marker family. Borrowing a cell immutably
//! (`ro`) needs a shared reference to the owner, so any number of reads may
//! be live at once; borrowing mutably (`rw`, `rw2`, `rw3`) needs an
//! exclusive reference to the owner and to the cells, so the borrow checker
//! rules out a second access through the same owner, or the same cell passed
//! twice, while a mutable view is live. Aliasing violations are therefore
//! compile-time errors rather than runtime checks.
//!
//! Each owner is bound to a scope through a [`ScopeRegistry`], the set of
//! marker identities that currently have a live owner. Constructing an owner
//! registers its marker's identity and fails (returns `None`) while another
//! owner for the same marker is live in the same registry; releasing the
//! owner removes the identity again. A thread keeps one registry of its own,
//! so owners for the same marker may exist in different threads at the same
//! time, and the owner type is not sendable between threads.
//!
//! The [`ValueCell`]/[`ValueCellOwner`] layer generalises the scheme: an
//! owner kind supplies a proxy value stored in each cell and a validation
//! predicate over it, and the borrow operations are defined once for every
//! such owner kind. [`ThreadLocalSingletonOwner`] is the singleton owner
//! kind built on that layer, with [`TLCell`] as its cell type.

mod ident;
mod registry;
mod tcell;
mod tlcell;
mod valuecell;

pub use registry::ScopeRegistry;
pub use registry::lemma_distinct_markers_coexist;
pub use registry::lemma_singleton_lifecycle;
pub use tcell::TCell;
pub use tcell::TCellOwner;
pub use tlcell::TLCell;
pub use tlcell::ThreadLocalSingletonOwner;
pub use tlcell::ThreadLocalSingletonProxy;
pub use valuecell::ValueCell;
pub use valuecell::ValueCellOwner;
