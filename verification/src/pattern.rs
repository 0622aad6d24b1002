//! The capability of a binder shape: deciding which occurrences it governs.

use vstd::prelude::*;
use crate::debruijn::Debruijn;
use crate::name::FreeName;

verus! {

/// The capability a binder-shape type implements.
///
/// A pattern decides, once per occurrence encountered during a `Term`
/// traversal, whether that occurrence is governed by the binder it
/// represents: `on_free` answers for a free occurrence during closing,
/// `on_bound` for a bound occurrence during opening.  `freshen` draws a
/// fresh name for the variable the pattern introduces, and `rename`
/// overwrites that name.  In a well-formed term exactly one of
/// `on_free` / `on_bound` produces `Some` per occurrence per enclosing
/// pattern; when several nested patterns would claim the same occurrence
/// (shadowing), the innermost pattern is consulted first by the
/// traversal order described at [`crate::term::Term`].
///
/// The decisions are pinned down by the mathematical functions
/// [`Pattern::on_free_spec`] and [`Pattern::on_bound_id`]; the mutating
/// operations are pinned down by the relations
/// [`Pattern::freshen_post`] and [`Pattern::rename_post`] that each
/// implementation defines.
///
/// The associated types mirror those of [`crate::term::Term`]: a pattern
/// can only be handed to a traversal whose term agrees with it on what
/// counts as a free and as a bound name.
pub trait Pattern: Sized {
    /// The type that identifies a free variable for this pattern.
    type FreeName: FreeName;

    /// The type that identifies a bound variable for this pattern.
    type BoundName;

    /// What `rename` takes and `freshen` hands back: the name the
    /// pattern introduces.
    type NamePerm;

    /// The pattern's decision for a free occurrence: the index to bind
    /// it at, if this pattern governs the given name.
    spec fn on_free_spec(&self, index: Debruijn, name: Self::FreeName) -> Option<Debruijn>;

    /// The pattern's decision for a bound occurrence: the identity of
    /// the free name to restore, if the occurrence refers to this
    /// pattern's position.
    spec fn on_bound_id(&self, index: Debruijn, bound: Self::BoundName) -> Option<int>;

    /// Whether this pattern can still draw a fresh name.
    spec fn can_freshen(&self) -> bool;

    /// How a freshened pattern and the returned name relate to the
    /// pattern they came from.
    spec fn freshen_post(pre: Self, post: Self, perm: Self::NamePerm) -> bool;

    /// How a renamed pattern relates to the pattern it came from and the
    /// name written over it.
    spec fn rename_post(pre: Self, perm: Self::NamePerm, post: Self) -> bool;

    /// Draw a fresh name for the variable this pattern introduces,
    /// mutating the pattern in place, and return a copy of it for the
    /// caller to update bound occurrences elsewhere.
    fn freshen(&mut self) -> (r: Self::NamePerm)
        requires
            old(self).can_freshen(),
        ensures
            Self::freshen_post(*old(self), *final(self), r),
    ;

    /// Overwrite the name this pattern introduces with a copy of `perm`.
    fn rename(&mut self, perm: &Self::NamePerm)
        ensures
            Self::rename_post(*old(self), *perm, *final(self)),
    ;

    /// Decide whether the free occurrence `name` at depth `index` is
    /// governed by this pattern, and at which index to bind it.
    fn on_free(&self, index: Debruijn, name: &Self::FreeName) -> (r: Option<Debruijn>)
        ensures
            r == self.on_free_spec(index, *name),
    ;

    /// Decide whether the bound occurrence `bound` at depth `index`
    /// refers to this pattern's position, and if so hand out the free
    /// name to restore there.
    fn on_bound(&self, index: Debruijn, bound: &Self::BoundName) -> (r: Option<Self::FreeName>)
        ensures
            match r {
                Option::Some(n) => self.on_bound_id(index, *bound) == Option::Some(n.id()),
                Option::None => self.on_bound_id(index, *bound) is None,
            },
    ;
}

/// The decision function for free occurrences that a pattern denotes:
/// what the contracts of [`crate::term::Term::close_at`] hold a traversal to.
pub open spec fn on_free_fn<P: Pattern>(pattern: P) -> spec_fn(
    Debruijn,
    P::FreeName,
) -> Option<Debruijn> {
    |index: Debruijn, name: P::FreeName| pattern.on_free_spec(index, name)
}

/// The decision function for bound occurrences that a pattern denotes:
/// what the contracts of [`crate::term::Term::open_at`] hold a traversal to.
pub open spec fn on_bound_fn<P: Pattern>(pattern: P) -> spec_fn(
    Debruijn,
    P::BoundName,
) -> Option<int> {
    |index: Debruijn, bound: P::BoundName| pattern.on_bound_id(index, bound)
}

} // verus!
