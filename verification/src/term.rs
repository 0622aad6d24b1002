//! The traversal capability of an AST node: opening and closing binders.

use vstd::prelude::*;
use crate::debruijn::Debruijn;
use crate::name::FreeName;
use crate::pattern::{on_bound_fn, on_free_fn, Pattern};

verus! {

/// The capability an AST node type implements to participate in binder
/// traversal.
///
/// `close_at` replaces free occurrences recognised by the pattern's
/// `on_free` with bound occurrences at the given depth; `open_at` is the
/// inverse, replacing bound occurrences recognised by the pattern's
/// `on_bound` with free occurrences.  Both consult the pattern once per
/// occurrence encountered; with nested binders the innermost pattern is
/// the one consulted first, because each binder site closes its body
/// before an enclosing site does.
///
/// The effect of a traversal depends on the pattern only through the
/// pattern's own mathematical description, so the contracts here speak of
/// the functions [`on_free_fn`] and [`on_bound_fn`] that a pattern
/// denotes.  Closing is deterministic, described by the function
/// [`Term::close_at_spec`]; opening installs freshly cloned names that
/// are pinned down only up to identity, so it is described by the
/// relation [`Term::opened_at`].
pub trait Term: Sized {
    /// The type that identifies a free variable in this node.
    type FreeName: FreeName;

    /// The type that identifies a bound variable in this node.
    type BoundName;

    /// What closing at `index` does to this node, given the pattern's
    /// decision function for free occurrences.
    spec fn close_at_spec(
        self,
        index: Debruijn,
        f: spec_fn(Debruijn, Self::FreeName) -> Option<Debruijn>,
    ) -> Self;

    /// How a node opened at `index` relates to the node it came from,
    /// given the pattern's decision function for bound occurrences, which
    /// names a replacement by its identity.
    spec fn opened_at(
        pre: Self,
        index: Debruijn,
        g: spec_fn(Debruijn, Self::BoundName) -> Option<int>,
        post: Self,
    ) -> bool;

    /// Replace free occurrences that `pattern.on_free` recognises at
    /// depth `index` with bound occurrences.
    fn close_at<P>(&mut self, index: Debruijn, pattern: &P) where
        P: Pattern<FreeName = Self::FreeName, BoundName = Self::BoundName>,

        ensures
            *final(self) == old(self).close_at_spec(index, on_free_fn(*pattern)),
    ;

    /// Replace bound occurrences that `pattern.on_bound` recognises at
    /// depth `index` with free occurrences.
    fn open_at<P>(&mut self, index: Debruijn, pattern: &P) where
        P: Pattern<FreeName = Self::FreeName, BoundName = Self::BoundName>,

        ensures
            Self::opened_at(*old(self), index, on_bound_fn(*pattern), *final(self)),
    ;
}

} // verus!
