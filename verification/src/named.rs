//! A binder wrapper that carries a debug-only name.

use vstd::prelude::*;
use crate::alpha::AlphaEq;
use crate::debruijn::Debruijn;
use crate::name::FreeName;
use crate::pattern::Pattern;
use crate::term::Term;

verus! {

/// A value annotated with a name for debugging purposes.
///
/// The name is semantically inert: alpha-equality and hashing ignore it
/// entirely and consult only the inner value, so two binders that differ
/// only in the names chosen at their introduction sites compare and hash
/// as equal.  As a [`Term`], the wrapper forwards traversal to the inner
/// value unchanged; as a [`Pattern`], it uses its name to decide which
/// occurrences the binder it stands for governs.
#[derive(Debug, Clone, PartialEq, Eq)]
pub struct Named<N, T> {
    /// The debug name, never inspected by equality or hashing.
    pub name: N,
    /// The semantically load-bearing inner value.
    pub inner: T,
}

impl<N, T> Named<N, T> {
    /// Pair a debug name with an inner value.
    pub fn new(name: N, inner: T) -> (r: Named<N, T>)
        ensures
            r == (Named { name, inner }),
    {
        Named { name, inner }
    }
}

impl<N, T: AlphaEq> AlphaEq for Named<N, T> {
    /// Two named values are alpha-equivalent exactly when their inner
    /// values are; the `name` fields of both operands are never
    /// inspected.
    open spec fn alpha_eqv(&self, other: &Self) -> bool {
        self.inner.alpha_eqv(&other.inner)
    }

    fn alpha_eq(&self, other: &Self) -> (r: bool) {
        self.inner.alpha_eq(&other.inner)
    }

    proof fn lemma_alpha_eqv_reflexive(&self) {
        self.inner.lemma_alpha_eqv_reflexive();
    }

    proof fn lemma_alpha_eqv_symmetric(&self, other: &Self) {
        self.inner.lemma_alpha_eqv_symmetric(&other.inner);
    }

    proof fn lemma_alpha_eqv_transitive(&self, mid: &Self, other: &Self) {
        self.inner.lemma_alpha_eqv_transitive(&mid.inner, &other.inner);
    }
}

impl<N: FreeName, T: Term<FreeName = N>> Term for Named<N, T> {
    type FreeName = N;

    type BoundName = T::BoundName;

    /// Closing passes through to the inner value and leaves the debug
    /// name as it stands: the name must never influence how closing is
    /// performed.
    open spec fn close_at_spec(
        self,
        index: Debruijn,
        f: spec_fn(Debruijn, N) -> Option<Debruijn>,
    ) -> Self {
        Named { name: self.name, inner: self.inner.close_at_spec(index, f) }
    }

    /// Opening passes through to the inner value and leaves the debug
    /// name as it stands, symmetrically to closing.
    open spec fn opened_at(
        pre: Self,
        index: Debruijn,
        g: spec_fn(Debruijn, T::BoundName) -> Option<int>,
        post: Self,
    ) -> bool {
        post.name == pre.name && T::opened_at(pre.inner, index, g, post.inner)
    }

    fn close_at<P>(&mut self, index: Debruijn, pattern: &P) where
        P: Pattern<FreeName = N, BoundName = T::BoundName>,
    {
        self.inner.close_at(index, pattern);
    }

    fn open_at<P>(&mut self, index: Debruijn, pattern: &P) where
        P: Pattern<FreeName = N, BoundName = T::BoundName>,
    {
        self.inner.open_at(index, pattern);
    }
}

impl<N: FreeName, T: Term<FreeName = N, BoundName = Debruijn>> Pattern for Named<N, T> {
    type FreeName = N;

    type BoundName = Debruijn;

    type NamePerm = N;

    /// A free occurrence is governed by this binder exactly when its
    /// name has the identity of the binder's own name; the occurrence is
    /// then bound at the index of the current traversal depth.
    open spec fn on_free_spec(&self, index: Debruijn, name: N) -> Option<Debruijn> {
        if name.id() == self.name.id() {
            Option::Some(index)
        } else {
            Option::None
        }
    }

    /// A bound occurrence refers to this binder exactly when its index
    /// is the current traversal depth; the name restored there has the
    /// identity of the binder's own name.
    open spec fn on_bound_id(&self, index: Debruijn, bound: Debruijn) -> Option<int> {
        if bound == index {
            Option::Some(self.name.id())
        } else {
            Option::None
        }
    }

    open spec fn can_freshen(&self) -> bool {
        self.name.can_freshen()
    }

    /// Freshening advances the binder's name in place and hands back a
    /// copy of the now-fresh name; the inner value is untouched.
    open spec fn freshen_post(pre: Self, post: Self, perm: N) -> bool {
        &&& post.inner == pre.inner
        &&& post.name.id() > pre.name.id()
        &&& perm.id() == post.name.id()
    }

    /// Renaming overwrites the binder's name with a copy of the one
    /// given; the inner value is untouched.
    open spec fn rename_post(pre: Self, perm: N, post: Self) -> bool {
        &&& post.inner == pre.inner
        &&& post.name.id() == perm.id()
    }

    fn freshen(&mut self) -> (r: N) {
        self.name.freshen();
        self.name.clone_name()
    }

    fn rename(&mut self, perm: &N) {
        self.name = perm.clone_name();
    }

    fn on_free(&self, index: Debruijn, name: &N) -> (r: Option<Debruijn>) {
        if name.eq_name(&self.name) {
            Option::Some(index)
        } else {
            Option::None
        }
    }

    fn on_bound(&self, index: Debruijn, bound: &Debruijn) -> (r: Option<N>) {
        if *bound == index {
            Option::Some(self.name.clone_name())
        } else {
            Option::None
        }
    }
}

impl<N, T: core::hash::Hash> core::hash::Hash for Named<N, T> {
    /// Hashing delegates entirely to the inner value and ignores the
    /// debug name, so that hashing agrees with alpha-equality: values
    /// that alpha-equality cannot tell apart feed the hasher the same
    /// input whenever the inner type's own hashing respects its own
    /// alpha-equality.
    ///
    /// Relies on `core::hash::Hash::hash` of the inner type, to feed the
    /// hasher exactly the inner value; the standard library states no
    /// contract for it that a clause here could repeat.
    #[verifier::external_body]
    fn hash<H: core::hash::Hasher>(&self, state: &mut H) {
        self.inner.hash(state);
    }
}

/// Name-irrelevance: wrapping one inner value under two names, however
/// different, yields alpha-equivalent values.  In particular a binder's
/// debug name can be reassigned at will without changing its identity
/// for equality purposes.
pub proof fn lemma_name_irrelevance<N, T: AlphaEq>(n1: N, n2: N, t: T)
    ensures
        (Named { name: n1, inner: t }).alpha_eqv(&(Named { name: n2, inner: t })),
{
    t.lemma_alpha_eqv_reflexive();
}

/// Freshening a named pattern and then freshening the result yields two
/// names that are unequal to each other and to the name the pattern
/// started with: along a chain of freshenings, every name drawn is
/// distinct from every earlier one.
pub proof fn lemma_freshen_distinct<N: FreeName, T: Term<FreeName = N, BoundName = Debruijn>>(
    p0: Named<N, T>,
    p1: Named<N, T>,
    p2: Named<N, T>,
    r1: N,
    r2: N,
)
    requires
        <Named<N, T> as Pattern>::freshen_post(p0, p1, r1),
        <Named<N, T> as Pattern>::freshen_post(p1, p2, r2),
    ensures
        r1.id() != p0.name.id(),
        r2.id() != r1.id(),
        r2.id() != p0.name.id(),
{
}

/// The duality of `on_free` and `on_bound` for a named pattern: the
/// pattern claims a free occurrence exactly when the occurrence carries
/// the pattern's own name, answering with the index it was asked at, and
/// claims a bound occurrence exactly when the occurrence's index is the
/// one asked at, answering with the pattern's own name.
pub proof fn lemma_on_free_on_bound_duality<
    N: FreeName,
    T: Term<FreeName = N, BoundName = Debruijn>,
>(p: Named<N, T>, i: Debruijn, j: Debruijn, other: N)
    ensures
        p.on_free_spec(i, p.name) == Option::Some(i),
        other.id() != p.name.id() ==> p.on_free_spec(i, other) is None,
        p.on_bound_id(i, i) == Option::Some(p.name.id()),
        j != i ==> p.on_bound_id(j, i) is None,
{
}

/// Pass-through of closing: closing a named value mutates the inner
/// value exactly as closing the inner value directly would, and leaves
/// the debug name unchanged.
pub proof fn lemma_close_at_pass_through<N: FreeName, T: Term<FreeName = N>>(
    w: Named<N, T>,
    index: Debruijn,
    f: spec_fn(Debruijn, N) -> Option<Debruijn>,
)
    ensures
        w.close_at_spec(index, f) == (Named {
            name: w.name,
            inner: w.inner.close_at_spec(index, f),
        }),
{
}

/// Pass-through of opening: a named value opens to another exactly when
/// the inner value opens to the other's inner value directly, with the
/// debug name unchanged.
pub proof fn lemma_open_at_pass_through<N: FreeName, T: Term<FreeName = N>>(
    w: Named<N, T>,
    w2: Named<N, T>,
    index: Debruijn,
    g: spec_fn(Debruijn, T::BoundName) -> Option<int>,
)
    ensures
        <Named<N, T> as Term>::opened_at(w, index, g, w2) == (w2.name == w.name
            && T::opened_at(w.inner, index, g, w2.inner)),
{
}

} // verus!
