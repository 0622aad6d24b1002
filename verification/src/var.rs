//! The minimal term form: a single variable occurrence.

use vstd::prelude::*;
use crate::alpha::AlphaEq;
use crate::debruijn::Debruijn;
use crate::name::FreeName;
use crate::named::Named;
use crate::pattern::{on_bound_fn, on_free_fn, Pattern};
use crate::term::Term;

verus! {

/// A variable occurrence in the locally-nameless representation: either a
/// free variable carrying a name, or a bound variable carrying only the
/// de Bruijn index of the binder it refers to.
#[derive(Debug, Clone, PartialEq, Eq, Hash)]
pub enum Var<N> {
    /// A free occurrence of the named variable.
    Free(N),
    /// A bound occurrence referring to a binder by position.
    Bound(Debruijn),
}

impl<N: FreeName> AlphaEq for Var<N> {
    /// Two occurrences are alpha-equivalent when they are both free with
    /// the same name identity, or both bound at the same index.
    open spec fn alpha_eqv(&self, other: &Self) -> bool {
        match (self, other) {
            (Var::Free(a), Var::Free(b)) => a.id() == b.id(),
            (Var::Bound(i), Var::Bound(j)) => i == j,
            _ => false,
        }
    }

    fn alpha_eq(&self, other: &Self) -> (r: bool) {
        match (self, other) {
            (Var::Free(a), Var::Free(b)) => a.eq_name(b),
            (Var::Bound(i), Var::Bound(j)) => *i == *j,
            _ => false,
        }
    }

    proof fn lemma_alpha_eqv_reflexive(&self) {
    }

    proof fn lemma_alpha_eqv_symmetric(&self, other: &Self) {
    }

    proof fn lemma_alpha_eqv_transitive(&self, mid: &Self, other: &Self) {
    }
}

impl<N: FreeName> Term for Var<N> {
    type FreeName = N;

    type BoundName = Debruijn;

    /// Closing touches exactly the free occurrences the pattern claims:
    /// a claimed free occurrence becomes bound at the index the pattern
    /// answers with, and everything else is left as it stands.
    open spec fn close_at_spec(
        self,
        index: Debruijn,
        f: spec_fn(Debruijn, N) -> Option<Debruijn>,
    ) -> Self {
        match self {
            Var::Free(n) => match f(index, n) {
                Option::Some(b) => Var::Bound(b),
                Option::None => self,
            },
            Var::Bound(_) => self,
        }
    }

    /// Opening touches exactly the bound occurrences the pattern claims:
    /// a claimed bound occurrence becomes a free occurrence whose name
    /// has the identity the pattern answers with, and everything else is
    /// left as it stands.
    open spec fn opened_at(
        pre: Self,
        index: Debruijn,
        g: spec_fn(Debruijn, Debruijn) -> Option<int>,
        post: Self,
    ) -> bool {
        match pre {
            Var::Bound(b) => match g(index, b) {
                Option::Some(nid) => match post {
                    Var::Free(n) => n.id() == nid,
                    Var::Bound(_) => false,
                },
                Option::None => post == pre,
            },
            Var::Free(_) => post == pre,
        }
    }

    fn close_at<P>(&mut self, index: Debruijn, pattern: &P) where
        P: Pattern<FreeName = N, BoundName = Debruijn>,
    {
        let r: Option<Debruijn> = match &*self {
            Var::Free(n) => pattern.on_free(index, n),
            Var::Bound(_) => Option::None,
        };
        if let Option::Some(b) = r {
            *self = Var::Bound(b);
        }
    }

    fn open_at<P>(&mut self, index: Debruijn, pattern: &P) where
        P: Pattern<FreeName = N, BoundName = Debruijn>,
    {
        let r: Option<N> = match &*self {
            Var::Bound(b) => pattern.on_bound(index, b),
            Var::Free(_) => Option::None,
        };
        if let Option::Some(n) = r {
            *self = Var::Free(n);
        }
    }
}

/// Open/close inverse: closing an occurrence at an index over a named
/// pattern and then opening the result at the same index over the same
/// pattern yields an occurrence alpha-equivalent to the one closed,
/// provided the occurrence was not already bound at that index.  An
/// occurrence bound at the index itself is the one input on which the
/// round trip does not return: opening turns it into a free occurrence
/// of the pattern's name.
pub proof fn lemma_close_open_inverse<N: FreeName, T: Term<FreeName = N, BoundName = Debruijn>>(
    t: Var<N>,
    index: Debruijn,
    pattern: Named<N, T>,
    t2: Var<N>,
)
    requires
        t matches Var::Bound(b) ==> b != index,
        Var::opened_at(t.close_at_spec(index, on_free_fn(pattern)), index, on_bound_fn(pattern), t2),
    ensures
        t2.alpha_eqv(&t),
{
    let f = on_free_fn(pattern);
    let g = on_bound_fn(pattern);
    match t {
        Var::Free(n) => {
            assert(f(index, n) == pattern.on_free_spec(index, n));
            if n.id() == pattern.name.id() {
                assert(t.close_at_spec(index, f) == Var::<N>::Bound(index));
                assert(g(index, index) == Option::Some(pattern.name.id()));
            } else {
                assert(t.close_at_spec(index, f) == t);
            }
        }
        Var::Bound(b) => {
            assert(t.close_at_spec(index, f) == t);
            assert(g(index, b) == pattern.on_bound_id(index, b));
        }
    }
}

/// Open/close inverse at the wrapper: the round trip of
/// [`lemma_close_open_inverse`] performed on a named value returns a
/// value alpha-equivalent to the one closed, with the same proviso on
/// its inner occurrence.
pub proof fn lemma_close_open_inverse_named<
    N: FreeName,
    T: Term<FreeName = N, BoundName = Debruijn>,
>(w: Named<N, Var<N>>, index: Debruijn, pattern: Named<N, T>, w2: Named<N, Var<N>>)
    requires
        w.inner matches Var::Bound(b) ==> b != index,
        <Named<N, Var<N>> as Term>::opened_at(
            w.close_at_spec(index, on_free_fn(pattern)),
            index,
            on_bound_fn(pattern),
            w2,
        ),
    ensures
        w2.alpha_eqv(&w),
{
    lemma_close_open_inverse(w.inner, index, pattern, w2.inner);
}

} // verus!
