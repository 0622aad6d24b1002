//! Structural alpha-equivalence.

use vstd::prelude::*;

verus! {

/// The capability of being compared for alpha-equivalence: equality up to
/// a consistent renaming of bound variables, ignoring any attached debug
/// metadata.
///
/// The mathematical relation is [`AlphaEq::alpha_eqv`]; the executable
/// [`AlphaEq::alpha_eq`] must decide exactly that relation, and every
/// implementation must show that the relation is reflexive, symmetric and
/// transitive.
pub trait AlphaEq: Sized {
    /// What alpha-equivalence means for this type.
    spec fn alpha_eqv(&self, other: &Self) -> bool;

    /// Decide whether `self` and `other` are alpha-equivalent.
    fn alpha_eq(&self, other: &Self) -> (r: bool)
        ensures
            r == self.alpha_eqv(other),
    ;

    /// Alpha-equivalence relates every value to itself.
    proof fn lemma_alpha_eqv_reflexive(&self)
        ensures
            self.alpha_eqv(self),
    ;

    /// Alpha-equivalence does not depend on the order of its operands.
    proof fn lemma_alpha_eqv_symmetric(&self, other: &Self)
        ensures
            self.alpha_eqv(other) == other.alpha_eqv(self),
    ;

    /// Alpha-equivalence carries over a chain of equivalent values.
    proof fn lemma_alpha_eqv_transitive(&self, mid: &Self, other: &Self)
        requires
            self.alpha_eqv(mid),
            mid.alpha_eqv(other),
        ensures
            self.alpha_eqv(other),
    ;
}

} // verus!
