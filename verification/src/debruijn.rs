//! The de Bruijn index type: a positional reference to an enclosing binder.

use vstd::prelude::*;

verus! {

/// A de Bruijn index: how many binders out, counting from zero, a bound
/// variable occurrence refers to.
///
/// Two occurrences with an equal index at the same traversal depth denote
/// the same binder.  An index is comparable and incrementable and nothing
/// more; its meaning never changes after creation except by explicit
/// depth-tracked comparison during traversal.
#[derive(Debug, Clone, Copy, PartialEq, Eq, Hash, Structural)]
pub struct Debruijn(pub u32);

impl Debruijn {
    /// The index of the innermost binder.
    pub fn zero() -> (r: Debruijn)
        ensures
            r.0 == 0,
    {
        Debruijn(0)
    }

    /// The index one binder further out.
    pub fn succ(self) -> (r: Debruijn)
        requires
            self.0 < u32::MAX,
        ensures
            r.0 == self.0 + 1,
    {
        Debruijn(self.0 + 1)
    }
}

} // verus!
