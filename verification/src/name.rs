//! Free-variable names and the freshening capability.

use vstd::prelude::*;

verus! {

/// The capability a type needs to identify a free (unbound) variable:
/// equality comparison, cloning, and an in-place `freshen` operation.
///
/// A name's identity is the mathematical value [`FreeName::id`]; two names
/// are the same variable exactly when their identities agree.  Freshening
/// mutates a name to one with a strictly larger identity, the model of a
/// monotonically increasing, never reset generator: a freshened name is
/// distinct from the name it replaced and from every name freshened
/// earlier in the same chain.  Freshening is the only sanctioned way to
/// introduce a variable that must not collide with an existing binder in
/// scope.
pub trait FreeName: Sized {
    /// The identity of the name: the value that equality compares.
    spec fn id(&self) -> int;

    /// Whether the generator behind this name can still advance.
    spec fn can_freshen(&self) -> bool;

    /// Decide whether two names identify the same variable.
    fn eq_name(&self, other: &Self) -> (r: bool)
        ensures
            r == (self.id() == other.id()),
    ;

    /// Produce an independent copy with the same identity.
    fn clone_name(&self) -> (r: Self)
        ensures
            r.id() == self.id(),
            r.can_freshen() == self.can_freshen(),
    ;

    /// Mutate this name into a fresh one with a strictly larger identity.
    fn freshen(&mut self)
        requires
            old(self).can_freshen(),
        ensures
            final(self).id() > old(self).id(),
    ;
}

/// A generated name: an identifier drawn from a counter.
///
/// The counter is carried in the name itself, so freshening advances this
/// name past every value it held before; arranging that independently
/// created generated names start from disjoint counter ranges is the
/// caller's part of the process-wide freshness contract.
#[derive(Debug, Clone, Copy, PartialEq, Eq, Hash, Structural)]
pub struct GenName(pub u64);

impl FreeName for GenName {
    open spec fn id(&self) -> int {
        self.0 as int
    }

    open spec fn can_freshen(&self) -> bool {
        self.0 < u64::MAX
    }

    fn eq_name(&self, other: &Self) -> (r: bool) {
        self.0 == other.0
    }

    fn clone_name(&self) -> (r: Self) {
        GenName(self.0)
    }

    fn freshen(&mut self) {
        self.0 = self.0 + 1;
    }
}

} // verus!
