//! The strength model: whether holding a handle keeps its target actor
//! alive. `Strong` counts toward the mailbox's strong-reference count, `Weak`
//! never does, and `Either` wraps a strength that was fixed at construction
//! and never changes afterwards.

use vstd::prelude::*;

verus! {

/// A reference that keeps the actor alive: its existence is counted in the
/// mailbox's strong-reference count.
#[derive(Clone, Copy, Debug, PartialEq, Eq, Structural)]
pub struct Strong;

/// A reference that never keeps the actor alive and never touches the
/// mailbox's strong-reference count.
#[derive(Clone, Copy, Debug, PartialEq, Eq, Structural)]
pub struct Weak;

/// A runtime tag wrapping a strength chosen at construction. It never
/// reclassifies: an `Either` made from a strong reference stays strong for
/// its whole lifetime, and likewise for weak.
#[derive(Clone, Copy, Debug, PartialEq, Eq, Structural)]
pub enum Either {
    /// Wraps a strong reference.
    Strong,
    /// Wraps a weak reference.
    Weak,
}

impl Either {
    /// Whether the wrapped strength is strong. Fixed at construction.
    pub open spec fn wraps_strong(&self) -> bool {
        self is Strong
    }
}

/// The operations every strength kind offers. `spec_is_strong` is the
/// mathematical strength flag that identity and equality contracts speak of.
pub trait RefCounter: Sized {
    /// Whether this reference keeps the actor alive.
    spec fn spec_is_strong(&self) -> bool;

    /// The runtime strength flag.
    fn is_strong(&self) -> (r: bool)
        ensures
            r == self.spec_is_strong(),
    ;

    /// A duplicate of this reference, as a cloned handle carries it: the
    /// same strength, byte for byte.
    fn duplicate(&self) -> (r: Self)
        ensures
            r == *self,
    ;

    /// Wrap the current strength into an `Either` tag. The wrapped strength
    /// is exactly the current one and is fixed from here on.
    fn to_either(&self) -> (r: Either)
        ensures
            r.wraps_strong() == self.spec_is_strong(),
    ;
}

impl RefCounter for Strong {
    open spec fn spec_is_strong(&self) -> bool {
        true
    }

    fn is_strong(&self) -> (r: bool) {
        true
    }

    fn duplicate(&self) -> (r: Self) {
        Strong
    }

    fn to_either(&self) -> (r: Either) {
        Either::Strong
    }
}

impl RefCounter for Weak {
    open spec fn spec_is_strong(&self) -> bool {
        false
    }

    fn is_strong(&self) -> (r: bool) {
        false
    }

    fn duplicate(&self) -> (r: Self) {
        Weak
    }

    fn to_either(&self) -> (r: Either) {
        Either::Weak
    }
}

impl RefCounter for Either {
    open spec fn spec_is_strong(&self) -> bool {
        self.wraps_strong()
    }

    fn is_strong(&self) -> (r: bool) {
        match self {
            Either::Strong => true,
            Either::Weak => false,
        }
    }

    fn duplicate(&self) -> (r: Self) {
        *self
    }

    fn to_either(&self) -> (r: Either) {
        *self
    }
}

} // verus!
