use crate::stable::Stable;
use vstd::prelude::*;

verus! {

/// Access to a value of type `T` held by a container.
///
/// A command that needs a `T` asks for `Resource<T>` on the context or the
/// environment it is given, and so runs against every application whose state
/// exposes a `T`, whatever the shape of that state.
pub trait Resource<T>: Stable {
    /// The value of type `T` that this container exposes.
    spec fn resolved(&self) -> &T;

    /// Hands out the exposed value. Resolution is total and creates nothing:
    /// the reference points at what the container already holds.
    fn resource(&self) -> (r: &T)
        ensures
            r == self.resolved(),
    ;
}

/// Every stable value is a resource of its own type.
impl<T: Stable> Resource<T> for T {
    open spec fn resolved(&self) -> &T {
        self
    }

    fn resource(&self) -> (r: &T)
        ensures
            r == self,
    {
        self
    }
}

/// Resolving a value as a resource of its own type yields that same value.
pub proof fn lemma_resource_reflexive<T: Stable>(value: T, resolved: &T)
    requires
        call_ensures(<T as Resource<T>>::resource, (&value,), resolved),
    ensures
        resolved == value,
        <T as Resource<T>>::resolved(&value) == value,
{
}

} // verus!
