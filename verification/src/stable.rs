use vstd::prelude::*;

verus! {

/// Marker for values that are safe to keep in application state: shareable
/// across threads, printable for diagnostics, cloneable and free of borrowed
/// data.
///
/// Every type with these capabilities is `Stable`; there is nothing to
/// declare.
pub trait Stable: Send + Sync + std::fmt::Debug + Clone + 'static {
}

impl<T: Send + Sync + std::fmt::Debug + Clone + 'static> Stable for T {
}

} // verus!
