use vstd::prelude::*;

verus! {

/// Marker for values that report a failure.
///
/// It asks for nothing beyond the declaration, so that each application and
/// each command keeps an error type of its own. Unifying the failures of
/// several commands is left to the caller.
pub trait ErrorCompatible {
}

/// The failure of an operation that cannot fail.
impl ErrorCompatible for core::convert::Infallible {
}

} // verus!
