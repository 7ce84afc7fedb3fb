use vstd::prelude::*;

verus! {

/// Marker for values that can be converted both into and from an external
/// representation such as JSON or YAML.
///
/// The marker names no format. A type takes it by declaration; the common
/// types of the standard library carry it already.
pub trait SerdeCompatible {
}

impl SerdeCompatible for () {
}

impl SerdeCompatible for bool {
}

impl SerdeCompatible for char {
}

impl SerdeCompatible for u8 {
}

impl SerdeCompatible for u16 {
}

impl SerdeCompatible for u32 {
}

impl SerdeCompatible for u64 {
}

impl SerdeCompatible for u128 {
}

impl SerdeCompatible for usize {
}

impl SerdeCompatible for i8 {
}

impl SerdeCompatible for i16 {
}

impl SerdeCompatible for i32 {
}

impl SerdeCompatible for i64 {
}

impl SerdeCompatible for i128 {
}

impl SerdeCompatible for isize {
}

impl SerdeCompatible for String {
}

impl<T: SerdeCompatible> SerdeCompatible for Option<T> {
}

impl<T: SerdeCompatible> SerdeCompatible for Vec<T> {
}

impl<T: SerdeCompatible> SerdeCompatible for Box<T> {
}

impl<T: SerdeCompatible, E: SerdeCompatible> SerdeCompatible for Result<T, E> {
}

} // verus!
