//! Marker traits for the values that can stand in an Action Context.
//!
//! Transparent values are the primitive types the library supports directly; opaque
//! values are registered types that the user recovers by name from a type registry.

use std::collections::HashMap;
use vstd::prelude::*;
use crate::type_registry::TypeRegistryIdentifier;

verus! {

/// A primitive value the library supports directly in Contexts.
pub trait IsPrimitiveContextValue {}

impl IsPrimitiveContextValue for bool {}

impl IsPrimitiveContextValue for u32 {}

impl IsPrimitiveContextValue for i32 {}

impl IsPrimitiveContextValue for String {}

/// A value that can stand in a Context.
pub trait IsContextValue {}

/// A value stored as a registered, reflected object that the user casts down manually.
/// Mutually exclusive with `ContextValueIsTransparent` by convention.
pub trait ContextValueIsOpaque: IsPrimitiveContextValue {}

/// A value stored as-is; every primitive value is transparent.
pub trait ContextValueIsTransparent: IsPrimitiveContextValue {}

impl<T: IsPrimitiveContextValue> ContextValueIsTransparent for T {}

impl IsContextValue for &str {}

impl<T: IsPrimitiveContextValue> IsContextValue for (T, T) {}

impl<T: IsPrimitiveContextValue> IsContextValue for (T, T, T) {}

impl<T: IsPrimitiveContextValue> IsContextValue for (T, T, T, T) {}

impl<T: IsPrimitiveContextValue, const N: usize> IsContextValue for [T; N] {}

impl<T: IsPrimitiveContextValue> IsContextValue for Vec<T> {}

impl<V: IsPrimitiveContextValue> IsContextValue for HashMap<String, V> {}

/// A registry identifier stands for a reflected value that has been registered.
impl IsContextValue for TypeRegistryIdentifier {}

} // verus!
