//! An abstraction over the thread-safe shared pointer type (i.e. `Arc<T>`-like)
//! the library uses for any possibly-parallel scenario where cheap clones are needed.
//!
//! The backing type is a hidden implementation detail for the overwhelming majority of purposes.

use std::sync::Arc;
use vstd::prelude::*;
use vstd::std_specs::cmp::{PartialEqSpec, PartialEqSpecImpl, PartialOrdSpec, PartialOrdSpecImpl};
use vstd::std_specs::convert::FromSpecImpl;
use core::cmp::Ordering;

verus! {

/// Calls `Arc::clone`, which makes another pointer to the same allocation:
/// the pointee is the same value.
#[verifier::external_body]
fn arc_clone<T>(this: &Arc<T>) -> (r: Arc<T>)
    ensures
        *r == **this,
{
    Arc::clone(this)
}

/// A thread-safe shared reference to a `T`. Note that this type does NOT provide weakrefs.
#[derive(Debug, Hash)]
pub struct ThreadSafeRef<T> {
    wrapped: Arc<T>,
}

impl<T> View for ThreadSafeRef<T> {
    type V = T;

    closed spec fn view(&self) -> T {
        *self.wrapped
    }
}

impl<T> ThreadSafeRef<T> {
    pub fn new(val: T) -> (r: Self)
        ensures r@ == val,
    {
        Self { wrapped: Arc::new(val) }
    }

    pub fn new_from_ref(val: Arc<T>) -> (r: Self)
        ensures r@ == *val,
    {
        Self { wrapped: val }
    }

    /// The shared value.
    pub fn get(&self) -> (r: &T)
        ensures *r == self@,
    {
        &*self.wrapped
    }

    /// The backing shared pointer.
    pub fn as_arc(&self) -> (r: &Arc<T>)
        ensures **r == self@,
    {
        &self.wrapped
    }
}

impl<T> Clone for ThreadSafeRef<T> {
    fn clone(&self) -> (r: Self)
        ensures r@ == self@,
    {
        Self::new_from_ref(arc_clone(&self.wrapped))
    }
}

impl<T> From<Arc<T>> for ThreadSafeRef<T> {
    fn from(value: Arc<T>) -> (r: Self)
        ensures
            r@ == *value,
    {
        Self::new_from_ref(value)
    }
}

impl<T> FromSpecImpl<Arc<T>> for ThreadSafeRef<T> {
    open spec fn obeys_from_spec() -> bool {
        true
    }

    closed spec fn from_spec(v: Arc<T>) -> Self {
        ThreadSafeRef { wrapped: v }
    }
}

impl<T> core::ops::Deref for ThreadSafeRef<T> {
    type Target = T;

    fn deref(&self) -> (r: &T)
        ensures
            *r == self@,
    {
        &*self.wrapped
    }
}

impl<T> AsRef<Arc<T>> for ThreadSafeRef<T> {
    fn as_ref(&self) -> (r: &Arc<T>)
        ensures
            **r == self@,
    {
        &self.wrapped
    }
}

/// Shared references compare by the values they point to.
impl<T: PartialEq + PartialEqSpec> PartialEq for ThreadSafeRef<T> {
    fn eq(&self, other: &Self) -> (r: bool) {
        self.get().eq(other.get())
    }
}

impl<T: PartialEq + PartialEqSpec> PartialEqSpecImpl for ThreadSafeRef<T> {
    open spec fn obeys_eq_spec() -> bool {
        T::obeys_eq_spec()
    }

    open spec fn eq_spec(&self, other: &Self) -> bool {
        self@.eq_spec(&other@)
    }
}

impl<T: Eq + PartialEqSpec> Eq for ThreadSafeRef<T> {}

/// Shared references are ordered by the values they point to.
impl<T: PartialOrd + PartialEqSpec + PartialOrdSpec> PartialOrd for ThreadSafeRef<T> {
    fn partial_cmp(&self, other: &Self) -> (r: Option<Ordering>) {
        self.get().partial_cmp(other.get())
    }
}

impl<T: PartialOrd + PartialEqSpec + PartialOrdSpec> PartialOrdSpecImpl for ThreadSafeRef<T> {
    open spec fn obeys_partial_cmp_spec() -> bool {
        T::obeys_partial_cmp_spec()
    }

    open spec fn partial_cmp_spec(&self, other: &Self) -> Option<Ordering> {
        self@.partial_cmp_spec(&other@)
    }
}

/// The shared reference to a default value.
impl<T: Default> Default for ThreadSafeRef<T> {
    fn default() -> (r: Self)
        ensures
            call_ensures(T::default, (), r@),
    {
        Self::new(T::default())
    }
}

} // verus!
