//! Identifiers for key types.
//!
//! These are simple newtype wrappers whose main purpose is to future-proof the library
//! and allow for the implementations of assorted traits that will not 'leak' into the
//! underlying, wrapped type. All identifiers are cheap and easy to convert into at least
//! a reference to their underlying strings.

use std::borrow::Borrow;
use vstd::std_specs::convert::FromSpecImpl;
use vstd::prelude::*;

verus! {

/// The characters of a string slice.
pub open spec fn chars_of(s: &str) -> Seq<char> {
    s@
}

/// Names a registered ContextFetcher.
#[derive(Clone, Debug, Hash, PartialEq, Eq)]
pub struct ContextFetcherIdentifier(pub String);

impl View for ContextFetcherIdentifier {
    type V = Seq<char>;

    open spec fn view(&self) -> Seq<char> {
        self.0@
    }
}

impl ContextFetcherIdentifier {
    pub fn from_string(value: String) -> (r: Self)
        ensures r.0 == value,
    {
        Self(value)
    }

    /// The key as a string slice.
    pub fn as_str(&self) -> (r: &str)
        ensures r@ == self@,
    {
        self.0.as_str()
    }
}

impl FromSpecImpl<String> for ContextFetcherIdentifier {
    open spec fn obeys_from_spec() -> bool {
        true
    }

    open spec fn from_spec(v: String) -> Self {
        ContextFetcherIdentifier(v)
    }
}

impl From<String> for ContextFetcherIdentifier {
    fn from(value: String) -> (r: Self)
        ensures r@ == value@,
    {
        Self::from_string(value)
    }
}

impl Borrow<str> for ContextFetcherIdentifier {
    fn borrow(&self) -> (r: &str)
        ensures
            chars_of(r) == self@,
    {
        self.0.as_str()
    }
}

impl Borrow<String> for ContextFetcherIdentifier {
    fn borrow(&self) -> &String
        returns
            &self.0,
    {
        &self.0
    }
}

/// Names a Utility Curve.
#[derive(Clone, Debug, Hash, PartialEq, Eq)]
pub struct CurveIdentifier(pub String);

impl View for CurveIdentifier {
    type V = Seq<char>;

    open spec fn view(&self) -> Seq<char> {
        self.0@
    }
}

impl CurveIdentifier {
    pub fn from_string(value: String) -> (r: Self)
        ensures r.0 == value,
    {
        Self(value)
    }

    /// The key as a string slice.
    pub fn as_str(&self) -> (r: &str)
        ensures r@ == self@,
    {
        self.0.as_str()
    }

    /// The key as a `String` reference.
    pub fn as_string(&self) -> (r: &String)
        ensures r@ == self@,
    {
        &self.0
    }
}

impl FromSpecImpl<String> for CurveIdentifier {
    open spec fn obeys_from_spec() -> bool {
        true
    }

    open spec fn from_spec(v: String) -> Self {
        CurveIdentifier(v)
    }
}

impl From<String> for CurveIdentifier {
    fn from(value: String) -> (r: Self)
        ensures r@ == value@,
    {
        Self::from_string(value)
    }
}

impl Borrow<str> for CurveIdentifier {
    fn borrow(&self) -> (r: &str)
        ensures
            chars_of(r) == self@,
    {
        self.0.as_str()
    }
}

impl Borrow<String> for CurveIdentifier {
    fn borrow(&self) -> &String
        returns
            &self.0,
    {
        &self.0
    }
}

/// Names a registered Consideration.
#[derive(Clone, Debug, Hash, PartialEq, Eq)]
pub struct ConsiderationIdentifier(pub String);

impl View for ConsiderationIdentifier {
    type V = Seq<char>;

    open spec fn view(&self) -> Seq<char> {
        self.0@
    }
}

impl ConsiderationIdentifier {
    pub fn from_string(value: String) -> (r: Self)
        ensures r.0 == value,
    {
        Self(value)
    }

    /// The key as a string slice.
    pub fn as_str(&self) -> (r: &str)
        ensures r@ == self@,
    {
        self.0.as_str()
    }

    /// The key as text, for display.
    pub fn to_string(&self) -> (r: String)
        ensures r@ == self@,
    {
        self.0.clone()
    }
}

impl FromSpecImpl<String> for ConsiderationIdentifier {
    open spec fn obeys_from_spec() -> bool {
        true
    }

    open spec fn from_spec(v: String) -> Self {
        ConsiderationIdentifier(v)
    }
}

impl From<String> for ConsiderationIdentifier {
    fn from(value: String) -> (r: Self)
        ensures r@ == value@,
    {
        Self::from_string(value)
    }
}

impl Borrow<str> for ConsiderationIdentifier {
    fn borrow(&self) -> (r: &str)
        ensures
            chars_of(r) == self@,
    {
        self.0.as_str()
    }
}

/// Names a dynamically registered function.
#[derive(Clone, Debug)]
pub struct DynFuncName(pub String);

impl View for DynFuncName {
    type V = Seq<char>;

    open spec fn view(&self) -> Seq<char> {
        self.0@
    }
}

impl DynFuncName {
    /// The name as a string slice.
    pub fn as_str(&self) -> (r: &str)
        ensures r@ == self@,
    {
        self.0.as_str()
    }
}

impl FromSpecImpl<String> for DynFuncName {
    open spec fn obeys_from_spec() -> bool {
        true
    }

    open spec fn from_spec(v: String) -> Self {
        DynFuncName(v)
    }
}

impl From<String> for DynFuncName {
    fn from(value: String) -> (r: Self)
        ensures r@ == value@,
    {
        Self(value)
    }
}

impl Borrow<str> for DynFuncName {
    fn borrow(&self) -> (r: &str)
        ensures
            chars_of(r) == self@,
    {
        self.0.as_str()
    }
}

} // verus!
