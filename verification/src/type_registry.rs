//! Identifiers that prove a name was found in a type or function registry.
//!
//! A name is looked up in one of Bevy's reflection registries (of types by type path,
//! or of functions by name); an identifier is only handed out for a name that was
//! found, and it records which kind of registry vouched for it.

use bevy::reflect::func::FunctionRegistry;
use bevy::reflect::TypeRegistry;
use vstd::prelude::*;
use crate::errors::DynResolutionError;

verus! {

/// A helper for the registry identifier family: an extension of `From<String>`
/// for cases that may require a bit more work to construct.
pub trait TypeRegistryIdentifierBuildable: Sized {
    fn build_from_string(value: String) -> Self;
}

impl<T: From<String>> TypeRegistryIdentifierBuildable for T {
    /// Builds the identifier as `From<String>` does.
    fn build_from_string(value: String) -> (r: Self)
        ensures
            call_ensures(T::from, (value,), r),
    {
        Self::from(value)
    }
}

/// The name of a registered type.
#[derive(Debug, Clone)]
pub struct TypeRegistryTypeIdentifier(pub String);

/// The name of a registered function.
#[derive(Debug, Clone)]
pub struct TypeRegistryFuncIdentifier(pub String);

/// A name that was found in one of the four kinds of registry.
#[derive(Debug, Clone)]
pub enum TypeRegistryIdentifier {
    Type(TypeRegistryTypeIdentifier),
    AppType(TypeRegistryTypeIdentifier),
    Func(TypeRegistryFuncIdentifier),
    AppFunc(TypeRegistryFuncIdentifier),
}

/// The kind of registry a name was looked up in.
#[derive(Debug, Clone, Copy, PartialEq, Eq, Structural)]
pub enum ReflectTypeRegistryKind {
    Type,
    Func,
    AppType,
    AppFunc,
}

impl TypeRegistryIdentifier {
    /// The registered name.
    pub open spec fn spec_name(self) -> Seq<char> {
        match self {
            TypeRegistryIdentifier::Type(x) => x.0@,
            TypeRegistryIdentifier::AppType(x) => x.0@,
            TypeRegistryIdentifier::Func(x) => x.0@,
            TypeRegistryIdentifier::AppFunc(x) => x.0@,
        }
    }

    /// The type identifier held, if this names a registered type.
    pub open spec fn spec_as_type(self) -> Option<TypeRegistryTypeIdentifier> {
        match self {
            TypeRegistryIdentifier::Type(x) => Some(x),
            TypeRegistryIdentifier::AppType(x) => Some(x),
            _ => None,
        }
    }

    /// The function identifier held, if this names a registered function.
    pub open spec fn spec_as_func(self) -> Option<TypeRegistryFuncIdentifier> {
        match self {
            TypeRegistryIdentifier::Func(x) => Some(x),
            TypeRegistryIdentifier::AppFunc(x) => Some(x),
            _ => None,
        }
    }

    pub fn is_any_type(&self) -> (r: bool)
        ensures r == (self is Type || self is AppType),
    {
        match self {
            TypeRegistryIdentifier::Type(_) => true,
            TypeRegistryIdentifier::AppType(_) => true,
            _ => false,
        }
    }

    pub fn is_any_func(&self) -> (r: bool)
        ensures r == (self is Func || self is AppFunc),
    {
        match self {
            TypeRegistryIdentifier::Func(_) => true,
            TypeRegistryIdentifier::AppFunc(_) => true,
            _ => false,
        }
    }

    pub fn is_app_func(&self) -> (r: bool)
        ensures r == self is AppFunc,
    {
        match self {
            TypeRegistryIdentifier::AppFunc(_) => true,
            _ => false,
        }
    }

    pub fn is_nonapp_func(&self) -> (r: bool)
        ensures r == self is Func,
    {
        match self {
            TypeRegistryIdentifier::Func(_) => true,
            _ => false,
        }
    }

    pub fn try_to_any_type(self) -> (r: Option<TypeRegistryTypeIdentifier>)
        ensures
            r == self.spec_as_type(),
    {
        match self {
            TypeRegistryIdentifier::Type(x) => Some(x),
            TypeRegistryIdentifier::AppType(x) => Some(x),
            _ => None,
        }
    }

    pub fn try_to_any_func(self) -> (r: Option<TypeRegistryFuncIdentifier>)
        ensures
            r == self.spec_as_func(),
    {
        match self {
            TypeRegistryIdentifier::Func(x) => Some(x),
            TypeRegistryIdentifier::AppFunc(x) => Some(x),
            _ => None,
        }
    }

    /// The registered name, whatever the kind of registry.
    pub fn as_identifier_string(&self) -> (r: &str)
        ensures r@ == self.spec_name(),
    {
        match self {
            Self::Type(x) => x.0.as_str(),
            Self::AppType(x) => x.0.as_str(),
            Self::Func(x) => x.0.as_str(),
            Self::AppFunc(x) => x.0.as_str(),
        }
    }
}

#[verifier::external_type_specification]
#[verifier::external_body]
pub struct ExTypeRegistry(TypeRegistry);

#[verifier::external_type_specification]
#[verifier::external_body]
pub struct ExFunctionRegistry(FunctionRegistry);

/// The type paths under which a type registry holds a registration.
pub uninterp spec fn registered_type_paths(registry: TypeRegistry) -> Set<Seq<char>>;

/// The names under which a function registry holds a function.
pub uninterp spec fn registered_function_names(registry: FunctionRegistry) -> Set<Seq<char>>;

/// Calls `TypeRegistry::get_with_type_path`, which finds the registration of the type
/// with the given type path; the result says whether there is one.
#[verifier::external_body]
fn type_path_registered(registry: &TypeRegistry, type_path: &str) -> (r: bool)
    ensures
        r == registered_type_paths(*registry).contains(type_path@),
{
    registry.get_with_type_path(type_path).is_some()
}

/// Calls `FunctionRegistry::contains`, which says whether a function with the given
/// name is registered.
#[verifier::external_body]
fn function_name_registered(registry: &FunctionRegistry, name: &str) -> (r: bool)
    ensures
        r == registered_function_names(*registry).contains(name@),
{
    registry.contains(name)
}

/// A registry a name can be looked up in: a type or function registry, standalone or
/// the one of the App.
pub enum ReflectTypeRegistry<'a> {
    Type(&'a TypeRegistry),
    Func(&'a FunctionRegistry),
    AppType(&'a TypeRegistry),
    AppFunc(&'a FunctionRegistry),
}

impl<'a> ReflectTypeRegistry<'a> {
    /// The kind of the registry.
    pub open spec fn spec_kind(self) -> ReflectTypeRegistryKind {
        match self {
            ReflectTypeRegistry::Type(_) => ReflectTypeRegistryKind::Type,
            ReflectTypeRegistry::Func(_) => ReflectTypeRegistryKind::Func,
            ReflectTypeRegistry::AppType(_) => ReflectTypeRegistryKind::AppType,
            ReflectTypeRegistry::AppFunc(_) => ReflectTypeRegistryKind::AppFunc,
        }
    }

    /// Whether the registry holds `name`.
    pub open spec fn spec_holds(self, name: Seq<char>) -> bool {
        match self {
            ReflectTypeRegistry::Type(r) => registered_type_paths(*r).contains(name),
            ReflectTypeRegistry::Func(r) => registered_function_names(*r).contains(name),
            ReflectTypeRegistry::AppType(r) => registered_type_paths(*r).contains(name),
            ReflectTypeRegistry::AppFunc(r) => registered_function_names(*r).contains(name),
        }
    }

    /// Looks `name` up in the registry.
    pub fn holds(&self, name: &str) -> (r: bool)
        ensures
            r == self.spec_holds(name@),
    {
        match self {
            ReflectTypeRegistry::Type(r) => type_path_registered(r, name),
            ReflectTypeRegistry::Func(r) => function_name_registered(r, name),
            ReflectTypeRegistry::AppType(r) => type_path_registered(r, name),
            ReflectTypeRegistry::AppFunc(r) => function_name_registered(r, name),
        }
    }

    /// The kind of the registry.
    pub fn kind(&self) -> (r: ReflectTypeRegistryKind)
        ensures
            r == self.spec_kind(),
    {
        match self {
            ReflectTypeRegistry::Type(_) => ReflectTypeRegistryKind::Type,
            ReflectTypeRegistry::Func(_) => ReflectTypeRegistryKind::Func,
            ReflectTypeRegistry::AppType(_) => ReflectTypeRegistryKind::AppType,
            ReflectTypeRegistry::AppFunc(_) => ReflectTypeRegistryKind::AppFunc,
        }
    }
}

/// Looks `value` up in `registry` and hands out an identifier for it if it is
/// registered there (its variant names the kind of registry), else `NotInRegistry`.
pub fn from_string_identifier(value: String, registry: &ReflectTypeRegistry) -> (r: Result<
    TypeRegistryIdentifier,
    DynResolutionError,
>)
    ensures
        r == spec_identifier_from_lookup(value, registry.spec_kind(), registry.spec_holds(value@)),
{
    let found = registry.holds(value.as_str());
    identifier_from_lookup(value, registry.kind(), found)
}

/// The identifier for `value` after a lookup in a registry of kind `kind` that found it
/// or not.
pub open spec fn spec_identifier_from_lookup(value: String, kind: ReflectTypeRegistryKind, found: bool) -> Result<
    TypeRegistryIdentifier,
    DynResolutionError,
> {
    if !found {
        Err(DynResolutionError::NotInRegistry(value))
    } else {
        Ok(
            match kind {
                ReflectTypeRegistryKind::Type => TypeRegistryIdentifier::Type(TypeRegistryTypeIdentifier(value)),
                ReflectTypeRegistryKind::AppType => TypeRegistryIdentifier::AppType(TypeRegistryTypeIdentifier(value)),
                ReflectTypeRegistryKind::Func => TypeRegistryIdentifier::Func(TypeRegistryFuncIdentifier(value)),
                ReflectTypeRegistryKind::AppFunc => TypeRegistryIdentifier::AppFunc(TypeRegistryFuncIdentifier(value)),
            },
        )
    }
}

/// Turns the outcome of looking `value` up in a registry of kind `kind` into an
/// identifier: the variant names the kind of registry; a name that was not found
/// is `NotInRegistry`.
pub fn identifier_from_lookup(value: String, kind: ReflectTypeRegistryKind, found: bool) -> (r: Result<
    TypeRegistryIdentifier,
    DynResolutionError,
>)
    ensures
        !found ==> r == Err::<TypeRegistryIdentifier, DynResolutionError>(DynResolutionError::NotInRegistry(value)),
        found ==> r is Ok,
        found ==> r->Ok_0.spec_name() == value@,
        found ==> (r->Ok_0 is Type <==> kind == ReflectTypeRegistryKind::Type),
        found ==> (r->Ok_0 is AppType <==> kind == ReflectTypeRegistryKind::AppType),
        found ==> (r->Ok_0 is Func <==> kind == ReflectTypeRegistryKind::Func),
        found ==> (r->Ok_0 is AppFunc <==> kind == ReflectTypeRegistryKind::AppFunc),
        r == spec_identifier_from_lookup(value, kind, found),
{
    if !found {
        return Err(DynResolutionError::NotInRegistry(value));
    }
    match kind {
        ReflectTypeRegistryKind::Type => Ok(TypeRegistryIdentifier::Type(TypeRegistryTypeIdentifier(value))),
        ReflectTypeRegistryKind::AppType => Ok(TypeRegistryIdentifier::AppType(TypeRegistryTypeIdentifier(value))),
        ReflectTypeRegistryKind::Func => Ok(TypeRegistryIdentifier::Func(TypeRegistryFuncIdentifier(value))),
        ReflectTypeRegistryKind::AppFunc => Ok(TypeRegistryIdentifier::AppFunc(TypeRegistryFuncIdentifier(value))),
    }
}

/// Turns the outcome of a typechecked registry lookup of `value` into a result:
/// `lookup` is `None` when the name is not registered, else whether the registration
/// carries the expected type data.
pub fn from_string_identifier_typechecked(value: String, lookup: Option<bool>) -> (r: Result<String, DynResolutionError>)
    ensures
        r == (match lookup {
            None => Err(DynResolutionError::NotInRegistry(value)),
            Some(true) => Ok(value),
            Some(false) => Err(DynResolutionError::UnexpectedType(value)),
        }),
{
    match lookup {
        None => Err(DynResolutionError::NotInRegistry(value)),
        Some(maybe_type) => match maybe_type {
            true => Ok(value),
            false => Err(DynResolutionError::UnexpectedType(value)),
        },
    }
}

/// Every registry identifier names either a type or a function, never both: exactly
/// one of the two conversions succeeds, and it keeps the registered name.
pub proof fn law_type_or_func(id: TypeRegistryIdentifier)
    ensures
        id.spec_as_type() is Some != id.spec_as_func() is Some,
        id.spec_as_type() matches Some(t) ==> t.0@ == id.spec_name(),
        id.spec_as_func() matches Some(f) ==> f.0@ == id.spec_name(),
{
}

} // verus!
