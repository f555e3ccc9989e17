//! A convenient type wrapping an entity with an optional name.
//!
//! Acts as either an entity or a name for display purposes based on what it holds;
//! otherwise acts as an entity for any other purpose.

use vstd::prelude::*;
use vstd::std_specs::cmp::PartialEqSpecImpl;
use vstd::std_specs::convert::FromSpecImpl;
use crate::types::EntityBits;

verus! {

#[derive(Debug, Clone)]
pub enum EntityIdentifier {
    Entity(EntityBits),
    EntityAndName(EntityBits, String),
}

impl EntityIdentifier {
    /// The entity identified.
    pub open spec fn spec_entity(self) -> EntityBits {
        match self {
            EntityIdentifier::Entity(e) => e,
            EntityIdentifier::EntityAndName(e, _) => e,
        }
    }

    /// The entity identified, whatever else is held.
    pub fn entity(&self) -> (r: EntityBits)
        ensures r == self.spec_entity(),
    {
        match self {
            Self::Entity(e) => *e,
            Self::EntityAndName(e, _) => *e,
        }
    }

    /// Equality as the identifier defines it: an identifier acts as its entity for every
    /// purpose but display, so two identifiers are equal when they identify the same
    /// entity (names, and whether there is one, are not compared).
    pub open spec fn spec_same(self, other: Self) -> bool {
        self.spec_entity() == other.spec_entity()
    }
}

impl FromSpecImpl<EntityBits> for EntityIdentifier {
    open spec fn obeys_from_spec() -> bool {
        true
    }

    open spec fn from_spec(v: EntityBits) -> Self {
        EntityIdentifier::Entity(v)
    }
}

impl From<EntityBits> for EntityIdentifier {
    fn from(value: EntityBits) -> (r: Self)
        ensures r == EntityIdentifier::Entity(value),
    {
        Self::Entity(value)
    }
}

impl FromSpecImpl<(EntityBits, String)> for EntityIdentifier {
    open spec fn obeys_from_spec() -> bool {
        true
    }

    open spec fn from_spec(v: (EntityBits, String)) -> Self {
        EntityIdentifier::EntityAndName(v.0, v.1)
    }
}

impl From<(EntityBits, String)> for EntityIdentifier {
    fn from(value: (EntityBits, String)) -> (r: Self)
        ensures r == EntityIdentifier::EntityAndName(value.0, value.1),
    {
        Self::EntityAndName(value.0, value.1)
    }
}

/// An identifier converts into the entity it identifies.
impl From<EntityIdentifier> for EntityBits {
    fn from(value: EntityIdentifier) -> (r: Self)
        ensures
            r == value.spec_entity(),
    {
        value.entity()
    }
}

impl FromSpecImpl<EntityIdentifier> for EntityBits {
    open spec fn obeys_from_spec() -> bool {
        true
    }

    open spec fn from_spec(v: EntityIdentifier) -> Self {
        v.spec_entity()
    }
}

impl PartialEq for EntityIdentifier {
    fn eq(&self, other: &Self) -> (r: bool) {
        self.entity() == other.entity()
    }
}

impl PartialEqSpecImpl for EntityIdentifier {
    open spec fn obeys_eq_spec() -> bool {
        true
    }

    open spec fn eq_spec(&self, other: &Self) -> bool {
        self.spec_same(*other)
    }
}

impl Eq for EntityIdentifier {}

/// An identifier stands for its entity.
impl core::ops::Deref for EntityIdentifier {
    type Target = EntityBits;

    fn deref(&self) -> (r: &EntityBits)
        ensures
            *r == self.spec_entity(),
    {
        match self {
            Self::Entity(e) => e,
            Self::EntityAndName(e, _) => e,
        }
    }
}

/// Specifies `<u64 as Hash>::hash`, which feeds the integer to the hasher. Nothing is stated
/// of the hasher's state afterwards: it depends on the hasher.
pub assume_specification<H: core::hash::Hasher>[ <u64 as core::hash::Hash>::hash::<H> ](data: &u64, state: &mut H);

/// Identifiers hash as the entity they identify.
impl core::hash::Hash for EntityIdentifier {
    fn hash<H: core::hash::Hasher>(&self, state: &mut H) {
        self.entity().hash(state)
    }
}

/// Identifier equality is an equivalence relation, and identifiers are equal exactly
/// when they identify the same entity, named or not (so hashing by the entity alone is
/// consistent with it).
pub proof fn law_entity_identifier_equality(a: EntityIdentifier, b: EntityIdentifier, c: EntityIdentifier)
    ensures
        a.spec_same(a),
        a.spec_same(b) ==> b.spec_same(a),
        a.spec_same(b) && b.spec_same(c) ==> a.spec_same(c),
        a.spec_same(b) <==> a.spec_entity() == b.spec_entity(),
        EntityIdentifier::Entity(a.spec_entity()).spec_same(a),
{
}

} // verus!
