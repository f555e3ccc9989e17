//! Type aliases used across the library.
//!
//! ECS entities are carried as their 64-bit identity (the value a Bevy
//! `Entity` gives from `to_bits()`); the ECS layer converts on its edge.

use vstd::prelude::*;

verus! {

/// The 64-bit identity of an ECS entity.
pub type EntityBits = u64;

/// An AI controller entity.
pub type AiEntity = EntityBits;

/// The entity an AI drives.
pub type PawnEntity = EntityBits;

/// An optional Pawn.
pub type PawnEntityRef = Option<PawnEntity>;

/// The target of an Action (an entity).
pub type ActionContext = EntityBits;

/// Contexts are cheap identities, so a reference is a copy.
pub type ActionContextRef = ActionContext;

/// Action keys are effectively IDs, so they do not need to be human-readable.
pub type ActionKey = String;

/// Key of a Utility Curve.
pub type UtilityCurveKey = String;

/// Name of an ActionSet.
pub type ActionSetRef = String;

/// The primitive value of an AI level of detail.
pub type AiLodLevelPrimitive = u8;

} // verus!
