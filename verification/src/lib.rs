//! Cortex: a data-driven Utility AI library.
//!
//! This crate holds the decision rules of the library: Action lifecycle
//! states and their updates, ActionTracker configuration and upkeep, AI levels
//! of detail, the gates of the decision loop, the ActionSets an AI gathers,
//! registries by key, identifier types, the Curve-key rules and the strategies
//! for unresolved Curves. Every function states its behaviour over plain values
//! and mathematical models; ECS entities appear as their 64-bit identities.

pub mod action_runtime;
pub mod actions;
pub mod arg_values;
pub mod asset_loading;
pub mod action_state;
pub mod considerations;
pub mod context_fetchers;
pub mod curves;
pub mod decision_loop;
pub mod entity_identifier;
pub mod errors;
pub mod events;
pub mod heartbeat;
pub mod identifiers;
pub mod lods;
pub mod pawn;
pub mod registry;
pub mod test_helpers;
pub mod smart_object;
pub mod thread_safe_wrapper;
pub mod type_registry;
pub mod types;

use vstd::prelude::*;

verus! {
}
