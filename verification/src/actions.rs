//! Actions and ActionTemplates.
//!
//! An Action is composed of two parts: an ActionTemplate and an ActionContext. You can
//! think of that as 'function' and 'parameters': the Template represents a capability
//! (e.g. the ability to pick up items), the Context what we're doing it *to*.
//!
//! Scores, priorities and Consideration bounds are numbers of the numeric layer; they
//! are carried here as an opaque score type `S`.

use vstd::prelude::*;
use vstd::std_specs::cmp::PartialEqSpecImpl;
use crate::identifiers::{ConsiderationIdentifier, ContextFetcherIdentifier, CurveIdentifier};
use crate::lods::{lod_range_admits, spec_lod_range_admits, AiLevelOfDetailValue};
use crate::types::{ActionContextRef, ActionKey, AiLodLevelPrimitive};

verus! {

/// One scoring axis of an ActionTemplate: a Consideration, the Curve shaping its
/// response, and the raw values mapped to the bottom and top of the Curve's domain.
#[derive(Clone, Debug)]
pub struct ConsiderationData<S> {
    pub consideration_name: ConsiderationIdentifier,
    pub curve_name: CurveIdentifier,
    pub min: S,
    pub max: S,
}

impl<S> ConsiderationData<S> {
    pub fn new(consideration_name: ConsiderationIdentifier, curve_name: CurveIdentifier, min: S, max: S) -> (r: Self)
        ensures
            r.consideration_name == consideration_name,
            r.curve_name == curve_name,
            r.min == min,
            r.max == max,
    {
        Self { consideration_name: consideration_name, curve_name: curve_name, min: min, max: max }
    }
}

/// An Action is effectively an ActionTemplate + a selected ActionContext.
#[derive(Clone, Debug)]
pub struct Action {
    pub name: String,
    pub context: ActionContextRef,
    pub action_key: ActionKey,
}

/// An Action with the score it was picked with.
#[derive(Clone, Debug)]
pub struct ScoredAction<S> {
    pub action: Action,
    pub score: S,
}

/// A 'partial' Action: an abstract activity an AI may undertake without a specific target.
///
/// It names the Action handler, the ContextFetcher that finds possible Contexts, the
/// Considerations that score them, a Priority multiplier, and the range of AI levels of
/// detail it runs at.
#[derive(Clone, Debug)]
pub struct ActionTemplate<S> {
    pub name: String,
    pub context_fetcher_name: ContextFetcherIdentifier,
    pub considerations: Vec<ConsiderationData<S>>,
    pub priority: S,
    pub action_key: ActionKey,
    pub lod_min: Option<AiLodLevelPrimitive>,
    pub lod_max: Option<AiLodLevelPrimitive>,
}

impl<S> ActionTemplate<S> {
    pub fn new(
        name: String,
        context_fetcher_name: ContextFetcherIdentifier,
        considerations: Vec<ConsiderationData<S>>,
        priority: S,
        action_key: ActionKey,
        lod_min: Option<AiLodLevelPrimitive>,
        lod_max: Option<AiLodLevelPrimitive>,
    ) -> (r: Self)
        ensures
            r.name == name,
            r.context_fetcher_name == context_fetcher_name,
            r.considerations == considerations,
            r.priority == priority,
            r.action_key == action_key,
            r.lod_min == lod_min,
            r.lod_max == lod_max,
    {
        Self {
            name: name,
            context_fetcher_name: context_fetcher_name,
            considerations: considerations,
            priority: priority,
            action_key: action_key,
            lod_min: lod_min,
            lod_max: lod_max,
        }
    }

    /// Checks if this template should be processed at a given LOD: the AI's LOD (`LOD_NORMAL`
    /// if it has none) must lie between `lod_min` and `lod_max` (by default `LOD_NORMAL`
    /// and `LOD_MINIMAL`).
    pub fn is_within_lod_range(&self, lod: &Option<AiLevelOfDetailValue>) -> (r: bool)
        ensures
            r == spec_lod_range_admits(self.lod_min, self.lod_max, *lod),
    {
        lod_range_admits(self.lod_min, self.lod_max, lod)
    }
}

/// ActionTemplates are equal if their Name and ActionKey are equal.
impl<S> PartialEq for ActionTemplate<S> {
    fn eq(&self, other: &Self) -> (r: bool) {
        self.name == other.name && self.action_key == other.action_key
    }
}

impl<S> PartialEqSpecImpl for ActionTemplate<S> {
    open spec fn obeys_eq_spec() -> bool {
        true
    }

    open spec fn eq_spec(&self, other: &Self) -> bool {
        self.name@ == other.name@ && self.action_key@ == other.action_key@
    }
}

impl<S> Eq for ActionTemplate<S> {}

/// Specifies `<String as Hash>::hash`, which feeds the string to the hasher. Nothing is
/// stated of the hasher's state afterwards: it depends on the hasher.
pub assume_specification<H: core::hash::Hasher>[ <String as core::hash::Hash>::hash::<H> ](data: &String, state: &mut H);

/// ActionTemplates hash by their Name and ActionKey, as they compare.
impl<S> core::hash::Hash for ActionTemplate<S> {
    fn hash<H: core::hash::Hasher>(&self, state: &mut H) {
        self.name.hash(state);
        self.action_key.hash(state);
    }
}

} // verus!
