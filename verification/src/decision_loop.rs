//! The decision rules of the AI decision loop that do not involve scores.
//!
//! The decision engine runs for one AI at a time: it first decides whether the AI takes
//! part at all, then gathers the ActionTemplates its SmartObjects provide, skips those
//! its level of detail does not allow, and resolves the Curve of every Consideration
//! before scoring. Scoring itself is numeric and lives with the numeric layer.

use vstd::prelude::*;
use crate::curves::{spec_builtin_curve, builtin_curve_for_name, RegisteredCurve, UtilityCurveRegistry, resolved_as, spec_resolve_curve};
use crate::errors::{CurveMissResolution, NoCurveMatchStrategyConfig, curve_miss_resolution, spec_curve_miss_resolution};
use crate::lods::AiLevelOfDetailValue;
use crate::considerations::ShouldReinitConsiderationQueries;
use crate::context_fetchers::ShouldReinitCfQueries;

verus! {

/// Whether a decision request for an AI goes ahead.
#[derive(Debug, Clone, Copy, PartialEq, Eq, Structural)]
pub enum DecisionGate {
    /// The target is not an AI (or no longer exists): the request is ignored.
    NotAnAi,
    /// The AI is disabled by its level of detail: the request is ignored.
    DisabledByLod,
    /// The AI has no SmartObjects, so no Actions: it idles.
    NoSmartObjects,
    /// The decision proceeds.
    Proceed,
}

/// Which gate a decision request meets, given what is known of its target.
pub open spec fn spec_decision_gate(is_ai: bool, lod: Option<AiLevelOfDetailValue>, has_smart_objects: bool) -> DecisionGate {
    if !is_ai {
        DecisionGate::NotAnAi
    } else if lod matches Some(v) && v.level() == crate::lods::LOD_INACTIVE {
        DecisionGate::DisabledByLod
    } else if !has_smart_objects {
        DecisionGate::NoSmartObjects
    } else {
        DecisionGate::Proceed
    }
}

/// Decides whether the decision engine runs for a target: it must be an AI, not disabled
/// by its level of detail (an AI without a LOD is not disabled), and have SmartObjects.
pub fn decision_gate(is_ai: bool, lod: &Option<AiLevelOfDetailValue>, has_smart_objects: bool) -> (r: DecisionGate)
    ensures
        r == spec_decision_gate(is_ai, *lod, has_smart_objects),
{
    if !is_ai {
        return DecisionGate::NotAnAi;
    }
    let is_disabled = match lod {
        Some(v) => v.is_inactive(),
        None => false,
    };
    if is_disabled {
        return DecisionGate::DisabledByLod;
    }
    if !has_smart_objects {
        return DecisionGate::NoSmartObjects;
    }
    DecisionGate::Proceed
}

/// Once some AI has processed a decision in a tick, ContextFetcher queries need no
/// further reinitialization until the next decision is prepared.
pub fn disable_cf_reinit(should_reinit_cf_queries: Option<&mut ShouldReinitCfQueries>)
    ensures
        should_reinit_cf_queries matches Some(f) ==> !final(f).0,
{
    match should_reinit_cf_queries {
        Some(flag) => flag.set(false),
        None => {},
    }
}

/// Once some AI has processed a decision in a tick, Consideration queries need no
/// further reinitialization until the next decision is prepared.
pub fn disable_consideration_reinit(should_reinit_cons_queries: Option<&mut ShouldReinitConsiderationQueries>)
    ensures
        should_reinit_cons_queries matches Some(f) ==> !final(f).0,
{
    match should_reinit_cons_queries {
        Some(flag) => flag.set(false),
        None => {},
    }
}

/// How the Curve of one Consideration is obtained.
#[derive(Debug, Clone)]
pub enum ConsiderationCurve<C> {
    /// The key resolved to a Curve.
    Resolved(RegisteredCurve<C>),
    /// The key resolved to nothing; the strategy says what to do.
    Unresolved(CurveMissResolution),
}

/// Resolves the Curve key of a Consideration: through the curve registry if there is one,
/// else against the built-in Curves only; an unresolved key is handled by the configured
/// strategy (the default strategy when none is configured).
pub fn resolve_consideration_curve<C: Clone, R>(
    registry: Option<&UtilityCurveRegistry<C>>,
    curve_key: &str,
    config: Option<&NoCurveMatchStrategyConfig<R>>,
) -> (r: ConsiderationCurve<C>)
    ensures
        ({
            let expected = match registry {
                Some(reg) => spec_resolve_curve(reg@, curve_key@),
                None => match spec_builtin_curve(curve_key@) {
                    Some(b) => Some(RegisteredCurve::Builtin(b)),
                    None => None,
                },
            };
            match r {
                ConsiderationCurve::Resolved(c) => expected is Some && resolved_as(Some(c), expected),
                ConsiderationCurve::Unresolved(m) => expected is None && m == spec_curve_miss_resolution(config),
            }
        }),
{
    let resolved = match registry {
        Some(reg) => reg.get_curve_by_name(curve_key),
        None => match builtin_curve_for_name(curve_key) {
            Some(b) => Some(RegisteredCurve::Builtin(b)),
            None => None,
        },
    };
    match resolved {
        Some(c) => ConsiderationCurve::Resolved(c),
        None => ConsiderationCurve::Unresolved(curve_miss_resolution(config)),
    }
}

/// A disabled AI never decides, and an AI that is not disabled and has SmartObjects always does.
pub proof fn law_decision_gate(is_ai: bool, lod: Option<AiLevelOfDetailValue>, has_smart_objects: bool)
    ensures
        lod matches Some(v) && v.level() == crate::lods::LOD_INACTIVE ==> spec_decision_gate(is_ai, lod, has_smart_objects) != DecisionGate::Proceed,
        is_ai && has_smart_objects && !(lod matches Some(v) && v.level() == crate::lods::LOD_INACTIVE)
            ==> spec_decision_gate(is_ai, lod, has_smart_objects) == DecisionGate::Proceed,
{
}

} // verus!
