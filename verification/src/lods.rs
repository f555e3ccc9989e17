//! AI LODs (Levels of Detail).
//!
//! Rather than processing the same AI logic all the time, a separate system decides
//! how 'active' each AI controller should be. An ActionTemplate is skipped if its AI's
//! current LOD is not between the template's `lod_min` and `lod_max`.
//!
//! By default all AIs run at `LOD_NORMAL`, and if not specified otherwise the min LOD
//! for any Action is `LOD_NORMAL` and the max LOD is `LOD_MINIMAL`. Lower values mean
//! more detail.

use vstd::prelude::*;
use crate::types::AiLodLevelPrimitive;

verus! {

/// Absolutely everything that runs at full precision should run.
pub const LOD_ELEVATED: AiLodLevelPrimitive = 0u8;

/// The usual mode of operation of an NPC near the player.
pub const LOD_NORMAL: AiLodLevelPrimitive = 8u8;

/// The lowest level of detail possible before the AI doesn't run at all.
pub const LOD_MINIMAL: AiLodLevelPrimitive = 254u8;

/// Indicates the AI is entirely disabled.
pub const LOD_INACTIVE: AiLodLevelPrimitive = 255u8;

#[derive(Debug, Clone, Copy, PartialEq, Eq, Structural)]
pub struct AiLevelOfDetailValue(AiLodLevelPrimitive);

impl AiLevelOfDetailValue {
    /// The primitive level held.
    pub closed spec fn level(self) -> AiLodLevelPrimitive {
        self.0
    }

    pub fn new(level: AiLodLevelPrimitive) -> (r: Self)
        ensures r.level() == level,
    {
        Self(level)
    }

    pub fn new_const<const LVL: u8>() -> (r: Self)
        ensures r.level() == LVL,
    {
        Self(LVL)
    }

    pub fn to_primitive(self) -> (r: AiLodLevelPrimitive)
        ensures r == self.level(),
    {
        self.0
    }

    pub fn is_inactive(&self) -> (r: bool)
        ensures r == (self.level() == LOD_INACTIVE),
    {
        self.0 == LOD_INACTIVE
    }
}

impl Default for AiLevelOfDetailValue {
    fn default() -> (r: Self)
        ensures r.level() == LOD_NORMAL,
    {
        Self(LOD_NORMAL)
    }
}

/// The current level of detail of an AI.
#[derive(Debug, Clone, Copy, PartialEq, Eq, Structural)]
pub struct AiLevelOfDetail {
    lod: AiLevelOfDetailValue,
}

impl AiLevelOfDetail {
    pub closed spec fn current(self) -> AiLevelOfDetailValue {
        self.lod
    }

    pub fn new(level: AiLevelOfDetailValue) -> (r: Self)
        ensures r.current() == level,
    {
        Self { lod: level }
    }

    pub fn new_from_value(level: AiLodLevelPrimitive) -> (r: Self)
        ensures r.current().level() == level,
    {
        Self { lod: AiLevelOfDetailValue::new(level) }
    }

    pub fn new_const_from_value<const LVL: u8>() -> (r: Self)
        ensures r.current().level() == LVL,
    {
        Self { lod: AiLevelOfDetailValue::new_const::<LVL>() }
    }

    pub fn get_current_lod(&self) -> (r: AiLevelOfDetailValue)
        ensures r == self.current(),
    {
        self.lod
    }
}

impl Default for AiLevelOfDetail {
    fn default() -> (r: Self)
        ensures r.current().level() == LOD_NORMAL,
    {
        Self { lod: AiLevelOfDetailValue::default() }
    }
}

/// Whether a template with the given LOD bounds is processed by an AI at `lod`
/// (an AI with no LOD runs at `LOD_NORMAL`; absent bounds are `LOD_NORMAL`..=`LOD_MINIMAL`).
pub open spec fn spec_lod_range_admits(
    lod_min: Option<AiLodLevelPrimitive>,
    lod_max: Option<AiLodLevelPrimitive>,
    lod: Option<AiLevelOfDetailValue>,
) -> bool {
    let qry = match lod {
        Some(v) => v.level(),
        None => LOD_NORMAL,
    };
    let min = match lod_min {
        Some(m) => m,
        None => LOD_NORMAL,
    };
    let max = match lod_max {
        Some(m) => m,
        None => LOD_MINIMAL,
    };
    min <= qry && qry <= max
}

/// Checks if a template with LOD bounds `lod_min`/`lod_max` should be processed at a given LOD.
pub fn lod_range_admits(
    lod_min: Option<AiLodLevelPrimitive>,
    lod_max: Option<AiLodLevelPrimitive>,
    lod: &Option<AiLevelOfDetailValue>,
) -> (r: bool)
    ensures
        r == spec_lod_range_admits(lod_min, lod_max, *lod),
{
    let qry_lod = match lod {
        Some(lv) => lv.to_primitive(),
        None => LOD_NORMAL,
    };
    let min = match lod_min {
        Some(m) => m,
        None => LOD_NORMAL,
    };
    let max = match lod_max {
        Some(m) => m,
        None => LOD_MINIMAL,
    };
    qry_lod >= min && qry_lod <= max
}

/// With no bounds set, a template runs for every AI from `LOD_NORMAL` to `LOD_MINIMAL`:
/// in particular for an AI without a LOD, and never for an inactive AI.
pub proof fn law_default_lod_range(lod: Option<AiLevelOfDetailValue>)
    ensures
        spec_lod_range_admits(None, None, lod) <==> (match lod {
            Some(v) => LOD_NORMAL <= v.level() <= LOD_MINIMAL,
            None => true,
        }),
        spec_lod_range_admits(None, None, None),
        lod matches Some(v) && v.level() == LOD_INACTIVE ==> !spec_lod_range_admits(None, None, lod),
{
}

/// Each absent bound or LOD stands for its default, whatever the others are: an
/// unset `lod_min` is `LOD_NORMAL`, an unset `lod_max` is `LOD_MINIMAL`, and an AI
/// without a LOD runs at `LOD_NORMAL`; with everything given, a template runs exactly
/// when the AI's level lies between its bounds, both included.
pub proof fn law_lod_range_defaults(
    lod_min: Option<AiLodLevelPrimitive>,
    lod_max: Option<AiLodLevelPrimitive>,
    lod: Option<AiLevelOfDetailValue>,
    normal: AiLevelOfDetailValue,
    min: AiLodLevelPrimitive,
    max: AiLodLevelPrimitive,
    v: AiLevelOfDetailValue,
)
    ensures
        spec_lod_range_admits(None, lod_max, lod) == spec_lod_range_admits(Some(LOD_NORMAL), lod_max, lod),
        spec_lod_range_admits(lod_min, None, lod) == spec_lod_range_admits(lod_min, Some(LOD_MINIMAL), lod),
        normal.level() == LOD_NORMAL ==> spec_lod_range_admits(lod_min, lod_max, None)
            == spec_lod_range_admits(lod_min, lod_max, Some(normal)),
        spec_lod_range_admits(Some(min), Some(max), Some(v)) <==> (min <= v.level() && v.level() <= max),
{
}

/// An inactive AI runs only templates that explicitly allow `LOD_INACTIVE` as their max.
pub proof fn law_inactive_needs_explicit_max(
    lod_min: Option<AiLodLevelPrimitive>,
    lod_max: Option<AiLodLevelPrimitive>,
    v: AiLevelOfDetailValue,
)
    requires
        v.level() == LOD_INACTIVE,
        spec_lod_range_admits(lod_min, lod_max, Some(v)),
    ensures
        lod_max == Some(LOD_INACTIVE),
{
}

} // verus!
