//! Utility Curve keys.
//!
//! Curves themselves are numeric functions on the unit interval and live with the
//! numeric layer; this module holds the library's rules about Curve *keys*: which
//! keys name the built-in Curves, and the forward/inverse sampling modes.

use vstd::hash_map::StringHashMap;
use vstd::prelude::*;

verus! {

/// Specifies the transform used by a curve sampler.
/// - FORWARD => pass-through of the wrapped curve's clamped sample.
/// - INVERSE => `(1.0 - sample)` transform.
#[derive(Debug, Clone, Copy, PartialEq, Eq, Structural)]
pub enum CurveSamplerMode {
    FORWARD,
    INVERSE,
}

/// The Curves built into the library, each named by a fixed key.
#[derive(Debug, Clone, Copy, PartialEq, Eq, Structural)]
pub enum BuiltinUtilityCurve {
    ConstZero,
    ConstMax,
    ConstHalf,
    AtLeast,
    LessThan,
    Equals,
    NotEquals,
    Linear,
    AntiLinear,
    Linear25pSoftLeak,
    AntiLinear25pSoftLeak,
    Square,
    AntiSquare,
    ExponentialIn,
    AntiExponentialIn,
    Triangle,
    AntiTriangle,
    QuadraticQuasiGauss,
    AntiQuadraticQuasiGauss,
}

/// Calls `<str as PartialEq>::eq`: two string slices are equal iff they hold the same characters.
#[verifier::external_body]
fn str_eq(a: &str, b: &str) -> (r: bool)
    ensures
        r == (a@ == b@),
{
    a == b
}

/// The built-in Curve a key names, if any.
pub open spec fn spec_builtin_curve(name: Seq<char>) -> Option<BuiltinUtilityCurve> {
    if name == "ConstZero"@ {
        Some(BuiltinUtilityCurve::ConstZero)
    } else if name == "ConstMax"@ {
        Some(BuiltinUtilityCurve::ConstMax)
    } else if name == "ConstHalf"@ {
        Some(BuiltinUtilityCurve::ConstHalf)
    } else if name == "AtLeast"@ {
        Some(BuiltinUtilityCurve::AtLeast)
    } else if name == "LessThan"@ {
        Some(BuiltinUtilityCurve::LessThan)
    } else if name == "Equals"@ {
        Some(BuiltinUtilityCurve::Equals)
    } else if name == "NotEquals"@ {
        Some(BuiltinUtilityCurve::NotEquals)
    } else if name == "Linear"@ {
        Some(BuiltinUtilityCurve::Linear)
    } else if name == "AntiLinear"@ {
        Some(BuiltinUtilityCurve::AntiLinear)
    } else if name == "Linear25%SoftLeak"@ {
        Some(BuiltinUtilityCurve::Linear25pSoftLeak)
    } else if name == "AntiLinear25%SoftLeak"@ {
        Some(BuiltinUtilityCurve::AntiLinear25pSoftLeak)
    } else if name == "Square"@ {
        Some(BuiltinUtilityCurve::Square)
    } else if name == "AntiSquare"@ {
        Some(BuiltinUtilityCurve::AntiSquare)
    } else if name == "ExponentialIn"@ {
        Some(BuiltinUtilityCurve::ExponentialIn)
    } else if name == "AntiExponentialIn"@ {
        Some(BuiltinUtilityCurve::AntiExponentialIn)
    } else if name == "Triangle"@ {
        Some(BuiltinUtilityCurve::Triangle)
    } else if name == "AntiTriangle"@ {
        Some(BuiltinUtilityCurve::AntiTriangle)
    } else if name == "QuadGauss"@ {
        Some(BuiltinUtilityCurve::QuadraticQuasiGauss)
    } else if name == "AntiQuadGauss"@ {
        Some(BuiltinUtilityCurve::AntiQuadraticQuasiGauss)
    } else {
        None
    }
}

/// Resolves a key to one of the Curves included with the library; user-registered
/// Curves are not covered. Built-in keys take precedence over registered ones.
pub fn builtin_curve_for_name(curve_name: &str) -> (r: Option<BuiltinUtilityCurve>)
    ensures
        r == spec_builtin_curve(curve_name@),
{
    if str_eq(curve_name, "ConstZero") {
        Some(BuiltinUtilityCurve::ConstZero)
    } else if str_eq(curve_name, "ConstMax") {
        Some(BuiltinUtilityCurve::ConstMax)
    } else if str_eq(curve_name, "ConstHalf") {
        Some(BuiltinUtilityCurve::ConstHalf)
    } else if str_eq(curve_name, "AtLeast") {
        Some(BuiltinUtilityCurve::AtLeast)
    } else if str_eq(curve_name, "LessThan") {
        Some(BuiltinUtilityCurve::LessThan)
    } else if str_eq(curve_name, "Equals") {
        Some(BuiltinUtilityCurve::Equals)
    } else if str_eq(curve_name, "NotEquals") {
        Some(BuiltinUtilityCurve::NotEquals)
    } else if str_eq(curve_name, "Linear") {
        Some(BuiltinUtilityCurve::Linear)
    } else if str_eq(curve_name, "AntiLinear") {
        Some(BuiltinUtilityCurve::AntiLinear)
    } else if str_eq(curve_name, "Linear25%SoftLeak") {
        Some(BuiltinUtilityCurve::Linear25pSoftLeak)
    } else if str_eq(curve_name, "AntiLinear25%SoftLeak") {
        Some(BuiltinUtilityCurve::AntiLinear25pSoftLeak)
    } else if str_eq(curve_name, "Square") {
        Some(BuiltinUtilityCurve::Square)
    } else if str_eq(curve_name, "AntiSquare") {
        Some(BuiltinUtilityCurve::AntiSquare)
    } else if str_eq(curve_name, "ExponentialIn") {
        Some(BuiltinUtilityCurve::ExponentialIn)
    } else if str_eq(curve_name, "AntiExponentialIn") {
        Some(BuiltinUtilityCurve::AntiExponentialIn)
    } else if str_eq(curve_name, "Triangle") {
        Some(BuiltinUtilityCurve::Triangle)
    } else if str_eq(curve_name, "AntiTriangle") {
        Some(BuiltinUtilityCurve::AntiTriangle)
    } else if str_eq(curve_name, "QuadGauss") {
        Some(BuiltinUtilityCurve::QuadraticQuasiGauss)
    } else if str_eq(curve_name, "AntiQuadGauss") {
        Some(BuiltinUtilityCurve::AntiQuadraticQuasiGauss)
    } else {
        None
    }
}

impl BuiltinUtilityCurve {
    /// Whether the built-in Curve samples its base shape inverted (`1 - x`).
    pub open spec fn spec_sampler_mode(self) -> CurveSamplerMode {
        match self {
            BuiltinUtilityCurve::LessThan => CurveSamplerMode::INVERSE,
            BuiltinUtilityCurve::NotEquals => CurveSamplerMode::INVERSE,
            BuiltinUtilityCurve::AntiLinear => CurveSamplerMode::INVERSE,
            BuiltinUtilityCurve::AntiLinear25pSoftLeak => CurveSamplerMode::INVERSE,
            BuiltinUtilityCurve::AntiSquare => CurveSamplerMode::INVERSE,
            BuiltinUtilityCurve::AntiExponentialIn => CurveSamplerMode::INVERSE,
            BuiltinUtilityCurve::AntiTriangle => CurveSamplerMode::INVERSE,
            BuiltinUtilityCurve::AntiQuadraticQuasiGauss => CurveSamplerMode::INVERSE,
            _ => CurveSamplerMode::FORWARD,
        }
    }

    /// The sampling mode the built-in Curve wraps its base shape with.
    pub fn sampler_mode(&self) -> (r: CurveSamplerMode)
        ensures r == self.spec_sampler_mode(),
    {
        match self {
            BuiltinUtilityCurve::LessThan => CurveSamplerMode::INVERSE,
            BuiltinUtilityCurve::NotEquals => CurveSamplerMode::INVERSE,
            BuiltinUtilityCurve::AntiLinear => CurveSamplerMode::INVERSE,
            BuiltinUtilityCurve::AntiLinear25pSoftLeak => CurveSamplerMode::INVERSE,
            BuiltinUtilityCurve::AntiSquare => CurveSamplerMode::INVERSE,
            BuiltinUtilityCurve::AntiExponentialIn => CurveSamplerMode::INVERSE,
            BuiltinUtilityCurve::AntiTriangle => CurveSamplerMode::INVERSE,
            BuiltinUtilityCurve::AntiQuadraticQuasiGauss => CurveSamplerMode::INVERSE,
            _ => CurveSamplerMode::FORWARD,
        }
    }
}

/// What a Curve key resolves to: a built-in Curve, or a user Curve `C` registered under it.
#[derive(Debug, Clone)]
pub enum RegisteredCurve<C> {
    Builtin(BuiltinUtilityCurve),
    Custom(C),
}

/// A map that lets us request Utility Curves by a string key and register new entries for
/// custom Curves. Built-in keys always resolve to the built-in Curves.
#[verifier::reject_recursive_types(C)]
pub struct UtilityCurveRegistry<C> {
    mapping: StringHashMap<C>,
}

/// What a key resolves to against registrations `m`: built-in Curves first, then registrations.
pub open spec fn spec_resolve_curve<C>(m: Map<Seq<char>, C>, name: Seq<char>) -> Option<RegisteredCurve<C>> {
    match spec_builtin_curve(name) {
        Some(b) => Some(RegisteredCurve::Builtin(b)),
        None => if m.contains_key(name) {
            Some(RegisteredCurve::Custom(m[name]))
        } else {
            None
        },
    }
}

/// `r` is a copy of `expected`, a custom Curve being cloned.
pub open spec fn resolved_as<C: Clone>(r: Option<RegisteredCurve<C>>, expected: Option<RegisteredCurve<C>>) -> bool {
    match (r, expected) {
        (None, None) => true,
        (Some(RegisteredCurve::Builtin(a)), Some(RegisteredCurve::Builtin(b))) => a == b,
        (Some(RegisteredCurve::Custom(a)), Some(RegisteredCurve::Custom(b))) => cloned::<C>(b, a),
        _ => false,
    }
}

impl<C> View for UtilityCurveRegistry<C> {
    type V = Map<Seq<char>, C>;

    closed spec fn view(&self) -> Map<Seq<char>, C> {
        self.mapping@
    }
}

impl<C: Clone> UtilityCurveRegistry<C> {
    /// An empty registry.
    pub fn new() -> (r: Self)
        ensures r@ == Map::<Seq<char>, C>::empty(),
    {
        UtilityCurveRegistry { mapping: StringHashMap::new() }
    }

    /// Resolves a key: a built-in Curve if the key names one, else a copy of the Curve
    /// registered under it.
    pub fn get_curve_by_name(&self, name: &str) -> (r: Option<RegisteredCurve<C>>)
        ensures
            resolved_as(r, spec_resolve_curve(self@, name@)),
    {
        match builtin_curve_for_name(name) {
            Some(static_curve) => Some(RegisteredCurve::Builtin(static_curve)),
            None => match self.mapping.get(name) {
                Some(c) => Some(RegisteredCurve::Custom(c.clone())),
                None => None,
            },
        }
    }

    /// Registers a user Curve under `name`, handing back a copy of it; fails and leaves
    /// the registry unchanged if `name` is a built-in key.
    pub fn register_curve(&mut self, curve: C, name: String) -> (r: Result<C, ()>)
        ensures
            spec_builtin_curve(name@) is Some ==> r is Err && final(self)@ == old(self)@,
            spec_builtin_curve(name@) is None ==> r == Ok::<C, ()>(curve) && exists|stored: C|
                cloned::<C>(curve, stored) && final(self)@ == old(self)@.insert(name@, stored),
    {
        match builtin_curve_for_name(name.as_str()) {
            Some(_) => Err(()),
            None => {
                let stored = curve.clone();
                proof {
                    assert(cloned::<C>(curve, stored));
                }
                self.mapping.insert(name, stored);
                Ok(curve)
            },
        }
    }

    /// Registers a user Curve under `key`, replacing any earlier registration (which is
    /// reported by returning `true`). Built-in keys still resolve to the built-in Curves.
    pub fn register_utility_curve(&mut self, curve: C, key: String) -> (replaced: bool)
        ensures
            replaced == old(self)@.contains_key(key@),
            final(self)@ == old(self)@.insert(key@, curve),
    {
        let replaced = self.mapping.contains_key(key.as_str());
        self.mapping.insert(key, curve);
        replaced
    }
}

/// Whether a key starts with "Anti".
pub open spec fn has_anti_prefix(name: Seq<char>) -> bool {
    name.len() >= 4 && name[0] == 'A' && name[1] == 'n' && name[2] == 't' && name[3] == 'i'
}

/// The inverted built-in Curves are exactly those whose key starts with "Anti", and
/// `LessThan` and `NotEquals` (the inverses of `AtLeast` and `Equals`); every other
/// built-in Curve samples forward.
pub proof fn law_inverse_curves_are_anti_keys(name: Seq<char>)
    ensures
        spec_builtin_curve(name) matches Some(b) ==> (b.spec_sampler_mode() == CurveSamplerMode::INVERSE
            <==> (has_anti_prefix(name) || name == "LessThan"@ || name == "NotEquals"@)),
{
    if name == "ConstZero"@ {
        reveal_strlit("ConstZero");
        assert(!has_anti_prefix(name));
        reveal_strlit("LessThan");
        reveal_strlit("NotEquals");
        assert(name[0] != "LessThan"@[0] && name[0] != "NotEquals"@[0]);
        assert(name != "LessThan"@ && name != "NotEquals"@);
    } else if name == "ConstMax"@ {
        reveal_strlit("ConstMax");
        assert(!has_anti_prefix(name));
        reveal_strlit("LessThan");
        reveal_strlit("NotEquals");
        assert(name[0] != "LessThan"@[0] && name[0] != "NotEquals"@[0]);
        assert(name != "LessThan"@ && name != "NotEquals"@);
    } else if name == "ConstHalf"@ {
        reveal_strlit("ConstHalf");
        assert(!has_anti_prefix(name));
        reveal_strlit("LessThan");
        reveal_strlit("NotEquals");
        assert(name[0] != "LessThan"@[0] && name[0] != "NotEquals"@[0]);
        assert(name != "LessThan"@ && name != "NotEquals"@);
    } else if name == "AtLeast"@ {
        reveal_strlit("AtLeast");
        assert(!has_anti_prefix(name));
        reveal_strlit("LessThan");
        reveal_strlit("NotEquals");
        assert(name != "LessThan"@ && name != "NotEquals"@);
    } else if name == "LessThan"@ {
        reveal_strlit("LessThan");
        assert(!has_anti_prefix(name));
    } else if name == "Equals"@ {
        reveal_strlit("Equals");
        assert(!has_anti_prefix(name));
        reveal_strlit("LessThan");
        reveal_strlit("NotEquals");
        assert(name != "LessThan"@ && name != "NotEquals"@);
    } else if name == "NotEquals"@ {
        reveal_strlit("NotEquals");
        assert(!has_anti_prefix(name));
    } else if name == "Linear"@ {
        reveal_strlit("Linear");
        assert(!has_anti_prefix(name));
        reveal_strlit("LessThan");
        reveal_strlit("NotEquals");
        assert(name != "LessThan"@ && name != "NotEquals"@);
    } else if name == "AntiLinear"@ {
        reveal_strlit("AntiLinear");
        assert(has_anti_prefix(name));
        reveal_strlit("LessThan");
        reveal_strlit("NotEquals");
        assert(name != "LessThan"@ && name != "NotEquals"@);
    } else if name == "Linear25%SoftLeak"@ {
        reveal_strlit("Linear25%SoftLeak");
        assert(!has_anti_prefix(name));
        reveal_strlit("LessThan");
        reveal_strlit("NotEquals");
        assert(name != "LessThan"@ && name != "NotEquals"@);
    } else if name == "AntiLinear25%SoftLeak"@ {
        reveal_strlit("AntiLinear25%SoftLeak");
        assert(has_anti_prefix(name));
        reveal_strlit("LessThan");
        reveal_strlit("NotEquals");
        assert(name != "LessThan"@ && name != "NotEquals"@);
    } else if name == "Square"@ {
        reveal_strlit("Square");
        assert(!has_anti_prefix(name));
        reveal_strlit("LessThan");
        reveal_strlit("NotEquals");
        assert(name != "LessThan"@ && name != "NotEquals"@);
    } else if name == "AntiSquare"@ {
        reveal_strlit("AntiSquare");
        assert(has_anti_prefix(name));
        reveal_strlit("LessThan");
        reveal_strlit("NotEquals");
        assert(name != "LessThan"@ && name != "NotEquals"@);
    } else if name == "ExponentialIn"@ {
        reveal_strlit("ExponentialIn");
        assert(!has_anti_prefix(name));
        reveal_strlit("LessThan");
        reveal_strlit("NotEquals");
        assert(name != "LessThan"@ && name != "NotEquals"@);
    } else if name == "AntiExponentialIn"@ {
        reveal_strlit("AntiExponentialIn");
        assert(has_anti_prefix(name));
        reveal_strlit("LessThan");
        reveal_strlit("NotEquals");
        assert(name != "LessThan"@ && name != "NotEquals"@);
    } else if name == "Triangle"@ {
        reveal_strlit("Triangle");
        assert(!has_anti_prefix(name));
        reveal_strlit("LessThan");
        reveal_strlit("NotEquals");
        assert(name != "LessThan"@ && name != "NotEquals"@);
    } else if name == "AntiTriangle"@ {
        reveal_strlit("AntiTriangle");
        assert(has_anti_prefix(name));
        reveal_strlit("LessThan");
        reveal_strlit("NotEquals");
        assert(name != "LessThan"@ && name != "NotEquals"@);
    } else if name == "QuadGauss"@ {
        reveal_strlit("QuadGauss");
        assert(!has_anti_prefix(name));
        reveal_strlit("LessThan");
        reveal_strlit("NotEquals");
        assert(name != "LessThan"@ && name != "NotEquals"@);
    } else if name == "AntiQuadGauss"@ {
        reveal_strlit("AntiQuadGauss");
        assert(has_anti_prefix(name));
        reveal_strlit("LessThan");
        reveal_strlit("NotEquals");
        assert(name != "LessThan"@ && name != "NotEquals"@);
    }
}

/// Each inverted Curve and its forward counterpart sample in opposite modes: where both
/// `base` and "Anti" followed by `base` are built-in keys, `base` samples forward and
/// its "Anti" Curve samples inverted.
pub proof fn law_anti_curve_inverts_its_base(base: Seq<char>)
    ensures
        spec_builtin_curve(base) is Some && spec_builtin_curve("Anti"@ + base) is Some ==> {
            &&& spec_builtin_curve(base)->0.spec_sampler_mode() == CurveSamplerMode::FORWARD
            &&& spec_builtin_curve("Anti"@ + base)->0.spec_sampler_mode() == CurveSamplerMode::INVERSE
        },
{
    let a = "Anti"@ + base;
    reveal_strlit("Anti");
    reveal_strlit("LessThan");
    reveal_strlit("NotEquals");
    law_inverse_curves_are_anti_keys(a);
    law_inverse_curves_are_anti_keys(base);
    assert(has_anti_prefix(a));
    assert(base =~= a.subrange(4, a.len() as int));
    if a == "AntiLinear"@ {
        reveal_strlit("AntiLinear");
        reveal_strlit("Linear");
        assert(base =~= "Linear"@);
    } else if a == "AntiLinear25%SoftLeak"@ {
        reveal_strlit("AntiLinear25%SoftLeak");
        reveal_strlit("Linear25%SoftLeak");
        assert(base =~= "Linear25%SoftLeak"@);
    } else if a == "AntiSquare"@ {
        reveal_strlit("AntiSquare");
        reveal_strlit("Square");
        assert(base =~= "Square"@);
    } else if a == "AntiExponentialIn"@ {
        reveal_strlit("AntiExponentialIn");
        reveal_strlit("ExponentialIn");
        assert(base =~= "ExponentialIn"@);
    } else if a == "AntiTriangle"@ {
        reveal_strlit("AntiTriangle");
        reveal_strlit("Triangle");
        assert(base =~= "Triangle"@);
    } else if a == "AntiQuadGauss"@ {
        reveal_strlit("AntiQuadGauss");
        reveal_strlit("QuadGauss");
        assert(base =~= "QuadGauss"@);
    } else {
        reveal_strlit("ConstZero");
        reveal_strlit("ConstMax");
        reveal_strlit("ConstHalf");
        reveal_strlit("AtLeast");
        reveal_strlit("LessThan");
        reveal_strlit("Equals");
        reveal_strlit("NotEquals");
        reveal_strlit("Linear");
        reveal_strlit("Linear25%SoftLeak");
        reveal_strlit("Square");
        reveal_strlit("ExponentialIn");
        reveal_strlit("Triangle");
        reveal_strlit("QuadGauss");
        assert(a[0] == 'A' && a[1] == 'n');
        assert(spec_builtin_curve(a) is None);
    }
}

/// Read gives back the last write: a Curve registered under a non-built-in key is what
/// that key then resolves to; other keys resolve as before.
pub proof fn law_registered_curve_resolves<C>(m: Map<Seq<char>, C>, key: Seq<char>, c: C, other: Seq<char>)
    requires
        spec_builtin_curve(key) is None,
    ensures
        spec_resolve_curve(m.insert(key, c), key) == Some(RegisteredCurve::Custom(c)),
        other != key ==> spec_resolve_curve(m.insert(key, c), other) == spec_resolve_curve(m, other),
{
}

/// Built-in keys cannot be taken over: whatever is registered, a built-in key resolves
/// to its built-in Curve.
pub proof fn law_builtin_keys_win<C>(m: Map<Seq<char>, C>, key: Seq<char>)
    requires
        spec_builtin_curve(key) is Some,
    ensures
        spec_resolve_curve(m, key) == Some(RegisteredCurve::<C>::Builtin(spec_builtin_curve(key)->0)),
{
}

} // verus!
