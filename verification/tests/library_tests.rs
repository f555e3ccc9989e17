use cortex::asset_loading::{countdown, CountdownStep};
use cortex::considerations::{reinit_consideration_queries_needed, ShouldReinitConsiderationQueries};
use cortex::context_fetchers::{reinit_cf_queries_needed, ShouldReinitCfQueries};
use cortex::curves::{
    builtin_curve_for_name, BuiltinUtilityCurve, CurveSamplerMode, RegisteredCurve, UtilityCurveRegistry,
};
use cortex::decision_loop::{
    decision_gate, disable_cf_reinit, disable_consideration_reinit, resolve_consideration_curve, ConsiderationCurve,
    DecisionGate,
};
use cortex::entity_identifier::EntityIdentifier;
use cortex::errors::{
    curve_miss_resolution, CurveMissResolution, DynResolutionError, NoCurveMatchStrategy,
    NoCurveMatchStrategyConfig,
};
use cortex::actions::{ActionTemplate, ConsiderationData};
use cortex::events::{prepare_ai, AiActionDispatchToUserCode, AiDecisionRequested, GoaiActionEvent};
use cortex::action_state::ActionState;
use cortex::heartbeat::heartbeat_timed_out;
use cortex::identifiers::{ConsiderationIdentifier, ContextFetcherIdentifier, CurveIdentifier, DynFuncName};
use cortex::lods::{
    lod_range_admits, AiLevelOfDetail, AiLevelOfDetailValue, LOD_ELEVATED, LOD_INACTIVE, LOD_MINIMAL, LOD_NORMAL,
};
use cortex::pawn::Pawn;
use cortex::test_helpers::{exit_on_finish_all_tasks, mark_despawn_occurred, DespawnedAnyActionTrackers};
use bevy::reflect::func::FunctionRegistry;
use bevy::reflect::TypeRegistry;
use std::collections::hash_map::DefaultHasher;
use std::hash::{Hash, Hasher};
use cortex::registry::KeyedRegistry;
use cortex::smart_object::{gather_available_actions, ActionSet, ActionSetStore, SmartObjects};
use cortex::thread_safe_wrapper::ThreadSafeRef;
use cortex::type_registry::{
    from_string_identifier, from_string_identifier_typechecked, identifier_from_lookup, ReflectTypeRegistry,
    ReflectTypeRegistryKind,
    TypeRegistryFuncIdentifier, TypeRegistryIdentifier, TypeRegistryIdentifierBuildable,
    TypeRegistryTypeIdentifier,
};

type Resolver = fn(&String) -> u32;

fn fallback(_key: &String) -> u32 {
    7
}

#[test]
fn lod_values() {
    assert_eq!(LOD_ELEVATED, 0);
    assert_eq!(LOD_NORMAL, 8);
    assert_eq!(LOD_MINIMAL, 254);
    assert_eq!(LOD_INACTIVE, 255);
    assert_eq!(AiLevelOfDetailValue::new(3).to_primitive(), 3);
    assert_eq!(AiLevelOfDetailValue::new_const::<9>().to_primitive(), 9);
    assert_eq!(AiLevelOfDetailValue::default().to_primitive(), LOD_NORMAL);
    assert!(AiLevelOfDetailValue::new(255).is_inactive());
    assert!(!AiLevelOfDetailValue::new(254).is_inactive());
    assert_eq!(AiLevelOfDetail::new(AiLevelOfDetailValue::new(4)).get_current_lod().to_primitive(), 4);
    assert_eq!(AiLevelOfDetail::new_from_value(200).get_current_lod().to_primitive(), 200);
    assert_eq!(AiLevelOfDetail::new_const_from_value::<255>().get_current_lod().to_primitive(), 255);
    assert_eq!(AiLevelOfDetail::default().get_current_lod().to_primitive(), LOD_NORMAL);
}

#[test]
fn lod_default_range() {
    assert!(lod_range_admits(None, None, &None));
    assert!(lod_range_admits(None, None, &Some(AiLevelOfDetailValue::new(LOD_NORMAL))));
    assert!(lod_range_admits(None, None, &Some(AiLevelOfDetailValue::new(LOD_MINIMAL))));
    assert!(!lod_range_admits(None, None, &Some(AiLevelOfDetailValue::new(LOD_ELEVATED))));
    assert!(!lod_range_admits(None, None, &Some(AiLevelOfDetailValue::new(LOD_INACTIVE))));
}

#[test]
fn lod_explicit_range_uses_min_and_max() {
    let lvl = |l: u8| Some(AiLevelOfDetailValue::new(l));
    assert!(lod_range_admits(Some(0), Some(4), &lvl(0)));
    assert!(lod_range_admits(Some(0), Some(4), &lvl(4)));
    assert!(!lod_range_admits(Some(0), Some(4), &lvl(5)));
    assert!(!lod_range_admits(Some(0), Some(4), &None));
    assert!(lod_range_admits(Some(100), None, &lvl(254)));
    assert!(!lod_range_admits(Some(100), None, &lvl(255)));
    assert!(lod_range_admits(None, Some(255), &lvl(255)));
}

#[test]
fn strategy_config_setters() {
    let mut config: NoCurveMatchStrategyConfig<Resolver> = NoCurveMatchStrategyConfig::default();
    assert!(matches!(config.0, NoCurveMatchStrategy::Panic));
    config.set_silently_use_default(fallback).set_panic().set_panic();
    assert!(matches!(config.0, NoCurveMatchStrategy::Panic));
    config.set_skip_action();
    assert!(matches!(config.0, NoCurveMatchStrategy::SkipActionWithLog));
    config.set_skip_consideration().set_panic();
    assert!(matches!(config.0, NoCurveMatchStrategy::Panic));
    config.set_log_and_use_default(fallback);
    match &config.0 {
        NoCurveMatchStrategy::DefaultCurveWithLog(f) => assert_eq!(f(&"X".to_string()), 7),
        _ => panic!("expected a logging fallback"),
    }
    config.set_silently_use_default(fallback);
    assert!(matches!(config.0, NoCurveMatchStrategy::DefaultCurveWithoutLog(_)));
    config.set(NoCurveMatchStrategy::skip_consideration());
    assert!(matches!(config.0, NoCurveMatchStrategy::SkipConsiderationWithLog));
    assert!(matches!(NoCurveMatchStrategy::<Resolver>::panic(), NoCurveMatchStrategy::Panic));
    assert!(matches!(NoCurveMatchStrategy::<Resolver>::skip_action(), NoCurveMatchStrategy::SkipActionWithLog));
    assert!(matches!(NoCurveMatchStrategy::<Resolver>::default(), NoCurveMatchStrategy::Panic));
    assert!(matches!(
        NoCurveMatchStrategy::<Resolver>::quietly_default_to(fallback),
        NoCurveMatchStrategy::DefaultCurveWithoutLog(_)
    ));
}

#[test]
fn strategy_resolutions() {
    assert_eq!(curve_miss_resolution::<Resolver>(None), CurveMissResolution::Abort);
    let mk = |s: NoCurveMatchStrategy<Resolver>| NoCurveMatchStrategyConfig(s);
    assert_eq!(curve_miss_resolution(Some(&mk(NoCurveMatchStrategy::Panic))), CurveMissResolution::Abort);
    assert_eq!(
        curve_miss_resolution(Some(&mk(NoCurveMatchStrategy::SkipConsiderationWithLog))),
        CurveMissResolution::SkipConsideration
    );
    assert_eq!(
        curve_miss_resolution(Some(&mk(NoCurveMatchStrategy::SkipActionWithLog))),
        CurveMissResolution::SkipAction
    );
    assert_eq!(
        curve_miss_resolution(Some(&mk(NoCurveMatchStrategy::log_and_default_to(fallback)))),
        CurveMissResolution::Fallback { log: true }
    );
    assert_eq!(
        curve_miss_resolution(Some(&mk(NoCurveMatchStrategy::quietly_default_to(fallback)))),
        CurveMissResolution::Fallback { log: false }
    );
}

#[test]
fn builtin_curve_keys() {
    let keys = [
        ("ConstZero", BuiltinUtilityCurve::ConstZero),
        ("ConstMax", BuiltinUtilityCurve::ConstMax),
        ("ConstHalf", BuiltinUtilityCurve::ConstHalf),
        ("AtLeast", BuiltinUtilityCurve::AtLeast),
        ("LessThan", BuiltinUtilityCurve::LessThan),
        ("Equals", BuiltinUtilityCurve::Equals),
        ("NotEquals", BuiltinUtilityCurve::NotEquals),
        ("Linear", BuiltinUtilityCurve::Linear),
        ("AntiLinear", BuiltinUtilityCurve::AntiLinear),
        ("Linear25%SoftLeak", BuiltinUtilityCurve::Linear25pSoftLeak),
        ("AntiLinear25%SoftLeak", BuiltinUtilityCurve::AntiLinear25pSoftLeak),
        ("Square", BuiltinUtilityCurve::Square),
        ("AntiSquare", BuiltinUtilityCurve::AntiSquare),
        ("ExponentialIn", BuiltinUtilityCurve::ExponentialIn),
        ("AntiExponentialIn", BuiltinUtilityCurve::AntiExponentialIn),
        ("Triangle", BuiltinUtilityCurve::Triangle),
        ("AntiTriangle", BuiltinUtilityCurve::AntiTriangle),
        ("QuadGauss", BuiltinUtilityCurve::QuadraticQuasiGauss),
        ("AntiQuadGauss", BuiltinUtilityCurve::AntiQuadraticQuasiGauss),
    ];
    for (k, c) in keys {
        assert_eq!(builtin_curve_for_name(k), Some(c), "{}", k);
    }
    assert_eq!(builtin_curve_for_name("linear"), None);
    assert_eq!(builtin_curve_for_name("QuadraticQuasiGauss"), None);
    assert_eq!(builtin_curve_for_name(""), None);
    assert_eq!(BuiltinUtilityCurve::AntiLinear.sampler_mode(), CurveSamplerMode::INVERSE);
    assert_eq!(BuiltinUtilityCurve::LessThan.sampler_mode(), CurveSamplerMode::INVERSE);
    assert_eq!(BuiltinUtilityCurve::Linear.sampler_mode(), CurveSamplerMode::FORWARD);
    assert_eq!(BuiltinUtilityCurve::ConstMax.sampler_mode(), CurveSamplerMode::FORWARD);
}

#[test]
fn curve_registry_read_after_write() {
    let mut reg: UtilityCurveRegistry<u32> = UtilityCurveRegistry::new();
    assert!(reg.get_curve_by_name("e2e::Leaky").is_none());
    assert_eq!(reg.register_curve(5, "e2e::Leaky".to_string()), Ok(5));
    assert!(matches!(reg.get_curve_by_name("e2e::Leaky"), Some(RegisteredCurve::Custom(5))));
    // built-in keys cannot be taken over
    assert_eq!(reg.register_curve(6, "Linear".to_string()), Err(()));
    assert!(matches!(
        reg.get_curve_by_name("Linear"),
        Some(RegisteredCurve::Builtin(BuiltinUtilityCurve::Linear))
    ));
    // the registration hook replaces earlier registrations and reports it
    assert!(reg.register_utility_curve(8, "e2e::Leaky".to_string()));
    assert!(!reg.register_utility_curve(9, "e2e::Other".to_string()));
    assert!(matches!(reg.get_curve_by_name("e2e::Leaky"), Some(RegisteredCurve::Custom(8))));
    assert!(!reg.register_utility_curve(1, "Square".to_string()));
    assert!(matches!(
        reg.get_curve_by_name("Square"),
        Some(RegisteredCurve::Builtin(BuiltinUtilityCurve::Square))
    ));
}

#[test]
fn consideration_curve_resolution() {
    let mut reg: UtilityCurveRegistry<u32> = UtilityCurveRegistry::new();
    reg.register_curve(3, "Mine".to_string()).unwrap();
    let skip = NoCurveMatchStrategyConfig::<Resolver>(NoCurveMatchStrategy::SkipActionWithLog);
    assert!(matches!(
        resolve_consideration_curve(Some(&reg), "Mine", Some(&skip)),
        ConsiderationCurve::Resolved(RegisteredCurve::Custom(3))
    ));
    assert!(matches!(
        resolve_consideration_curve::<u32, Resolver>(None, "Mine", None),
        ConsiderationCurve::Unresolved(CurveMissResolution::Abort)
    ));
    assert!(matches!(
        resolve_consideration_curve::<u32, Resolver>(None, "Square", None),
        ConsiderationCurve::Resolved(RegisteredCurve::Builtin(BuiltinUtilityCurve::Square))
    ));
    assert!(matches!(
        resolve_consideration_curve(Some(&reg), "Nope", Some(&skip)),
        ConsiderationCurve::Unresolved(CurveMissResolution::SkipAction)
    ));
}

#[test]
fn decision_gates() {
    let inactive = Some(AiLevelOfDetailValue::new(LOD_INACTIVE));
    assert_eq!(decision_gate(false, &None, true), DecisionGate::NotAnAi);
    assert_eq!(decision_gate(true, &inactive, true), DecisionGate::DisabledByLod);
    assert_eq!(decision_gate(true, &None, false), DecisionGate::NoSmartObjects);
    assert_eq!(decision_gate(true, &None, true), DecisionGate::Proceed);
    assert_eq!(decision_gate(true, &Some(AiLevelOfDetailValue::new(LOD_MINIMAL)), true), DecisionGate::Proceed);
}

#[test]
fn reinit_flags() {
    assert!(ShouldReinitCfQueries::default().get());
    assert!(ShouldReinitConsiderationQueries::default().get());
    let mut f = ShouldReinitCfQueries::default();
    f.set(false);
    assert!(!reinit_cf_queries_needed(Some(&f)));
    assert!(reinit_cf_queries_needed(None));
    let mut g = ShouldReinitConsiderationQueries::default();
    g.set(false);
    assert!(!reinit_consideration_queries_needed(Some(&g)));
    g.set(true);
    assert!(reinit_consideration_queries_needed(Some(&g)));
    assert!(reinit_consideration_queries_needed(None));
}

#[test]
fn gather_actions_from_smart_objects() {
    let mut store: ActionSetStore<&str> = ActionSetStore::new();
    store.upsert(ActionSet::new("A".to_string(), vec!["a1", "a2"]));
    store.upsert(ActionSet::new("B".to_string(), vec!["b1"]));
    let sos = SmartObjects::new(vec!["B".to_string(), "Missing".to_string(), "A".to_string()]);
    assert_eq!(gather_available_actions(&sos, &store), vec!["b1", "a1", "a2"]);
    store.upsert(ActionSet::new("B".to_string(), vec![]));
    assert_eq!(gather_available_actions(&sos.clone(), &store), vec!["a1", "a2"]);
}

#[test]
fn gathering_is_compositional() {
    let mut store: ActionSetStore<&str> = ActionSetStore::new();
    store.upsert(ActionSet::new("A".to_string(), vec!["a1", "a2"]));
    store.upsert(ActionSet::new("B".to_string(), vec!["b1"]));
    let gather = |keys: &[&str]| {
        gather_available_actions(&SmartObjects::new(keys.iter().map(|k| k.to_string()).collect()), &store)
    };
    let mut joined = gather(&["A"]);
    joined.extend(gather(&["B", "A"]));
    assert_eq!(gather(&["A", "B", "A"]), joined);
    assert_eq!(gather(&["A", "Nowhere"]), gather(&["A"]));
}

#[test]
fn identifiers_keep_their_strings() {
    assert_eq!(ContextFetcherIdentifier::from_string("cf".to_string()).as_str(), "cf");
    assert_eq!(CurveIdentifier::from("Linear".to_string()).as_str(), "Linear");
    assert_eq!(CurveIdentifier::from_string("c".to_string()).as_string(), "c");
    let c = ConsiderationIdentifier::from("e2e::One".to_string());
    assert_eq!(c.to_string(), "e2e::One");
    assert_eq!(c.as_str(), "e2e::One");
    assert_eq!(DynFuncName::from("f".to_string()).as_str(), "f");
    let built: CurveIdentifier = TypeRegistryIdentifierBuildable::build_from_string("x".to_string());
    assert_eq!(built.as_str(), "x");
}

#[test]
fn entity_identifier_equality() {
    let a = EntityIdentifier::from(5u64);
    let b = EntityIdentifier::from((5u64, "Bob".to_string()));
    let c = EntityIdentifier::from((5u64, "Robert".to_string()));
    assert_eq!(a.entity(), 5);
    assert_eq!(b.entity(), 5);
    assert!(a == EntityIdentifier::Entity(5));
    assert!(a == b);
    assert!(b == a);
    assert!(b == c);
    assert!(EntityIdentifier::Entity(5) == EntityIdentifier::EntityAndName(5, "Bob".to_string()));
    assert!(a != EntityIdentifier::Entity(6));
    assert!(b != EntityIdentifier::EntityAndName(6, "Bob".to_string()));
    assert_eq!(*b, 5);
}

#[test]
fn entity_identifier_hashes_by_entity() {
    let digest = |id: &EntityIdentifier| {
        let mut h = DefaultHasher::new();
        id.hash(&mut h);
        h.finish()
    };
    let named = EntityIdentifier::from((5u64, "Bob".to_string()));
    let renamed = EntityIdentifier::from((5u64, "Robert".to_string()));
    let mut plain = DefaultHasher::new();
    5u64.hash(&mut plain);
    assert_eq!(digest(&named), digest(&renamed));
    assert_eq!(digest(&named), plain.finish());
    let mut set = std::collections::HashSet::new();
    set.insert(named);
    assert!(set.contains(&renamed));
    assert!(set.contains(&EntityIdentifier::from(5u64)));
    assert!(!set.contains(&EntityIdentifier::from(6u64)));
}

#[test]
fn pawn_accessors() {
    assert_eq!(Pawn::new(Some(3)).to_entity(), Some(3));
    assert_eq!(Pawn::new_empty().to_entity(), None);
    assert_eq!(Pawn::new_populated(9).as_entity(), Some(&9));
    assert_eq!(Pawn::default().as_entity(), None);
}

#[test]
fn thread_safe_ref_shares_value() {
    let r = ThreadSafeRef::new(vec![1, 2, 3]);
    let r2 = r.clone();
    assert_eq!(*r2.get(), vec![1, 2, 3]);
    assert!(std::sync::Arc::ptr_eq(r.as_arc(), r2.as_arc()));
    let from_arc = ThreadSafeRef::new_from_ref(std::sync::Arc::new(4u8));
    assert_eq!(*from_arc.get(), 4);
}

#[test]
fn thread_safe_ref_conversions_and_comparisons() {
    let arc = std::sync::Arc::new(7u32);
    let r = ThreadSafeRef::from(arc.clone());
    assert_eq!(*r, 7);
    assert!(std::sync::Arc::ptr_eq(r.as_ref(), &arc));
    let same = ThreadSafeRef::new(7u32);
    let bigger = ThreadSafeRef::new(9u32);
    assert!(r == same);
    assert!(r != bigger);
    assert_eq!(r.partial_cmp(&bigger), Some(std::cmp::Ordering::Less));
    assert!(bigger > same);
    let d: ThreadSafeRef<u32> = ThreadSafeRef::default();
    assert_eq!(*d, 0);
}

#[test]
fn keyed_registry_read_after_write() {
    let mut reg: KeyedRegistry<u32> = KeyedRegistry::new();
    assert!(reg.get("a").is_none());
    assert!(!reg.register("a".to_string(), 1));
    assert!(!reg.register("b".to_string(), 2));
    assert_eq!(reg.get("a"), Some(&1));
    assert!(reg.register("a".to_string(), 3));
    assert_eq!(reg.get("a"), Some(&3));
    assert_eq!(reg.get("b"), Some(&2));
    assert!(reg.get("c").is_none());
    assert_eq!(reg.keys(), &vec!["a".to_string(), "b".to_string()]);
}

#[test]
fn type_registry_identifiers() {
    let t = identifier_from_lookup("a::B".to_string(), ReflectTypeRegistryKind::AppType, true).unwrap();
    assert!(matches!(t, TypeRegistryIdentifier::AppType(_)));
    assert!(t.is_any_type() && !t.is_any_func() && !t.is_app_func() && !t.is_nonapp_func());
    assert_eq!(t.as_identifier_string(), "a::B");
    assert_eq!(t.clone().try_to_any_type().unwrap().0, "a::B");
    assert!(t.try_to_any_func().is_none());
    let f = identifier_from_lookup("f".to_string(), ReflectTypeRegistryKind::Func, true).unwrap();
    assert!(f.is_nonapp_func() && f.is_any_func() && !f.is_any_type());
    let g = identifier_from_lookup("g".to_string(), ReflectTypeRegistryKind::AppFunc, true).unwrap();
    assert!(g.is_app_func());
    let h = identifier_from_lookup("h".to_string(), ReflectTypeRegistryKind::Type, true).unwrap();
    assert!(matches!(h, TypeRegistryIdentifier::Type(TypeRegistryTypeIdentifier(_))));
    match identifier_from_lookup("nope".to_string(), ReflectTypeRegistryKind::Type, false) {
        Err(DynResolutionError::NotInRegistry(s)) => assert_eq!(s, "nope"),
        _ => panic!("expected NotInRegistry"),
    }
    let _unused = TypeRegistryFuncIdentifier("x".to_string());
}

fn double(x: i32) -> i32 {
    x * 2
}

#[test]
fn registry_lookups_in_bevy_registries() {
    let mut types = TypeRegistry::empty();
    types.register::<u32>();
    let found = from_string_identifier("u32".to_string(), &ReflectTypeRegistry::Type(&types)).unwrap();
    assert!(matches!(found, TypeRegistryIdentifier::Type(_)));
    assert_eq!(found.as_identifier_string(), "u32");
    let app_found = from_string_identifier("u32".to_string(), &ReflectTypeRegistry::AppType(&types)).unwrap();
    assert!(matches!(app_found, TypeRegistryIdentifier::AppType(_)));
    match from_string_identifier("u64".to_string(), &ReflectTypeRegistry::Type(&types)) {
        Err(DynResolutionError::NotInRegistry(s)) => assert_eq!(s, "u64"),
        _ => panic!("expected NotInRegistry"),
    }

    let mut functions = FunctionRegistry::default();
    functions.register_with_name("double", double).unwrap();
    let func = from_string_identifier("double".to_string(), &ReflectTypeRegistry::Func(&functions)).unwrap();
    assert!(func.is_nonapp_func());
    let app_func = from_string_identifier("double".to_string(), &ReflectTypeRegistry::AppFunc(&functions)).unwrap();
    assert!(app_func.is_app_func());
    assert!(from_string_identifier("triple".to_string(), &ReflectTypeRegistry::AppFunc(&functions)).is_err());
    assert!(from_string_identifier("double".to_string(), &ReflectTypeRegistry::Type(&types)).is_err());
}

#[test]
fn typechecked_registry_lookup() {
    assert_eq!(from_string_identifier_typechecked("T".to_string(), Some(true)).unwrap(), "T");
    match from_string_identifier_typechecked("T".to_string(), Some(false)) {
        Err(DynResolutionError::UnexpectedType(s)) => assert_eq!(s, "T"),
        _ => panic!("expected UnexpectedType"),
    }
    match from_string_identifier_typechecked("T".to_string(), None) {
        Err(DynResolutionError::NotInRegistry(s)) => assert_eq!(s, "T"),
        _ => panic!("expected NotInRegistry"),
    }
}

#[test]
fn action_event_slots() {
    let e = GoaiActionEvent::<u8>::from_id_and_context(3, Some(1)).unwrap();
    assert!(matches!(e, GoaiActionEvent::Three(ActionState::Running, Some(1))));
    assert_eq!(*e.get_state(), ActionState::Running);
    assert_eq!(*e.get_context(), Some(1));
    // id 9 selects the first slot
    let nine = GoaiActionEvent::<u8>::from_id_and_context(9, None).unwrap();
    assert!(matches!(nine, GoaiActionEvent::Zero(ActionState::Running, None)));
    let sixteen = GoaiActionEvent::<u8>::from_id_and_context(16, None).unwrap();
    assert!(matches!(sixteen, GoaiActionEvent::Sixteen(..)));
    match GoaiActionEvent::<u8>::from_id_and_context(17, None) {
        Err(msg) => assert_eq!(msg, "Id 17 outside of supported range (max: 16)"),
        Ok(_) => panic!("expected an error"),
    }
    for id in [20u32, 105, 4000, u32::MAX] {
        match GoaiActionEvent::<u8>::from_id_and_context(id, None) {
            Err(msg) => assert_eq!(msg, format!("Id {} outside of supported range (max: 16)", id)),
            Ok(_) => panic!("expected an error"),
        }
    }
}

#[test]
fn action_templates() {
    let cons = ConsiderationData::new(
        ConsiderationIdentifier::from_string("e2e::One".to_string()),
        CurveIdentifier::from_string("Linear".to_string()),
        0i32,
        3i32,
    );
    let t = ActionTemplate::new(
        "ExampleAction".to_string(),
        ContextFetcherIdentifier::from_string("cf".to_string()),
        vec![cons.clone()],
        1i32,
        "e2e::ExampleAction".to_string(),
        None,
        None,
    );
    assert_eq!(t.considerations[0].max, 3);
    assert!(t.is_within_lod_range(&None));
    assert!(!t.is_within_lod_range(&Some(AiLevelOfDetailValue::new(LOD_INACTIVE))));
    // the template's max LOD bounds it from above
    let narrow = ActionTemplate::new("N".to_string(), ContextFetcherIdentifier::from_string("cf".to_string()), vec![cons], 2i32, "k".to_string(), Some(0), Some(4));
    assert!(narrow.is_within_lod_range(&Some(AiLevelOfDetailValue::new(4))));
    assert!(!narrow.is_within_lod_range(&Some(AiLevelOfDetailValue::new(5))));
    // equality looks at the name and the key only
    let mut same = t.clone();
    same.priority = 9;
    same.lod_max = Some(3);
    assert!(same == t);
    let mut other = t.clone();
    other.action_key = "other".to_string();
    assert!(other != t);
}

#[test]
fn prepare_ai_keeps_target_and_smart_objects() {
    let req = AiDecisionRequested { entity: 8, smart_objects: Some(SmartObjects::new(vec!["S".to_string()])) };
    let mut cf = ShouldReinitCfQueries(false);
    let mut cons = ShouldReinitConsiderationQueries(false);
    let init = prepare_ai(&req, Some(&mut cf), Some(&mut cons));
    assert!(cf.get());
    assert!(cons.get());
    disable_cf_reinit(Some(&mut cf));
    disable_consideration_reinit(Some(&mut cons));
    assert!(!cf.get());
    assert!(!cons.get());
    assert_eq!(init.entity, 8);
    assert_eq!(*init.smart_objects.unwrap().actionset_refs.get(), vec!["S".to_string()]);
    let none = prepare_ai(&AiDecisionRequested { entity: 1, smart_objects: None }, None, None);
    assert!(none.smart_objects.is_none());
    let d = AiActionDispatchToUserCode::new(1, "k".to_string(), "n".to_string(), 2, 0.5f32);
    assert_eq!(d.action_score, 0.5);
}

#[test]
fn heartbeat_timeouts() {
    let s = 1_000_000_000u128;
    assert!(!heartbeat_timed_out(10 * s, 5 * s, 100 * s, 5 * s));
    assert!(heartbeat_timed_out(11 * s, 5 * s, 100 * s, 5 * s));
    // the clock wrapped since the last heartbeat
    assert!(!heartbeat_timed_out(2 * s, 98 * s, 100 * s, 5 * s));
    assert!(heartbeat_timed_out(4 * s, 98 * s, 100 * s, 5 * s));
}

#[test]
fn asset_countdown_steps() {
    assert_eq!(countdown(false, false), CountdownStep::Tick);
    assert_eq!(countdown(false, true), CountdownStep::Tick);
    assert_eq!(countdown(true, true), CountdownStep::Loaded);
    assert_eq!(countdown(true, false), CountdownStep::TimedOut);
}

#[test]
fn test_harness_exit_rule() {
    let mut marker = DespawnedAnyActionTrackers::default();
    assert!(!marker.0);
    assert!(!exit_on_finish_all_tasks(&marker, 0));
    mark_despawn_occurred(&mut marker);
    assert!(marker.0);
    assert!(!exit_on_finish_all_tasks(&marker, 2));
    assert!(exit_on_finish_all_tasks(&marker, 0));
}

#[test]
fn entity_identifier_converts_to_its_entity() {
    let named = EntityIdentifier::from((12u64, "Alice".to_string()));
    let bits: u64 = named.into();
    assert_eq!(bits, 12);
    let plain: u64 = EntityIdentifier::from(3u64).into();
    assert_eq!(plain, 3);
}

#[test]
fn action_templates_hash_by_name_and_key() {
    let digest = |t: &ActionTemplate<f32>| {
        let mut h = DefaultHasher::new();
        t.hash(&mut h);
        h.finish()
    };
    let mk = |name: &str, key: &str, priority: f32| {
        ActionTemplate::new(
            name.to_string(),
            ContextFetcherIdentifier::from("cf".to_string()),
            vec![],
            priority,
            key.to_string(),
            None,
            None,
        )
    };
    let a = mk("Walk", "GoTo", 1.0);
    let b = mk("Walk", "GoTo", 3.0);
    let c = mk("Run", "GoTo", 1.0);
    assert_eq!(digest(&a), digest(&b));
    assert_ne!(digest(&a), digest(&c));
    let mut set = std::collections::HashSet::new();
    set.insert(a);
    assert!(set.contains(&b));
    assert!(!set.contains(&c));
}

#[test]
fn identifiers_borrow_their_strings() {
    let cf = ContextFetcherIdentifier::from("cf".to_string());
    assert_eq!(std::borrow::Borrow::<str>::borrow(&cf), "cf");
    assert_eq!(std::borrow::Borrow::<String>::borrow(&cf), "cf");
    let cu = CurveIdentifier::from("Linear".to_string());
    assert_eq!(std::borrow::Borrow::<str>::borrow(&cu), "Linear");
    assert_eq!(std::borrow::Borrow::<String>::borrow(&cu), "Linear");
    let co = ConsiderationIdentifier::from("c".to_string());
    assert_eq!(std::borrow::Borrow::<str>::borrow(&co), "c");
    let f = DynFuncName::from("f".to_string());
    assert_eq!(std::borrow::Borrow::<str>::borrow(&f), "f");
    let p = Pawn::new(Some(4));
    assert_eq!(*std::borrow::Borrow::<Option<u64>>::borrow(&p), Some(4));
}
