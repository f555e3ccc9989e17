use cortex::action_runtime::{
    actiontracker_done_cleanup_system, create_tracker_for_picked_action, effective_spawn_config,
    tick_based_action_tracker_handler, tracker_extensions, ActionTracker, ActionTrackerSpawnConfig,
    TrackerExtension,
    ActionTrackerSpawnConfigBuilder, ActionTrackerSpawnRequested, ActionTrackerState,
    UserDefaultActionTrackerSpawnConfig,
};
use cortex::actions::{Action, ScoredAction};
use cortex::events::{trigger_dispatch_to_user_actions, AiActionPicked};
use cortex::action_state::{
    action_state_update_handler, ActionState, ActionStateUpdateEffect, ActionTrackerStates,
    AiActionStateChangeRequest,
};

const ALL: [ActionState; 7] = [
    ActionState::Queued,
    ActionState::Ready,
    ActionState::Running,
    ActionState::Paused,
    ActionState::Succeeded,
    ActionState::Failed,
    ActionState::Cancelled,
];

#[test]
fn action_state_layers_partition_states() {
    for s in ALL {
        let layers = [s.is_initial(), s.is_progressed(), s.is_terminal()];
        assert_eq!(layers.iter().filter(|b| **b).count(), 1, "{:?}", s);
        if s.should_process() {
            assert!(!s.is_terminal());
        }
    }
    assert!(ActionState::Queued.is_initial());
    assert!(ActionState::Ready.is_initial());
    assert!(ActionState::Running.is_progressed());
    assert!(ActionState::Paused.is_progressed());
    assert!(ActionState::Succeeded.is_terminal());
    assert!(ActionState::Failed.is_terminal());
    assert!(ActionState::Cancelled.is_terminal());
    assert!(ActionState::Ready.should_process());
    assert!(ActionState::Running.should_process());
    assert!(!ActionState::Queued.should_process());
    assert!(!ActionState::Paused.should_process());
    assert!(!ActionState::Failed.should_process());
}

#[test]
fn tracker_state_constructors_and_setter() {
    assert_eq!(ActionTrackerState::ready().0, ActionState::Ready);
    assert_eq!(ActionTrackerState::queued().0, ActionState::Queued);
    let mut t = ActionTrackerState::ready();
    t.set_state(ActionState::Running).set_state(ActionState::Paused);
    assert_eq!(*t.get_state(), ActionState::Paused);
}

fn req(entity: u64, action: &str, to: ActionState) -> AiActionStateChangeRequest {
    AiActionStateChangeRequest { entity, action: action.to_string(), to_state: to }
}

#[test]
fn update_handler_sets_existing_tracker_state() {
    let mut states = ActionTrackerStates::new();
    states.record(1, Some(ActionState::Ready));
    let effects = action_state_update_handler(&vec![req(1, "Walk", ActionState::Running)], &mut states);
    assert_eq!(effects.len(), 2);
    match &effects[0] {
        ActionStateUpdateEffect::Notify(c) => {
            assert_eq!(c.entity, 1);
            assert_eq!(c.action, "Walk");
            assert_eq!(c.from_state, Some(ActionState::Ready));
            assert_eq!(c.to_state, ActionState::Running);
        }
        other => panic!("unexpected {:?}", other),
    }
    assert!(matches!(effects[1], ActionStateUpdateEffect::SetState(1, ActionState::Running)));
    assert_eq!(states.get(1), Some(Some(ActionState::Running)));
}

#[test]
fn update_handler_last_request_wins() {
    let mut states = ActionTrackerStates::new();
    states.record(1, Some(ActionState::Ready));
    let effects = action_state_update_handler(
        &vec![
            req(1, "Walk", ActionState::Running),
            req(1, "Walk", ActionState::Failed),
        ],
        &mut states,
    );
    assert_eq!(states.get(1), Some(Some(ActionState::Failed)));
    // the second request sees the state the first one set
    match &effects[2] {
        ActionStateUpdateEffect::Notify(c) => assert_eq!(c.from_state, Some(ActionState::Running)),
        other => panic!("unexpected {:?}", other),
    }
}

#[test]
fn update_handler_inserts_for_entity_without_tracker() {
    let mut states = ActionTrackerStates::new();
    states.record(7, None);
    let effects = action_state_update_handler(
        &vec![req(7, "Eat", ActionState::Running), req(7, "Eat", ActionState::Succeeded)],
        &mut states,
    );
    assert_eq!(effects.len(), 4);
    match &effects[2] {
        ActionStateUpdateEffect::Notify(c) => assert_eq!(c.from_state, None),
        other => panic!("unexpected {:?}", other),
    }
    assert!(matches!(effects[1], ActionStateUpdateEffect::InsertState(7, ActionState::Running)));
    assert!(matches!(effects[3], ActionStateUpdateEffect::InsertState(7, ActionState::Succeeded)));
    // the insert is deferred: the handler still sees no tracker state
    assert_eq!(states.get(7), Some(None));
}

#[test]
fn update_handler_reports_missing_entity() {
    let mut states = ActionTrackerStates::new();
    let effects = action_state_update_handler(&vec![req(3, "Nap", ActionState::Ready)], &mut states);
    assert_eq!(effects.len(), 1);
    match &effects[0] {
        ActionStateUpdateEffect::MissingEntity(e, a) => {
            assert_eq!(*e, 3);
            assert_eq!(a, "Nap");
        }
        other => panic!("unexpected {:?}", other),
    }
    assert_eq!(states.get(3), None);
}

#[test]
fn tracker_states_later_record_wins() {
    let mut states = ActionTrackerStates::new();
    states.record(2, Some(ActionState::Queued));
    states.record(4, None);
    states.record(2, Some(ActionState::Paused));
    assert_eq!(states.get(2), Some(Some(ActionState::Paused)));
    assert_eq!(states.get(4), Some(None));
    assert_eq!(states.get(5), None);
}

#[test]
fn builder_defaults() {
    let c = ActionTrackerSpawnConfigBuilder::new().build();
    assert_eq!(
        c,
        ActionTrackerSpawnConfig {
            track_owner_ai: true,
            use_ticker: false,
            use_create_timer: false,
            use_runtime_timer: false,
            use_tick_timer: false,
        }
    );
    assert_eq!(ActionTrackerSpawnConfig::builder(), ActionTrackerSpawnConfigBuilder::default());
}

#[test]
fn builder_use_timers_defaults_timers() {
    let c = ActionTrackerSpawnConfigBuilder::new().set_use_ticker(true).set_use_timers(true).build();
    assert!(c.use_ticker && c.use_create_timer && c.use_runtime_timer && c.use_tick_timer);
    let c = ActionTrackerSpawnConfigBuilder::new().set_use_timers(true).build();
    assert!(c.use_create_timer && c.use_runtime_timer && !c.use_tick_timer);
    let c = ActionTrackerSpawnConfigBuilder::new()
        .set_use_timers(true)
        .set_use_create_timer(false)
        .set_use_tick_timer(true)
        .set_track_owner_ai(false)
        .set_use_runtime_timer(false)
        .build();
    assert!(!c.use_create_timer && !c.use_runtime_timer && c.use_tick_timer && !c.track_owner_ai);
}

#[test]
fn builder_round_trips_reference_config() {
    let c = ActionTrackerSpawnConfig {
        track_owner_ai: false,
        use_ticker: true,
        use_create_timer: true,
        use_runtime_timer: false,
        use_tick_timer: false,
    };
    assert_eq!(ActionTrackerSpawnConfigBuilder::from_reference_config(&c).build(), c);
}

#[test]
fn user_default_config_with_builder() {
    let mut res = UserDefaultActionTrackerSpawnConfig::default();
    assert!(res.config.is_none());
    res.with_config_builder(|b| b.set_use_ticker(true).set_use_timers(false));
    let c = res.config.unwrap();
    assert!(c.use_ticker && c.track_owner_ai && !c.use_tick_timer);
    // the second call starts from the stored config
    res.with_config_builder(|b| b.set_track_owner_ai(false));
    let c2 = res.config.unwrap();
    assert!(c2.use_ticker && !c2.track_owner_ai);
}

#[test]
fn spawn_config_falls_back_to_defaults() {
    let custom = ActionTrackerSpawnConfigBuilder::new().set_use_ticker(true).build();
    assert_eq!(effective_spawn_config(&Some(custom)), custom);
    assert_eq!(effective_spawn_config(&None), ActionTrackerSpawnConfigBuilder::new().build());
}

#[test]
fn cleanup_picks_terminal_trackers() {
    let trackers: Vec<(u64, ActionState)> = ALL.iter().enumerate().map(|(i, s)| (i as u64, *s)).collect();
    assert_eq!(actiontracker_done_cleanup_system(&trackers), vec![4, 5, 6]);
    assert!(actiontracker_done_cleanup_system(&vec![]).is_empty());
}

fn tracker(name: &str, score: i32) -> ActionTracker<i32> {
    ActionTracker(ScoredAction {
        action: Action { name: name.to_string(), context: 77, action_key: format!("key-{}", name) },
        score,
    })
}

#[test]
fn ticker_skips_unprocessable_trackers() {
    let mut trackers: Vec<(u64, ActionTracker<i32>, Option<ActionState>)> =
        ALL.iter().enumerate().map(|(i, s)| (i as u64, tracker("t", i as i32), Some(*s))).collect();
    trackers.push((10, tracker("stateless", 99), None));
    let messages = tick_based_action_tracker_handler(&trackers);
    let ids: Vec<u64> = messages.iter().map(|m| m.entity).collect();
    assert_eq!(ids, vec![1, 2, 10]);
    assert_eq!(messages[2].action_name, "stateless");
    assert_eq!(messages[2].action_key, "key-stateless");
    assert_eq!(messages[2].action_context, 77);
    assert_eq!(messages[2].action_score, 99);
    assert_eq!(messages[0].action_score, 1);
}

#[test]
fn picked_action_becomes_tracker_request_and_dispatch() {
    let picked = AiActionPicked::new(4, "GoTo".to_string(), "Walk".to_string(), 12, 250u16);
    let mut defaults = UserDefaultActionTrackerSpawnConfig::default();
    let req = create_tracker_for_picked_action(&picked, &defaults);
    assert_eq!(req.entity, 4);
    assert_eq!(req.action.action.name, "Walk");
    assert_eq!(req.action.action.action_key, "GoTo");
    assert_eq!(req.action.action.context, 12);
    assert_eq!(req.action.score, 250);
    assert!(req.tracker_config.is_none());
    defaults.with_config_builder(|b| b.set_use_ticker(true));
    let req = create_tracker_for_picked_action(&picked, &defaults);
    assert!(req.tracker_config.unwrap().use_ticker);
    let d = trigger_dispatch_to_user_actions(&picked);
    assert_eq!((d.entity, d.action_key.as_str(), d.action_name.as_str(), d.action_context, d.action_score), (4, "GoTo", "Walk", 12, 250));
}

#[test]
fn spawn_request_constructors() {
    let sa = ScoredAction { action: Action { name: "A".to_string(), context: 1, action_key: "K".to_string() }, score: 3u8 };
    let r = ActionTrackerSpawnRequested::with_library_defaults(2, sa.clone());
    assert!(r.tracker_config.is_none() && r.entity == 2 && r.action.score == 3);
    let cfg = ActionTrackerSpawnConfig::builder().set_use_timers(true).build();
    let r = ActionTrackerSpawnRequested::with_config(2, sa.clone(), cfg);
    assert_eq!(r.tracker_config, Some(cfg));
    let r = ActionTrackerSpawnRequested::with_config_builder(2, sa.clone(), |b: ActionTrackerSpawnConfigBuilder| Some(b.set_track_owner_ai(false).build()));
    assert!(!r.tracker_config.unwrap().track_owner_ai);
    let r = ActionTrackerSpawnRequested::new(5, sa, None);
    assert_eq!(r.entity, 5);
}

#[test]
fn builder_and_config_conversions() {
    let c = ActionTrackerSpawnConfig {
        track_owner_ai: false,
        use_ticker: true,
        use_create_timer: true,
        use_runtime_timer: false,
        use_tick_timer: true,
    };
    let b = ActionTrackerSpawnConfigBuilder::from(&c);
    assert_eq!(b, ActionTrackerSpawnConfigBuilder::from_reference_config(&c));
    let back: ActionTrackerSpawnConfig = b.into();
    assert_eq!(back, c);
    let built: ActionTrackerSpawnConfig = ActionTrackerSpawnConfigBuilder::new().set_use_ticker(true).into();
    assert!(built.use_ticker && built.track_owner_ai && !built.use_tick_timer);
}

#[test]
fn tracker_extensions_follow_the_config() {
    let defaults = ActionTrackerSpawnConfigBuilder::new().build();
    assert_eq!(tracker_extensions(&defaults), vec![TrackerExtension::OwningAI]);
    let all = ActionTrackerSpawnConfigBuilder::new().set_use_ticker(true).set_use_timers(true).build();
    assert_eq!(
        tracker_extensions(&all),
        vec![
            TrackerExtension::OwningAI,
            TrackerExtension::Ticks,
            TrackerExtension::CreationTimer,
            TrackerExtension::RuntimeTimer,
            TrackerExtension::TickTimer,
        ]
    );
    let none = ActionTrackerSpawnConfig {
        track_owner_ai: false,
        use_ticker: false,
        use_create_timer: false,
        use_runtime_timer: true,
        use_tick_timer: false,
    };
    assert_eq!(tracker_extensions(&none), vec![TrackerExtension::RuntimeTimer]);
}

#[test]
fn update_handler_refuses_moves_back_in_the_lifecycle() {
    let mut states = ActionTrackerStates::new();
    states.record(1, Some(ActionState::Succeeded));
    states.record(2, Some(ActionState::Running));
    let effects = action_state_update_handler(
        &vec![
            req(1, "Walk", ActionState::Running),
            req(2, "Eat", ActionState::Ready),
            req(2, "Eat", ActionState::Paused),
            req(1, "Walk", ActionState::Succeeded),
        ],
        &mut states,
    );
    match &effects[0] {
        ActionStateUpdateEffect::Refused(c) => {
            assert_eq!(c.entity, 1);
            assert_eq!(c.from_state, Some(ActionState::Succeeded));
            assert_eq!(c.to_state, ActionState::Running);
        }
        other => panic!("unexpected {:?}", other),
    }
    assert!(matches!(effects[1], ActionStateUpdateEffect::Refused(_)));
    assert!(matches!(effects[2], ActionStateUpdateEffect::Notify(_)));
    assert!(matches!(effects[3], ActionStateUpdateEffect::SetState(2, ActionState::Paused)));
    assert!(matches!(effects[4], ActionStateUpdateEffect::Notify(_)));
    assert!(matches!(effects[5], ActionStateUpdateEffect::SetState(1, ActionState::Succeeded)));
    assert_eq!(effects.len(), 6);
    assert_eq!(states.get(1), Some(Some(ActionState::Succeeded)));
    assert_eq!(states.get(2), Some(Some(ActionState::Paused)));
}

#[test]
fn lifecycle_moves() {
    for from in ALL {
        for to in ALL {
            let expected = if from.is_terminal() {
                from == to
            } else if from.is_progressed() {
                to.is_progressed() || to.is_terminal()
            } else {
                true
            };
            assert_eq!(from.may_become(to), expected, "{:?} -> {:?}", from, to);
        }
    }
    assert!(!ActionState::Cancelled.may_become(ActionState::Ready));
    assert!(ActionState::Queued.may_become(ActionState::Failed));
    assert!(!ActionState::Paused.may_become(ActionState::Queued));
}
