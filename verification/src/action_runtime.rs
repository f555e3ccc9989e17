//! ActionTrackers: the optional bookkeeping around the execution of a picked Action.
//!
//! This module holds the tracker state component, the spawn configuration and its
//! builder, the user-wide default configuration, and the decisions the tracker
//! systems make each tick (which trackers to tick, which to clean up).

use vstd::prelude::*;
use vstd::seq_lib::lemma_no_dup_in_concat;
use vstd::std_specs::convert::FromSpecImpl;
use crate::actions::{Action, ScoredAction};
use crate::action_state::ActionState;
use crate::entity_identifier::EntityIdentifier;
use crate::events::{AiActionDispatchToUserCode, AiActionPicked};
use crate::types::AiEntity;

verus! {

/// Makes an entity track an AI Action: the 'root' marker for tracking Actions.
#[derive(Debug, Clone)]
pub struct ActionTracker<S>(pub ScoredAction<S>);

/// Adds tracking of the AI entity that 'owns' the tracked Action.
#[derive(Debug, Clone)]
pub struct ActionTrackerOwningAI {
    pub owner_ai: EntityIdentifier,
}

/// Adds Action state tracking to an ActionTracker: the 'lifecycle' of an Action,
/// Pending -> Running -> Terminal (Successful/Failed/Cancelled/etc.).
#[derive(Debug, Clone, Copy, PartialEq, Eq, Structural)]
pub struct ActionTrackerState(pub ActionState);

impl ActionTrackerState {
    pub fn ready() -> (r: Self)
        ensures r.0 == ActionState::Ready,
    {
        Self(ActionState::Ready)
    }

    pub fn queued() -> (r: Self)
        ensures r.0 == ActionState::Queued,
    {
        Self(ActionState::Queued)
    }

    pub fn get_state(&self) -> (r: &ActionState)
        ensures *r == self.0,
    {
        &self.0
    }

    pub fn set_state(&mut self, state: ActionState) -> (r: &mut Self)
        ensures
            r.0 == state,
            *final(self) == *final(r),
    {
        self.0 = state;
        self
    }
}

/// Which optional extension components a new ActionTracker gets.
#[derive(Debug, Clone, Copy, PartialEq, Eq, Structural)]
pub struct ActionTrackerSpawnConfig {
    pub track_owner_ai: bool,
    pub use_ticker: bool,
    pub use_create_timer: bool,
    pub use_runtime_timer: bool,
    pub use_tick_timer: bool,
}

impl ActionTrackerSpawnConfig {
    pub fn builder() -> (r: ActionTrackerSpawnConfigBuilder)
        ensures r == ActionTrackerSpawnConfigBuilder::spec_default(),
    {
        ActionTrackerSpawnConfigBuilder::new()
    }
}

/// Builder pattern for ActionTrackerSpawnConfig. Unset options take the library defaults
/// when built; `use_timers` is the default for the individual timer options.
#[derive(Debug, Clone, Copy, PartialEq, Eq, Structural)]
pub struct ActionTrackerSpawnConfigBuilder {
    pub track_owner_ai: Option<bool>,
    pub use_ticker: Option<bool>,
    pub use_timers: Option<bool>,
    pub use_create_timer: Option<bool>,
    pub use_runtime_timer: Option<bool>,
    pub use_tick_timer: Option<bool>,
}

/// `o.unwrap_or(d)`.
pub open spec fn or_default(o: Option<bool>, d: bool) -> bool {
    match o {
        Some(v) => v,
        None => d,
    }
}

impl ActionTrackerSpawnConfigBuilder {
    /// The builder with no option set.
    pub open spec fn spec_default() -> Self {
        ActionTrackerSpawnConfigBuilder {
            track_owner_ai: None,
            use_ticker: None,
            use_timers: None,
            use_create_timer: None,
            use_runtime_timer: None,
            use_tick_timer: None,
        }
    }

    /// The config a builder produces.
    pub open spec fn spec_build(self) -> ActionTrackerSpawnConfig {
        let use_ticker = or_default(self.use_ticker, false);
        let use_timers = or_default(self.use_timers, false);
        ActionTrackerSpawnConfig {
            track_owner_ai: or_default(self.track_owner_ai, true),
            use_ticker: use_ticker,
            use_create_timer: or_default(self.use_create_timer, use_timers),
            use_runtime_timer: or_default(self.use_runtime_timer, use_timers),
            use_tick_timer: or_default(self.use_tick_timer, use_ticker && use_timers),
        }
    }

    /// The builder seeded from an existing config.
    pub open spec fn spec_from_reference_config(config: ActionTrackerSpawnConfig) -> Self {
        ActionTrackerSpawnConfigBuilder {
            track_owner_ai: Some(config.track_owner_ai),
            use_ticker: Some(config.use_ticker),
            use_timers: None,
            use_create_timer: Some(config.use_create_timer),
            use_runtime_timer: Some(config.use_runtime_timer),
            use_tick_timer: Some(config.use_tick_timer),
        }
    }

    pub fn build(self) -> (r: ActionTrackerSpawnConfig)
        ensures r == self.spec_build(),
    {
        let track_owner_ai = match self.track_owner_ai { Some(v) => v, None => true };
        let use_ticker = match self.use_ticker { Some(v) => v, None => false };
        let use_timers = match self.use_timers { Some(v) => v, None => false };
        let use_create_timer = match self.use_create_timer { Some(v) => v, None => use_timers };
        let use_runtime_timer = match self.use_runtime_timer { Some(v) => v, None => use_timers };
        let use_tick_timer = match self.use_tick_timer { Some(v) => v, None => use_ticker && use_timers };

        ActionTrackerSpawnConfig {
            track_owner_ai,
            use_ticker,
            use_create_timer,
            use_runtime_timer,
            use_tick_timer,
        }
    }

    pub fn new() -> (r: Self)
        ensures r == Self::spec_default(),
    {
        ActionTrackerSpawnConfigBuilder {
            track_owner_ai: None,
            use_ticker: None,
            use_timers: None,
            use_create_timer: None,
            use_runtime_timer: None,
            use_tick_timer: None,
        }
    }

    pub fn set_track_owner_ai(self, val: bool) -> (r: Self)
        ensures r == (ActionTrackerSpawnConfigBuilder { track_owner_ai: Some(val), ..self }),
    {
        let mut b = self;
        b.track_owner_ai = Some(val);
        b
    }

    pub fn set_use_ticker(self, val: bool) -> (r: Self)
        ensures r == (ActionTrackerSpawnConfigBuilder { use_ticker: Some(val), ..self }),
    {
        let mut b = self;
        b.use_ticker = Some(val);
        b
    }

    pub fn set_use_timers(self, val: bool) -> (r: Self)
        ensures r == (ActionTrackerSpawnConfigBuilder { use_timers: Some(val), ..self }),
    {
        let mut b = self;
        b.use_timers = Some(val);
        b
    }

    pub fn set_use_create_timer(self, val: bool) -> (r: Self)
        ensures r == (ActionTrackerSpawnConfigBuilder { use_create_timer: Some(val), ..self }),
    {
        let mut b = self;
        b.use_create_timer = Some(val);
        b
    }

    pub fn set_use_runtime_timer(self, val: bool) -> (r: Self)
        ensures r == (ActionTrackerSpawnConfigBuilder { use_runtime_timer: Some(val), ..self }),
    {
        let mut b = self;
        b.use_runtime_timer = Some(val);
        b
    }

    pub fn set_use_tick_timer(self, val: bool) -> (r: Self)
        ensures r == (ActionTrackerSpawnConfigBuilder { use_tick_timer: Some(val), ..self }),
    {
        let mut b = self;
        b.use_tick_timer = Some(val);
        b
    }

    /// Creates a new builder using an existing config as a starting point.
    pub fn from_reference_config(config: &ActionTrackerSpawnConfig) -> (r: Self)
        ensures r == Self::spec_from_reference_config(*config),
    {
        ActionTrackerSpawnConfigBuilder {
            track_owner_ai: Some(config.track_owner_ai),
            use_ticker: Some(config.use_ticker),
            use_timers: None,
            use_create_timer: Some(config.use_create_timer),
            use_runtime_timer: Some(config.use_runtime_timer),
            use_tick_timer: Some(config.use_tick_timer),
        }
    }
}

impl Default for ActionTrackerSpawnConfigBuilder {
    fn default() -> (r: Self)
        ensures r == Self::spec_default(),
    {
        Self::new()
    }
}

/// A builder converts into the config it builds.
impl From<ActionTrackerSpawnConfigBuilder> for ActionTrackerSpawnConfig {
    fn from(value: ActionTrackerSpawnConfigBuilder) -> (r: Self)
        ensures
            r == value.spec_build(),
    {
        value.build()
    }
}

impl FromSpecImpl<ActionTrackerSpawnConfigBuilder> for ActionTrackerSpawnConfig {
    open spec fn obeys_from_spec() -> bool {
        true
    }

    open spec fn from_spec(v: ActionTrackerSpawnConfigBuilder) -> Self {
        v.spec_build()
    }
}

/// A config converts into a builder seeded with it.
impl From<&ActionTrackerSpawnConfig> for ActionTrackerSpawnConfigBuilder {
    fn from(value: &ActionTrackerSpawnConfig) -> (r: Self)
        ensures
            r == Self::spec_from_reference_config(*value),
    {
        Self::from_reference_config(value)
    }
}

impl FromSpecImpl<&ActionTrackerSpawnConfig> for ActionTrackerSpawnConfigBuilder {
    open spec fn obeys_from_spec() -> bool {
        true
    }

    open spec fn from_spec(v: &ActionTrackerSpawnConfig) -> Self {
        Self::spec_from_reference_config(*v)
    }
}

/// A builder seeded from a config builds that same config again.
pub proof fn law_build_inverts_from_reference_config(config: ActionTrackerSpawnConfig)
    ensures
        ActionTrackerSpawnConfigBuilder::spec_from_reference_config(config).spec_build() == config,
{
}

/// With nothing set, a tracker tracks its owning AI and has no ticker and no timers.
pub proof fn law_builder_defaults()
    ensures
        ActionTrackerSpawnConfigBuilder::spec_default().spec_build() == (ActionTrackerSpawnConfig {
            track_owner_ai: true,
            use_ticker: false,
            use_create_timer: false,
            use_runtime_timer: false,
            use_tick_timer: false,
        }),
{
}

/// Each option of the builder decides its own field when set. Unset, the owning AI is
/// tracked and there is no ticker; the creation and runtime timers are on exactly when
/// `use_timers` was set to `true`, and the tick timer exactly when `use_timers` was set
/// to `true` and the tracker ticks. Nothing else switches a timer on.
pub proof fn law_build_options(b: ActionTrackerSpawnConfigBuilder)
    ensures
        ({
            let c = b.spec_build();
            &&& c.track_owner_ai == (match b.track_owner_ai { Some(v) => v, None => true })
            &&& c.use_ticker == (match b.use_ticker { Some(v) => v, None => false })
            &&& c.use_create_timer == (match b.use_create_timer {
                Some(v) => v,
                None => b.use_timers == Some(true),
            })
            &&& c.use_runtime_timer == (match b.use_runtime_timer {
                Some(v) => v,
                None => b.use_timers == Some(true),
            })
            &&& c.use_tick_timer == (match b.use_tick_timer {
                Some(v) => v,
                None => b.use_timers == Some(true) && b.use_ticker == Some(true),
            })
        }),
{
}

/// `use_timers` switches on the creation and runtime timers, and the tick timer
/// for ticking trackers, unless an individual timer option says otherwise.
pub proof fn law_use_timers_defaults_individual_timers(b: ActionTrackerSpawnConfigBuilder, timers: bool)
    ensures
        ({
            let c = (ActionTrackerSpawnConfigBuilder { use_timers: Some(timers), ..b }).spec_build();
            &&& c.use_create_timer == or_default(b.use_create_timer, timers)
            &&& c.use_runtime_timer == or_default(b.use_runtime_timer, timers)
            &&& c.use_tick_timer == or_default(b.use_tick_timer, timers && or_default(b.use_ticker, false))
        }),
{
}

/// A resource that holds the global defaults for all ActionTrackers.
pub struct UserDefaultActionTrackerSpawnConfig {
    pub config: Option<ActionTrackerSpawnConfig>,
}

impl UserDefaultActionTrackerSpawnConfig {
    /// The builder that `with_config_builder` hands to its closure.
    pub open spec fn spec_seed_builder(self) -> ActionTrackerSpawnConfigBuilder {
        match self.config {
            None => ActionTrackerSpawnConfigBuilder::spec_default(),
            Some(c) => ActionTrackerSpawnConfigBuilder::spec_from_reference_config(c),
        }
    }

    /// Seeds a builder with the current config (or the defaults, if none set up),
    /// lets `builder` adjust it, then builds and stores the result.
    pub fn with_config_builder<F: FnOnce(ActionTrackerSpawnConfigBuilder) -> ActionTrackerSpawnConfigBuilder>(
        &mut self,
        builder: F,
    ) -> (r: &mut Self)
        requires
            call_requires(builder, (old(self).spec_seed_builder(),)),
        ensures
            exists|b: ActionTrackerSpawnConfigBuilder|
                call_ensures(builder, (old(self).spec_seed_builder(),), b) && r.config == Some(
                    b.spec_build(),
                ),
            *final(self) == *final(r),
    {
        let config_builder = match &self.config {
            None => ActionTrackerSpawnConfigBuilder::new(),
            Some(preexisting) => ActionTrackerSpawnConfigBuilder::from_reference_config(preexisting),
        };
        let configured = builder(config_builder);
        let built = configured.build();
        self.config = Some(built);
        self
    }
}

impl Default for UserDefaultActionTrackerSpawnConfig {
    fn default() -> (r: Self)
        ensures r.config is None,
    {
        UserDefaultActionTrackerSpawnConfig { config: None }
    }
}

/// A request to the library to track an Action for an AI.
#[derive(Debug, Clone)]
pub struct ActionTrackerSpawnRequested<S> {
    /// The AIController the tracker is for.
    pub entity: AiEntity,
    pub action: ScoredAction<S>,
    pub tracker_config: Option<ActionTrackerSpawnConfig>,
}

impl<S> ActionTrackerSpawnRequested<S> {
    /// Create a new ActionTracker spawn request.
    pub fn new(entity: AiEntity, action: ScoredAction<S>, config: Option<ActionTrackerSpawnConfig>) -> (r: Self)
        ensures
            r == (ActionTrackerSpawnRequested { entity: entity, action: action, tracker_config: config }),
    {
        Self { entity: entity, action: action, tracker_config: config }
    }

    /// Create a new ActionTracker spawn request, with whatever defaults the library picks.
    pub fn with_library_defaults(entity: AiEntity, action: ScoredAction<S>) -> (r: Self)
        ensures
            r == (ActionTrackerSpawnRequested { entity: entity, action: action, tracker_config: None }),
    {
        Self::new(entity, action, None)
    }

    /// Create a new ActionTracker spawn request with a specified config.
    pub fn with_config(entity: AiEntity, action: ScoredAction<S>, config: ActionTrackerSpawnConfig) -> (r: Self)
        ensures
            r == (ActionTrackerSpawnRequested { entity: entity, action: action, tracker_config: Some(config) }),
    {
        Self::new(entity, action, Some(config))
    }

    /// Create a new ActionTracker spawn request whose config is whatever `builder` makes
    /// of a fresh config builder.
    pub fn with_config_builder<F: FnMut(ActionTrackerSpawnConfigBuilder) -> Option<ActionTrackerSpawnConfig>>(
        entity: AiEntity,
        action: ScoredAction<S>,
        builder: F,
    ) -> (r: Self)
        requires
            call_requires(builder, (ActionTrackerSpawnConfigBuilder::spec_default(),)),
        ensures
            r.entity == entity,
            r.action == action,
            call_ensures(builder, (ActionTrackerSpawnConfigBuilder::spec_default(),), r.tracker_config),
    {
        let mut builder = builder;
        let config = builder(ActionTrackerSpawnConfig::builder());
        Self::new(entity, action, config)
    }
}

/// Signals that a new ActionTracker has been created for an AI.
#[derive(Debug, Clone, Copy, PartialEq, Eq, Structural)]
pub struct ActionTrackerSpawnedForTargetAI {
    /// The owning AI entity.
    pub entity: AiEntity,
    /// The created ActionTracker entity.
    pub action_tracker: AiEntity,
}

/// A request to stop tracking an Action (the tracker entity is despawned).
#[derive(Debug, Clone, Copy, PartialEq, Eq, Structural)]
pub struct ActionTrackerDespawnRequested {
    pub entity: AiEntity,
}

/// The tracker request for a picked Action: the picked Action with its score, for the
/// picking AI, with the user's default tracker config (if any).
pub fn create_tracker_for_picked_action<S: Copy>(
    picked: &AiActionPicked<S>,
    user_default_config: &UserDefaultActionTrackerSpawnConfig,
) -> (r: ActionTrackerSpawnRequested<S>)
    ensures
        r.entity == picked.entity,
        r.action.action.name == picked.action_name,
        r.action.action.action_key == picked.action_key,
        r.action.action.context == picked.action_context,
        r.action.score == picked.action_score,
        r.tracker_config == user_default_config.config,
{
    let action = Action {
        name: picked.action_name.clone(),
        action_key: picked.action_key.clone(),
        context: picked.action_context,
    };
    let scored_action = ScoredAction { action: action, score: picked.action_score };
    ActionTrackerSpawnRequested::new(picked.entity, scored_action, user_default_config.config)
}

/// An optional extension component an ActionTracker can be spawned with.
#[derive(Debug, Clone, Copy, PartialEq, Eq, Structural)]
pub enum TrackerExtension {
    /// Tracks the AI that owns the tracked Action.
    OwningAI,
    /// Re-dispatches the Action every tick.
    Ticks,
    /// Records when the tracker was created.
    CreationTimer,
    /// Records when the Action started and ended running.
    RuntimeTimer,
    /// Records when the tracker was last ticked.
    TickTimer,
}

/// `seq![e]` if `on`, else nothing.
pub open spec fn extension_if(on: bool, e: TrackerExtension) -> Seq<TrackerExtension> {
    if on {
        seq![e]
    } else {
        Seq::empty()
    }
}

/// The extensions a config switches on, in the order they are added to a new tracker.
pub open spec fn spec_tracker_extensions(c: ActionTrackerSpawnConfig) -> Seq<TrackerExtension> {
    extension_if(c.track_owner_ai, TrackerExtension::OwningAI) + extension_if(c.use_ticker, TrackerExtension::Ticks)
        + extension_if(c.use_create_timer, TrackerExtension::CreationTimer) + extension_if(
        c.use_runtime_timer,
        TrackerExtension::RuntimeTimer,
    ) + extension_if(c.use_tick_timer, TrackerExtension::TickTimer)
}

/// The extension components a new ActionTracker gets under `config`: exactly those the
/// config switches on, in a fixed order.
pub fn tracker_extensions(config: &ActionTrackerSpawnConfig) -> (r: Vec<TrackerExtension>)
    ensures
        r@ == spec_tracker_extensions(*config),
{
    let mut r: Vec<TrackerExtension> = Vec::new();
    let ghost s0 = r@;
    if config.track_owner_ai {
        r.push(TrackerExtension::OwningAI);
    }
    assert(r@ =~= s0 + extension_if(config.track_owner_ai, TrackerExtension::OwningAI));
    let ghost s1 = r@;
    if config.use_ticker {
        r.push(TrackerExtension::Ticks);
    }
    assert(r@ =~= s1 + extension_if(config.use_ticker, TrackerExtension::Ticks));
    let ghost s2 = r@;
    if config.use_create_timer {
        r.push(TrackerExtension::CreationTimer);
    }
    assert(r@ =~= s2 + extension_if(config.use_create_timer, TrackerExtension::CreationTimer));
    let ghost s3 = r@;
    if config.use_runtime_timer {
        r.push(TrackerExtension::RuntimeTimer);
    }
    assert(r@ =~= s3 + extension_if(config.use_runtime_timer, TrackerExtension::RuntimeTimer));
    let ghost s4 = r@;
    if config.use_tick_timer {
        r.push(TrackerExtension::TickTimer);
    }
    assert(r@ =~= s4 + extension_if(config.use_tick_timer, TrackerExtension::TickTimer));
    assert(s0 =~= Seq::<TrackerExtension>::empty());
    assert(r@ =~= spec_tracker_extensions(*config));
    r
}

/// A new tracker gets each extension component exactly when its own config option is
/// on, and never twice.
pub proof fn law_tracker_extensions_follow_options(c: ActionTrackerSpawnConfig)
    ensures
        spec_tracker_extensions(c).contains(TrackerExtension::OwningAI) <==> c.track_owner_ai,
        spec_tracker_extensions(c).contains(TrackerExtension::Ticks) <==> c.use_ticker,
        spec_tracker_extensions(c).contains(TrackerExtension::CreationTimer) <==> c.use_create_timer,
        spec_tracker_extensions(c).contains(TrackerExtension::RuntimeTimer) <==> c.use_runtime_timer,
        spec_tracker_extensions(c).contains(TrackerExtension::TickTimer) <==> c.use_tick_timer,
        spec_tracker_extensions(c).no_duplicates(),
{
    let s = spec_tracker_extensions(c);
    let a = extension_if(c.track_owner_ai, TrackerExtension::OwningAI);
    let b = extension_if(c.use_ticker, TrackerExtension::Ticks);
    let d = extension_if(c.use_create_timer, TrackerExtension::CreationTimer);
    let e = extension_if(c.use_runtime_timer, TrackerExtension::RuntimeTimer);
    let f = extension_if(c.use_tick_timer, TrackerExtension::TickTimer);
    assert(s == a + b + d + e + f);
    lemma_extensions_contain(a, b, d, e, f, TrackerExtension::OwningAI);
    lemma_extensions_contain(a, b, d, e, f, TrackerExtension::Ticks);
    lemma_extensions_contain(a, b, d, e, f, TrackerExtension::CreationTimer);
    lemma_extensions_contain(a, b, d, e, f, TrackerExtension::RuntimeTimer);
    lemma_extensions_contain(a, b, d, e, f, TrackerExtension::TickTimer);
    lemma_extension_if_contains(c.track_owner_ai, TrackerExtension::OwningAI);
    lemma_extension_if_contains(c.use_ticker, TrackerExtension::Ticks);
    lemma_extension_if_contains(c.use_create_timer, TrackerExtension::CreationTimer);
    lemma_extension_if_contains(c.use_runtime_timer, TrackerExtension::RuntimeTimer);
    lemma_extension_if_contains(c.use_tick_timer, TrackerExtension::TickTimer);
    lemma_extensions_no_duplicates(c);
}

/// What `extension_if` holds.
proof fn lemma_extension_if_contains(on: bool, x: TrackerExtension)
    ensures
        forall|y: TrackerExtension| #[trigger] extension_if(on, x).contains(y) <==> (on && y == x),
        extension_if(on, x).no_duplicates(),
{
    if on {
        assert(extension_if(on, x)[0] == x);
    }
}

/// An element of the five parts together is an element of one of them.
proof fn lemma_extensions_contain(
    a: Seq<TrackerExtension>,
    b: Seq<TrackerExtension>,
    d: Seq<TrackerExtension>,
    e: Seq<TrackerExtension>,
    f: Seq<TrackerExtension>,
    x: TrackerExtension,
)
    ensures
        (a + b + d + e + f).contains(x) <==> (a.contains(x) || b.contains(x) || d.contains(x)
            || e.contains(x) || f.contains(x)),
{
    lemma_concat_contains(a, b, x);
    lemma_concat_contains(a + b, d, x);
    lemma_concat_contains(a + b + d, e, x);
    lemma_concat_contains(a + b + d + e, f, x);
}

/// The extension list of a config never names a component twice.
proof fn lemma_extensions_no_duplicates(c: ActionTrackerSpawnConfig)
    ensures
        spec_tracker_extensions(c).no_duplicates(),
{
    let a = extension_if(c.track_owner_ai, TrackerExtension::OwningAI);
    let b = extension_if(c.use_ticker, TrackerExtension::Ticks);
    let d = extension_if(c.use_create_timer, TrackerExtension::CreationTimer);
    let e = extension_if(c.use_runtime_timer, TrackerExtension::RuntimeTimer);
    let f = extension_if(c.use_tick_timer, TrackerExtension::TickTimer);
    let ab = a + b;
    let abd = ab + d;
    let abde = abd + e;
    lemma_no_dup_in_concat(a, b);
    assert forall|k: int| 0 <= k < ab.len() implies extension_rank(#[trigger] ab[k]) <= 1 by {
        if k < a.len() { assert(ab[k] == a[k]); } else { assert(ab[k] == b[k - a.len()]); }
    }
    lemma_no_dup_in_concat(ab, d);
    assert forall|k: int| 0 <= k < abd.len() implies extension_rank(#[trigger] abd[k]) <= 2 by {
        if k < ab.len() { assert(abd[k] == ab[k]); } else { assert(abd[k] == d[k - ab.len()]); }
    }
    lemma_no_dup_in_concat(abd, e);
    assert forall|k: int| 0 <= k < abde.len() implies extension_rank(#[trigger] abde[k]) <= 3 by {
        if k < abd.len() { assert(abde[k] == abd[k]); } else { assert(abde[k] == e[k - abd.len()]); }
    }
    lemma_no_dup_in_concat(abde, f);
}

/// An element of `x + y` is an element of `x` or of `y`.
proof fn lemma_concat_contains(x: Seq<TrackerExtension>, y: Seq<TrackerExtension>, v: TrackerExtension)
    ensures
        (x + y).contains(v) <==> (x.contains(v) || y.contains(v)),
{
    if (x + y).contains(v) {
        let i = choose|i: int| 0 <= i < (x + y).len() && (x + y)[i] == v;
        if i < x.len() {
            assert(x[i] == v);
        } else {
            assert(y[i - x.len()] == v);
        }
    }
    if x.contains(v) {
        let i = choose|i: int| 0 <= i < x.len() && x[i] == v;
        assert((x + y)[i] == v);
    }
    if y.contains(v) {
        let i = choose|i: int| 0 <= i < y.len() && y[i] == v;
        assert((x + y)[x.len() + i] == v);
    }
}

/// The position of an extension in the fixed order.
spec fn extension_rank(x: TrackerExtension) -> int {
    match x {
        TrackerExtension::OwningAI => 0,
        TrackerExtension::Ticks => 1,
        TrackerExtension::CreationTimer => 2,
        TrackerExtension::RuntimeTimer => 3,
        TrackerExtension::TickTimer => 4,
    }
}

/// The config a tracker spawn request is served with: its own, else the library defaults.
pub fn effective_spawn_config(requested: &Option<ActionTrackerSpawnConfig>) -> (r: ActionTrackerSpawnConfig)
    ensures
        r == (match *requested {
            Some(c) => c,
            None => ActionTrackerSpawnConfigBuilder::spec_default().spec_build(),
        }),
{
    match requested {
        Some(config) => *config,
        None => ActionTrackerSpawnConfig::builder().build(),
    }
}

/// The trackers (in the given order) whose Action reached a terminal state.
pub open spec fn spec_finished_trackers(trackers: Seq<(AiEntity, ActionState)>) -> Seq<AiEntity>
    decreases trackers.len(),
{
    if trackers.len() == 0 {
        Seq::empty()
    } else {
        let prev = spec_finished_trackers(trackers.drop_last());
        if trackers.last().1.spec_is_terminal() {
            prev.push(trackers.last().0)
        } else {
            prev
        }
    }
}

/// Whether a tracker is ticked: trackers without a state are ticked, those with
/// one only while it should be processed.
pub open spec fn spec_tracker_ticks(state: Option<ActionState>) -> bool {
    match state {
        None => true,
        Some(s) => s.spec_should_process(),
    }
}

/// The dispatch a ticked tracker sends to user code.
pub open spec fn spec_tick_message<S>(entity: AiEntity, tracker: ActionTracker<S>) -> AiActionDispatchToUserCode<S> {
    AiActionDispatchToUserCode {
        entity: entity,
        action_key: tracker.0.action.action_key,
        action_name: tracker.0.action.name,
        action_context: tracker.0.action.context,
        action_score: tracker.0.score,
    }
}

/// The dispatches (in the given order) the tick-based handler sends for its trackers.
pub open spec fn spec_tick_messages<S>(
    trackers: Seq<(AiEntity, ActionTracker<S>, Option<ActionState>)>,
) -> Seq<AiActionDispatchToUserCode<S>>
    decreases trackers.len(),
{
    if trackers.len() == 0 {
        Seq::empty()
    } else {
        let prev = spec_tick_messages(trackers.drop_last());
        let t = trackers.last();
        if spec_tracker_ticks(t.2) {
            prev.push(spec_tick_message(t.0, t.1))
        } else {
            prev
        }
    }
}

/// Picks the ActionTrackers to despawn: those whose Action is Succeeded, Failed or Cancelled.
pub fn actiontracker_done_cleanup_system(trackers: &Vec<(AiEntity, ActionState)>) -> (r: Vec<AiEntity>)
    ensures
        r@ == spec_finished_trackers(trackers@),
{
    let mut r: Vec<AiEntity> = Vec::new();
    let n = trackers.len();
    let mut i: usize = 0;
    proof {
        assert(trackers@.take(0) =~= Seq::<(AiEntity, ActionState)>::empty());
    }
    while i < n
        invariant
            n == trackers@.len(),
            i <= n,
            r@ == spec_finished_trackers(trackers@.take(i as int)),
        decreases n - i,
    {
        let (entity, state) = trackers[i];
        proof {
            assert(trackers@.take(i + 1).drop_last() =~= trackers@.take(i as int));
        }
        let is_done = match state {
            ActionState::Succeeded => true,
            ActionState::Failed => true,
            ActionState::Cancelled => true,
            _ => false,
        };
        if is_done {
            r.push(entity);
        }
        i = i + 1;
    }
    proof {
        assert(trackers@.take(n as int) =~= trackers@);
    }
    r
}

/// The tick-based handler: for every ticking tracker whose state is absent or should be
/// processed (Ready or Running), a dispatch of its Action to user code, in order.
pub fn tick_based_action_tracker_handler<S: Copy>(
    trackers: &Vec<(AiEntity, ActionTracker<S>, Option<ActionState>)>,
) -> (r: Vec<AiActionDispatchToUserCode<S>>)
    ensures
        r@ == spec_tick_messages(trackers@),
{
    let mut r: Vec<AiActionDispatchToUserCode<S>> = Vec::new();
    let n = trackers.len();
    let mut i: usize = 0;
    proof {
        assert(trackers@.take(0) =~= Seq::<(AiEntity, ActionTracker<S>, Option<ActionState>)>::empty());
    }
    while i < n
        invariant
            n == trackers@.len(),
            i <= n,
            r@ == spec_tick_messages(trackers@.take(i as int)),
        decreases n - i,
    {
        let (entity, tracker, maybe_state) = &trackers[i];
        proof {
            assert(trackers@.take(i + 1).drop_last() =~= trackers@.take(i as int));
        }
        let should_process = match maybe_state {
            Some(state) => state.should_process(),
            None => true,
        };
        if should_process {
            let message = AiActionDispatchToUserCode::new(
                *entity,
                tracker.0.action.action_key.clone(),
                tracker.0.action.name.clone(),
                tracker.0.action.context,
                tracker.0.score,
            );
            r.push(message);
        }
        i = i + 1;
    }
    proof {
        assert(trackers@.take(n as int) =~= trackers@);
    }
    r
}

/// Cleanup is requested exactly for the trackers in a terminal state.
pub proof fn law_cleanup_exactly_terminal(trackers: Seq<(AiEntity, ActionState)>, e: AiEntity)
    ensures
        spec_finished_trackers(trackers).contains(e) <==> exists|i: int|
            0 <= i < trackers.len() && #[trigger] trackers[i].0 == e && trackers[i].1.spec_is_terminal(),
    decreases trackers.len(),
{
    if trackers.len() > 0 {
        let prev = trackers.drop_last();
        law_cleanup_exactly_terminal(prev, e);
        let r = spec_finished_trackers(trackers);
        let pr = spec_finished_trackers(prev);
        if r.contains(e) {
            if trackers.last().1.spec_is_terminal() && trackers.last().0 == e {
                assert(trackers[trackers.len() - 1].0 == e);
            } else {
                if trackers.last().1.spec_is_terminal() {
                    let k = choose|k: int| 0 <= k < r.len() && r[k] == e;
                    assert(pr.contains(e)) by {
                        assert(pr[k] == e);
                    }
                }
                let i = choose|i: int| 0 <= i < prev.len() && #[trigger] prev[i].0 == e && prev[i].1.spec_is_terminal();
                assert(trackers[i] == prev[i]);
            }
        }
        if exists|i: int| 0 <= i < trackers.len() && #[trigger] trackers[i].0 == e && trackers[i].1.spec_is_terminal() {
            let i = choose|i: int| 0 <= i < trackers.len() && #[trigger] trackers[i].0 == e && trackers[i].1.spec_is_terminal();
            if i == trackers.len() - 1 {
                assert(r[r.len() - 1] == e);
            } else {
                assert(prev[i] == trackers[i]);
                assert(pr.contains(e));
                let k = choose|k: int| 0 <= k < pr.len() && pr[k] == e;
                if trackers.last().1.spec_is_terminal() {
                    assert(r[k] == e);
                }
            }
        }
    }
}

/// The tick-based handler never dispatches an Action in a terminal state, nor a queued
/// or paused one; it dispatches every tracker without a state or in a processable state.
pub proof fn law_tick_skips_unprocessable<S>(trackers: Seq<(AiEntity, ActionTracker<S>, Option<ActionState>)>, e: AiEntity)
    ensures
        (exists|k: int| 0 <= k < spec_tick_messages(trackers).len() && #[trigger] spec_tick_messages(trackers)[k].entity == e)
            <==> exists|i: int| 0 <= i < trackers.len() && #[trigger] trackers[i].0 == e && spec_tracker_ticks(trackers[i].2),
    decreases trackers.len(),
{
    if trackers.len() > 0 {
        let prev = trackers.drop_last();
        law_tick_skips_unprocessable(prev, e);
        let r = spec_tick_messages(trackers);
        let pr = spec_tick_messages(prev);
        if exists|k: int| 0 <= k < r.len() && #[trigger] r[k].entity == e {
            let k = choose|k: int| 0 <= k < r.len() && #[trigger] r[k].entity == e;
            if spec_tracker_ticks(trackers.last().2) && k == r.len() - 1 {
                assert(trackers[trackers.len() - 1].0 == e);
            } else {
                assert(pr[k].entity == e);
                let i = choose|i: int| 0 <= i < prev.len() && #[trigger] prev[i].0 == e && spec_tracker_ticks(prev[i].2);
                assert(trackers[i] == prev[i]);
            }
        }
        if exists|i: int| 0 <= i < trackers.len() && #[trigger] trackers[i].0 == e && spec_tracker_ticks(trackers[i].2) {
            let i = choose|i: int| 0 <= i < trackers.len() && #[trigger] trackers[i].0 == e && spec_tracker_ticks(trackers[i].2);
            if i == trackers.len() - 1 {
                assert(r[r.len() - 1].entity == e);
            } else {
                assert(prev[i] == trackers[i]);
                let k = choose|k: int| 0 <= k < pr.len() && #[trigger] pr[k].entity == e;
                assert(r[k].entity == e);
            }
        }
    }
}

} // verus!
