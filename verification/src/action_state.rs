//! The values used by the Action Runtime to track the state of AI Actions.

use vstd::prelude::*;
use crate::types::{ActionKey, AiEntity};

verus! {

/// A lifecycle marker for ActionTrackers to indicate what the status of the tracked Action is.
///
/// This is a state machine, more or less, with three layers:
/// 1) Initial
/// 2) Progressed
/// 3) Terminal
///
/// The progression through those layers is non-increasing:
/// - Terminal states never change once reached,
/// - Progressed states only become Terminal or other Progressed states, and
/// - Initial states can become any other state.
#[derive(Debug, Clone, Copy, Hash, PartialEq, Eq, Structural)]
pub enum ActionState {
    /// Initial state. Planned but not started and cannot start yet.
    Queued,
    /// Initial state. Can start now, hadn't done anything yet though.
    Ready,
    /// Progressed state. Started but didn't finish yet, will continue.
    Running,
    /// Progressed state. Started and can continue, but has been put on hold for now.
    Paused,
    /// Terminal state. Did all it was supposed to and is no longer needed.
    Succeeded,
    /// Terminal state. We gave up due to getting stuck/timeout/etc.
    Failed,
    /// Terminal state. We gave up because of an 'external' decision.
    Cancelled,
}

impl ActionState {
    pub open spec fn spec_is_initial(self) -> bool {
        self is Queued || self is Ready
    }

    pub open spec fn spec_is_progressed(self) -> bool {
        self is Running || self is Paused
    }

    pub open spec fn spec_is_terminal(self) -> bool {
        self is Succeeded || self is Failed || self is Cancelled
    }

    pub open spec fn spec_should_process(self) -> bool {
        self is Ready || self is Running
    }

    /// A shorthand for checking if an Action is in one of the Initial states (e.g. Ready).
    pub fn is_initial(&self) -> (r: bool)
        ensures r == self.spec_is_initial(),
    {
        match self {
            Self::Queued => true,
            Self::Ready => true,
            _ => false,
        }
    }

    /// A shorthand for checking if an Action is in one of the Progressed states (e.g. Running).
    pub fn is_progressed(&self) -> (r: bool)
        ensures r == self.spec_is_progressed(),
    {
        match self {
            Self::Running => true,
            Self::Paused => true,
            _ => false,
        }
    }

    /// A shorthand for checking if an Action is in one of the Terminal states (e.g. Succeeded).
    pub fn is_terminal(&self) -> (r: bool)
        ensures r == self.spec_is_terminal(),
    {
        match self {
            Self::Succeeded => true,
            Self::Failed => true,
            Self::Cancelled => true,
            _ => false,
        }
    }

    /// A shorthand for checking if an Action should be processed/'ticked'. If false, we can skip it.
    pub fn should_process(&self) -> (r: bool)
        ensures r == self.spec_should_process(),
    {
        match self {
            Self::Ready => true,
            Self::Running => true,
            _ => false,
        }
    }
}

impl ActionState {
    /// Whether the lifecycle allows moving from this state to `to`.
    pub open spec fn spec_may_become(self, to: ActionState) -> bool {
        if self.spec_is_terminal() {
            to == self
        } else if self.spec_is_progressed() {
            to.spec_is_progressed() || to.spec_is_terminal()
        } else {
            true
        }
    }

    /// Whether the lifecycle allows moving from this state to `to`: a Terminal state
    /// stays as it is, a Progressed state only becomes a Progressed or Terminal state,
    /// an Initial state can become any state.
    pub fn may_become(&self, to: ActionState) -> (r: bool)
        ensures
            r == self.spec_may_become(to),
    {
        if self.is_terminal() {
            *self == to
        } else if self.is_progressed() {
            to.is_progressed() || to.is_terminal()
        } else {
            true
        }
    }
}

/// Every state lies in exactly one of the three layers (Initial, Progressed,
/// Terminal), and a state that should be processed is never Terminal.
pub proof fn law_action_state_layers(s: ActionState)
    ensures
        s.spec_is_initial() || s.spec_is_progressed() || s.spec_is_terminal(),
        !(s.spec_is_initial() && s.spec_is_progressed()),
        !(s.spec_is_initial() && s.spec_is_terminal()),
        !(s.spec_is_progressed() && s.spec_is_terminal()),
        s.spec_should_process() ==> !s.spec_is_terminal(),
        s.spec_should_process() <==> (s == ActionState::Ready || s == ActionState::Running),
{
}

/// A request to move the ActionTracker state of an entity to `to_state`.
#[derive(Debug, Clone)]
pub struct AiActionStateChangeRequest {
    pub entity: AiEntity,
    pub action: ActionKey,
    pub to_state: ActionState,
}

/// Signals that an Action has transitioned between two states: from_state -> to_state.
#[derive(Debug, Clone)]
pub struct AiActionStateChange {
    pub entity: AiEntity,
    pub action: ActionKey,
    pub from_state: Option<ActionState>,
    pub to_state: ActionState,
}

/// One thing the ECS layer must do, in order, to apply a batch of state-change requests.
#[derive(Debug, Clone)]
pub enum ActionStateUpdateEffect {
    /// Trigger this state-change event.
    Notify(AiActionStateChange),
    /// Overwrite the existing tracker state of the entity (immediately visible).
    SetState(AiEntity, ActionState),
    /// Insert a fresh tracker state on the entity (a deferred command).
    InsertState(AiEntity, ActionState),
    /// The targeted entity does not exist; report it.
    MissingEntity(AiEntity, ActionKey),
    /// The lifecycle does not allow this move; the state is left as it is. Report it.
    Refused(AiActionStateChange),
}

/// What the state-update handler sees of the world: the entities that exist,
/// each with its current tracker state if it has one.
///
/// Entries are appended; a later entry for an entity overrides earlier ones.
pub struct ActionTrackerStates {
    entries: Vec<(AiEntity, Option<ActionState>)>,
}

/// The map that a sequence of entries denotes: later entries win.
pub open spec fn entries_map(s: Seq<(AiEntity, Option<ActionState>)>) -> Map<AiEntity, Option<ActionState>>
    decreases s.len(),
{
    if s.len() == 0 {
        Map::empty()
    } else {
        entries_map(s.drop_last()).insert(s.last().0, s.last().1)
    }
}

/// The tracker information of `e` in `m`: `None` when the entity does not exist,
/// `Some(None)` when it exists without a tracker state, `Some(Some(s))` otherwise.
pub open spec fn lookup_entity(m: Map<AiEntity, Option<ActionState>>, e: AiEntity) -> Option<Option<ActionState>> {
    if m.contains_key(e) {
        Some(m[e])
    } else {
        None
    }
}

impl View for ActionTrackerStates {
    type V = Map<AiEntity, Option<ActionState>>;

    closed spec fn view(&self) -> Map<AiEntity, Option<ActionState>> {
        entries_map(self.entries@)
    }
}

impl ActionTrackerStates {
    /// An empty world.
    pub fn new() -> (r: Self)
        ensures r@ == Map::<AiEntity, Option<ActionState>>::empty(),
    {
        ActionTrackerStates { entries: Vec::new() }
    }

    /// Records that `entity` exists, with the given tracker state (or none).
    pub fn record(&mut self, entity: AiEntity, state: Option<ActionState>)
        ensures final(self)@ == old(self)@.insert(entity, state),
    {
        self.entries.push((entity, state));
        proof {
            assert(self.entries@.drop_last() == old(self).entries@);
        }
    }

    /// Looks up an entity: `None` if it does not exist, else its tracker state (if any).
    pub fn get(&self, entity: AiEntity) -> (r: Option<Option<ActionState>>)
        ensures r == lookup_entity(self@, entity),
    {
        let mut i = self.entries.len();
        proof {
            assert(self.entries@.take(i as int) =~= self.entries@);
        }
        while i > 0
            invariant
                i <= self.entries@.len(),
                lookup_entity(entries_map(self.entries@), entity) == lookup_entity(
                    entries_map(self.entries@.take(i as int)),
                    entity,
                ),
            decreases i,
        {
            let (k, v) = self.entries[i - 1];
            proof {
                assert(self.entries@.take(i as int).drop_last() == self.entries@.take(i - 1));
            }
            if k == entity {
                return Some(v);
            }
            i = i - 1;
        }
        proof {
            assert(self.entries@.take(0) =~= Seq::<(AiEntity, Option<ActionState>)>::empty());
        }
        None
    }
}

/// The state change that a request produces, given what the handler sees of its entity.
pub open spec fn request_step(
    m: Map<AiEntity, Option<ActionState>>,
    req: AiActionStateChangeRequest,
) -> (Map<AiEntity, Option<ActionState>>, Seq<ActionStateUpdateEffect>) {
    match lookup_entity(m, req.entity) {
        None => (m, seq![ActionStateUpdateEffect::MissingEntity(req.entity, req.action)]),
        Some(None) => (
            m,
            seq![
                ActionStateUpdateEffect::Notify(
                    AiActionStateChange {
                        entity: req.entity,
                        action: req.action,
                        from_state: None,
                        to_state: req.to_state,
                    },
                ),
                ActionStateUpdateEffect::InsertState(req.entity, req.to_state),
            ],
        ),
        Some(Some(cur)) => if cur.spec_may_become(req.to_state) {
            (
                m.insert(req.entity, Some(req.to_state)),
                seq![
                    ActionStateUpdateEffect::Notify(
                        AiActionStateChange {
                            entity: req.entity,
                            action: req.action,
                            from_state: Some(cur),
                            to_state: req.to_state,
                        },
                    ),
                    ActionStateUpdateEffect::SetState(req.entity, req.to_state),
                ],
            )
        } else {
            (
                m,
                seq![
                    ActionStateUpdateEffect::Refused(
                        AiActionStateChange {
                            entity: req.entity,
                            action: req.action,
                            from_state: Some(cur),
                            to_state: req.to_state,
                        },
                    ),
                ],
            )
        },
    }
}

/// The view after processing a batch of requests in order, and the effects produced.
pub open spec fn process_requests(
    m: Map<AiEntity, Option<ActionState>>,
    reqs: Seq<AiActionStateChangeRequest>,
) -> (Map<AiEntity, Option<ActionState>>, Seq<ActionStateUpdateEffect>)
    decreases reqs.len(),
{
    if reqs.len() == 0 {
        (m, Seq::empty())
    } else {
        let prev = process_requests(m, reqs.drop_last());
        let step = request_step(prev.0, reqs.last());
        (step.0, prev.1 + step.1)
    }
}

/// Processes all pending state-change requests in order.
///
/// Existing tracker states are overwritten at once (a later request for the same
/// entity sees the new state) where the lifecycle allows the move, and are left as
/// they are (with the refusal reported) where it does not; entities without a tracker
/// state get a fresh one by a deferred insert; requests for entities that do not exist
/// are reported. Every applied request is announced by an `AiActionStateChange`.
pub fn action_state_update_handler(
    requests: &Vec<AiActionStateChangeRequest>,
    states: &mut ActionTrackerStates,
) -> (effects: Vec<ActionStateUpdateEffect>)
    ensures
        final(states)@ == process_requests(old(states)@, requests@).0,
        effects@ == process_requests(old(states)@, requests@).1,
{
    let mut effects: Vec<ActionStateUpdateEffect> = Vec::new();
    let n = requests.len();
    let mut i: usize = 0;
    proof {
        assert(requests@.take(0) =~= Seq::<AiActionStateChangeRequest>::empty());
    }
    while i < n
        invariant
            n == requests@.len(),
            i <= n,
            states@ == process_requests(old(states)@, requests@.take(i as int)).0,
            effects@ == process_requests(old(states)@, requests@.take(i as int)).1,
        decreases n - i,
    {
        let req = &requests[i];
        proof {
            assert(requests@.take(i + 1).drop_last() =~= requests@.take(i as int));
            assert(requests@.take(i + 1).last() == requests@[i as int]);
        }
        let ghost before = effects@;
        match states.get(req.entity) {
            None => {
                effects.push(ActionStateUpdateEffect::MissingEntity(req.entity, req.action.clone()));
            },
            Some(None) => {
                effects.push(
                    ActionStateUpdateEffect::Notify(
                        AiActionStateChange {
                            entity: req.entity,
                            action: req.action.clone(),
                            from_state: None,
                            to_state: req.to_state,
                        },
                    ),
                );
                effects.push(ActionStateUpdateEffect::InsertState(req.entity, req.to_state));
            },
            Some(Some(cur)) => {
                if cur.may_become(req.to_state) {
                    effects.push(
                        ActionStateUpdateEffect::Notify(
                            AiActionStateChange {
                                entity: req.entity,
                                action: req.action.clone(),
                                from_state: Some(cur),
                                to_state: req.to_state,
                            },
                        ),
                    );
                    effects.push(ActionStateUpdateEffect::SetState(req.entity, req.to_state));
                    states.record(req.entity, Some(req.to_state));
                } else {
                    effects.push(
                        ActionStateUpdateEffect::Refused(
                            AiActionStateChange {
                                entity: req.entity,
                                action: req.action.clone(),
                                from_state: Some(cur),
                                to_state: req.to_state,
                            },
                        ),
                    );
                }
            },
        }
        proof {
            let step = request_step(process_requests(old(states)@, requests@.take(i as int)).0, requests@[i as int]);
            assert(effects@ =~= before + step.1);
        }
        i = i + 1;
    }
    proof {
        assert(requests@.take(n as int) =~= requests@);
    }
    effects
}

/// The state requested last for `e` in a batch, if any request targets it.
pub open spec fn last_request_state(reqs: Seq<AiActionStateChangeRequest>, e: AiEntity) -> Option<ActionState>
    decreases reqs.len(),
{
    if reqs.len() == 0 {
        None
    } else if reqs.last().entity == e {
        Some(reqs.last().to_state)
    } else {
        last_request_state(reqs.drop_last(), e)
    }
}

/// The state carried by the last `InsertState` effect for `e`, if any.
pub open spec fn last_inserted_state(effects: Seq<ActionStateUpdateEffect>, e: AiEntity) -> Option<ActionState>
    decreases effects.len(),
{
    if effects.len() == 0 {
        None
    } else {
        match effects.last() {
            ActionStateUpdateEffect::InsertState(x, st) => if x == e {
                Some(st)
            } else {
                last_inserted_state(effects.drop_last(), e)
            },
            _ => last_inserted_state(effects.drop_last(), e),
        }
    }
}

proof fn lemma_last_inserted_concat(a: Seq<ActionStateUpdateEffect>, b: Seq<ActionStateUpdateEffect>, e: AiEntity)
    ensures
        last_inserted_state(a + b, e) == (match last_inserted_state(b, e) {
            Some(x) => Some(x),
            None => last_inserted_state(a, e),
        }),
    decreases b.len(),
{
    if b.len() == 0 {
        assert(a + b =~= a);
    } else {
        assert((a + b).drop_last() =~= a + b.drop_last());
        assert((a + b).last() == b.last());
        lemma_last_inserted_concat(a, b.drop_last(), e);
    }
}

proof fn lemma_step_inserts(m: Map<AiEntity, Option<ActionState>>, req: AiActionStateChangeRequest, e: AiEntity)
    ensures
        last_inserted_state(request_step(m, req).1, e) == (if req.entity == e && lookup_entity(m, e) == Some(
            None::<ActionState>,
        ) {
            Some(req.to_state)
        } else {
            None
        }),
{
    let st = request_step(m, req).1;
    reveal_with_fuel(last_inserted_state, 3);
    if st.len() == 2 {
        assert(st.drop_last() =~= seq![st[0]]);
        assert(st.drop_last().drop_last() =~= Seq::<ActionStateUpdateEffect>::empty());
    } else {
        assert(st.drop_last() =~= Seq::<ActionStateUpdateEffect>::empty());
    }
}

/// Processing a batch never adds or removes entities, and never gives a
/// tracker state to an entity that had none (that is left to the deferred inserts).
pub proof fn law_update_handler_frame(
    m: Map<AiEntity, Option<ActionState>>,
    reqs: Seq<AiActionStateChangeRequest>,
    e: AiEntity,
)
    ensures
        process_requests(m, reqs).0.contains_key(e) == m.contains_key(e),
        m.contains_key(e) && m[e] is None ==> process_requests(m, reqs).0[e] is None,
        !m.contains_key(e) ==> last_inserted_state(process_requests(m, reqs).1, e) is None,
    decreases reqs.len(),
{
    if reqs.len() > 0 {
        law_update_handler_frame(m, reqs.drop_last(), e);
        let prev = process_requests(m, reqs.drop_last());
        let step = request_step(prev.0, reqs.last());
        lemma_last_inserted_concat(prev.1, step.1, e);
        lemma_step_inserts(prev.0, reqs.last(), e);
    }
}

/// The tracker state an entity in state `cur` ends in after a batch: each request for
/// it moves it where the lifecycle allows, and is refused otherwise.
pub open spec fn spec_state_after(cur: ActionState, reqs: Seq<AiActionStateChangeRequest>, e: AiEntity) -> ActionState
    decreases reqs.len(),
{
    if reqs.len() == 0 {
        cur
    } else {
        let prev = spec_state_after(cur, reqs.drop_last(), e);
        if reqs.last().entity == e && prev.spec_may_become(reqs.last().to_state) {
            reqs.last().to_state
        } else {
            prev
        }
    }
}

/// The layer of a state: Initial, Progressed, Terminal.
pub open spec fn spec_layer(s: ActionState) -> int {
    if s.spec_is_initial() {
        0
    } else if s.spec_is_progressed() {
        1
    } else {
        2
    }
}

/// For an entity that has a tracker state, the state after a batch is what its requests
/// lead to, each taken where the lifecycle allows and refused where it does not.
pub proof fn law_tracked_state_follows_allowed_requests(
    m: Map<AiEntity, Option<ActionState>>,
    reqs: Seq<AiActionStateChangeRequest>,
    e: AiEntity,
)
    requires
        m.contains_key(e),
        m[e] is Some,
    ensures
        process_requests(m, reqs).0.contains_key(e),
        process_requests(m, reqs).0[e] == Some(spec_state_after(m[e]->0, reqs, e)),
    decreases reqs.len(),
{
    if reqs.len() > 0 {
        law_tracked_state_follows_allowed_requests(m, reqs.drop_last(), e);
    }
}

/// The lifecycle never goes back: the layer of a tracker's state never decreases, and
/// a Terminal state never changes once reached.
pub proof fn law_lifecycle_never_goes_back(cur: ActionState, reqs: Seq<AiActionStateChangeRequest>, e: AiEntity)
    ensures
        spec_layer(spec_state_after(cur, reqs, e)) >= spec_layer(cur),
        cur.spec_is_terminal() ==> spec_state_after(cur, reqs, e) == cur,
    decreases reqs.len(),
{
    if reqs.len() > 0 {
        law_lifecycle_never_goes_back(cur, reqs.drop_last(), e);
    }
}

/// A tracker in a Terminal state keeps it through any batch of requests.
pub proof fn law_terminal_state_is_kept(
    m: Map<AiEntity, Option<ActionState>>,
    reqs: Seq<AiActionStateChangeRequest>,
    e: AiEntity,
)
    requires
        m.contains_key(e),
        m[e] matches Some(s) && s.spec_is_terminal(),
    ensures
        process_requests(m, reqs).0[e] == m[e],
{
    law_tracked_state_follows_allowed_requests(m, reqs, e);
    law_lifecycle_never_goes_back(m[e]->0, reqs, e);
}

/// The lifecycle's moves, state by state: any state may be requested again; Succeeded,
/// Failed and Cancelled may become only themselves; Running and Paused may become
/// anything but Queued or Ready; Queued and Ready may become anything.
pub proof fn law_lifecycle_moves(s: ActionState, to: ActionState)
    ensures
        s.spec_may_become(s),
        (s is Succeeded || s is Failed || s is Cancelled) ==> (s.spec_may_become(to) <==> to == s),
        (s is Running || s is Paused) ==> (s.spec_may_become(to) <==> !(to is Queued || to is Ready)),
        (s is Queued || s is Ready) ==> s.spec_may_become(to),
{
}

/// A request that the lifecycle allows on an entity with a tracker state is applied at
/// once and announced: the handler sets the new state and emits a state change from the
/// current state, and nothing else. In particular, requesting the current state again
/// is applied and announced too.
pub proof fn law_allowed_request_is_applied_and_announced(
    m: Map<AiEntity, Option<ActionState>>,
    req: AiActionStateChangeRequest,
    cur: ActionState,
)
    requires
        lookup_entity(m, req.entity) == Some(Some(cur)),
        cur.spec_may_become(req.to_state),
    ensures
        process_requests(m, seq![req]) == (
            m.insert(req.entity, Some(req.to_state)),
            seq![
                ActionStateUpdateEffect::Notify(
                    AiActionStateChange {
                        entity: req.entity,
                        action: req.action,
                        from_state: Some(cur),
                        to_state: req.to_state,
                    },
                ),
                ActionStateUpdateEffect::SetState(req.entity, req.to_state),
            ],
        ),
{
    let reqs = seq![req];
    assert(reqs.drop_last() =~= Seq::<AiActionStateChangeRequest>::empty());
    assert(reqs.last() == req);
    assert(process_requests(m, reqs.drop_last()) == (m, Seq::<ActionStateUpdateEffect>::empty()));
    let step = request_step(m, req);
    assert(Seq::<ActionStateUpdateEffect>::empty() + step.1 =~= step.1);
    assert(process_requests(m, reqs).1 =~= step.1);
}

/// A request that the lifecycle does not allow leaves the tracker state as it is and is
/// reported as refused, with the current state and the one requested.
pub proof fn law_disallowed_request_is_refused(
    m: Map<AiEntity, Option<ActionState>>,
    req: AiActionStateChangeRequest,
    cur: ActionState,
)
    requires
        lookup_entity(m, req.entity) == Some(Some(cur)),
        !cur.spec_may_become(req.to_state),
    ensures
        process_requests(m, seq![req]) == (
            m,
            seq![
                ActionStateUpdateEffect::Refused(
                    AiActionStateChange {
                        entity: req.entity,
                        action: req.action,
                        from_state: Some(cur),
                        to_state: req.to_state,
                    },
                ),
            ],
        ),
{
    let reqs = seq![req];
    assert(reqs.drop_last() =~= Seq::<AiActionStateChangeRequest>::empty());
    assert(reqs.last() == req);
    assert(process_requests(m, reqs.drop_last()) == (m, Seq::<ActionStateUpdateEffect>::empty()));
    let step = request_step(m, req);
    assert(Seq::<ActionStateUpdateEffect>::empty() + step.1 =~= step.1);
    assert(process_requests(m, reqs).1 =~= step.1);
}

/// For an entity that exists without a tracker state, the last tracker state
/// inserted for it by a batch is the one its last request asked for.
pub proof fn law_inserted_state_is_last_requested(
    m: Map<AiEntity, Option<ActionState>>,
    reqs: Seq<AiActionStateChangeRequest>,
    e: AiEntity,
)
    requires
        m.contains_key(e),
        m[e] is None,
    ensures
        last_inserted_state(process_requests(m, reqs).1, e) == last_request_state(reqs, e),
    decreases reqs.len(),
{
    if reqs.len() > 0 {
        law_inserted_state_is_last_requested(m, reqs.drop_last(), e);
        law_update_handler_frame(m, reqs.drop_last(), e);
        let prev = process_requests(m, reqs.drop_last());
        let step = request_step(prev.0, reqs.last());
        lemma_last_inserted_concat(prev.1, step.1, e);
        lemma_step_inserts(prev.0, reqs.last(), e);
    }
}

} // verus!
