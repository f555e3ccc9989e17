//! Events of the decision loop, and Action events addressed by a numeric id.
//!
//! The decision engine announces the Action it picked for an AI; the pick is then handed
//! to user code. Alternatively an Action may name its handling event by a small numeric
//! id, which selects one of a fixed set of event slots carrying the Action's state and Context.

use vstd::prelude::*;
use vstd::string::StringExecFns;
use crate::action_state::ActionState;
use crate::considerations::ShouldReinitConsiderationQueries;
use crate::context_fetchers::ShouldReinitCfQueries;
use crate::smart_object::SmartObjects;
use crate::types::{ActionContextRef, ActionKey, AiEntity};

verus! {

/// Signals that the decision engine picked the new best Action for an AI: the handler
/// key, the Action's name, the Context it was scored against, and its score.
#[derive(Debug, Clone)]
pub struct AiActionPicked<S> {
    /// The AI that picked this Action for execution.
    pub entity: AiEntity,
    /// Identifier for the handling code (e.g. "GoTo").
    pub action_key: ActionKey,
    /// Human-readable primary identifier (e.g. "Walk", "Run", "Flee" for "GoTo").
    pub action_name: String,
    /// The Context of the Action, i.e. the input we scored against.
    pub action_context: ActionContextRef,
    /// The Utility score.
    pub action_score: S,
}

impl<S> AiActionPicked<S> {
    pub fn new(
        ai_owner: AiEntity,
        action_key: ActionKey,
        action_name: String,
        action_context: ActionContextRef,
        action_score: S,
    ) -> (r: Self)
        ensures
            r == (AiActionPicked {
                entity: ai_owner,
                action_key: action_key,
                action_name: action_name,
                action_context: action_context,
                action_score: action_score,
            }),
    {
        Self {
            entity: ai_owner,
            action_key: action_key,
            action_name: action_name,
            action_context: action_context,
            action_score: action_score,
        }
    }
}

/// Signals that the library hands an Action over to user code by running the ActionHandler
/// registered for its key.
#[derive(Debug, Clone)]
pub struct AiActionDispatchToUserCode<S> {
    /// The AI (or tracker) the Action runs for.
    pub entity: AiEntity,
    /// Identifier for the handling code (e.g. "GoTo").
    pub action_key: ActionKey,
    /// Human-readable primary identifier.
    pub action_name: String,
    /// The Context of the Action.
    pub action_context: ActionContextRef,
    /// The Utility score.
    pub action_score: S,
}

impl<S> AiActionDispatchToUserCode<S> {
    pub fn new(
        ai_owner: AiEntity,
        action_key: ActionKey,
        action_name: String,
        action_context: ActionContextRef,
        action_score: S,
    ) -> (r: Self)
        ensures
            r == (AiActionDispatchToUserCode {
                entity: ai_owner,
                action_key: action_key,
                action_name: action_name,
                action_context: action_context,
                action_score: action_score,
            }),
    {
        Self {
            entity: ai_owner,
            action_key: action_key,
            action_name: action_name,
            action_context: action_context,
            action_score: action_score,
        }
    }
}

/// The dispatch to user code that a picked Action leads to: same AI, key, name, Context and score.
pub fn trigger_dispatch_to_user_actions<S: Copy>(picked: &AiActionPicked<S>) -> (r: AiActionDispatchToUserCode<S>)
    ensures
        r.entity == picked.entity,
        r.action_key == picked.action_key,
        r.action_name == picked.action_name,
        r.action_context == picked.action_context,
        r.action_score == picked.action_score,
{
    AiActionDispatchToUserCode::new(
        picked.entity,
        picked.action_key.clone(),
        picked.action_name.clone(),
        picked.action_context,
        picked.action_score,
    )
}

/// A request for a decision of an AI, with the SmartObjects it has access to.
/// Should generally not be raised more than once per entity per tick.
pub struct AiDecisionRequested {
    pub entity: AiEntity,
    pub smart_objects: Option<SmartObjects>,
}

/// Raised when a decision request has finished preparing the AI.
pub struct AiDecisionInitiated {
    pub entity: AiEntity,
    pub smart_objects: Option<SmartObjects>,
}

/// Prepares a decision: the query caches of ContextFetchers and Considerations are marked
/// for reinitialization (where those flags are installed), and the initiated decision
/// targets the same AI with the same SmartObjects.
pub fn prepare_ai(
    request: &AiDecisionRequested,
    should_reinit_cf_queries: Option<&mut ShouldReinitCfQueries>,
    should_reinit_cons_queries: Option<&mut ShouldReinitConsiderationQueries>,
) -> (r: AiDecisionInitiated)
    ensures
        r.entity == request.entity,
        r.smart_objects is Some <==> request.smart_objects is Some,
        request.smart_objects is Some ==> r.smart_objects->0.actionset_refs@ == request.smart_objects->0.actionset_refs@,
        should_reinit_cf_queries matches Some(f) ==> final(f).0,
        should_reinit_cons_queries matches Some(f) ==> final(f).0,
{
    match should_reinit_cf_queries {
        Some(flag) => flag.set(true),
        None => {},
    }
    match should_reinit_cons_queries {
        Some(flag) => flag.set(true),
        None => {},
    }
    let smart_objects = match &request.smart_objects {
        Some(so) => Some(so.clone()),
        None => None,
    };
    AiDecisionInitiated { entity: request.entity, smart_objects: smart_objects }
}

/// One of the seventeen event slots an Action can be dispatched to, with its state and Context.
pub enum GoaiActionEvent<C> {
    Zero(ActionState, Option<C>),
    One(ActionState, Option<C>),
    Two(ActionState, Option<C>),
    Three(ActionState, Option<C>),
    Four(ActionState, Option<C>),
    Five(ActionState, Option<C>),
    Six(ActionState, Option<C>),
    Seven(ActionState, Option<C>),
    Eight(ActionState, Option<C>),
    Nine(ActionState, Option<C>),
    Ten(ActionState, Option<C>),
    Eleven(ActionState, Option<C>),
    Twelve(ActionState, Option<C>),
    Thirteen(ActionState, Option<C>),
    Fourteen(ActionState, Option<C>),
    Fifteen(ActionState, Option<C>),
    Sixteen(ActionState, Option<C>),
}

/// The numeric type of event ids.
pub type GoaiActionEventId = u32;

/// The decimal digits of `n`.
pub open spec fn spec_decimal(n: nat) -> Seq<char>
    decreases n,
{
    if n < 10 {
        seq![(('0' as u8) + (n as u8)) as char]
    } else {
        spec_decimal(n / 10) + seq![(('0' as u8) + ((n % 10) as u8)) as char]
    }
}

/// The message for an event id outside the supported range.
pub open spec fn spec_id_range_message(id: GoaiActionEventId) -> Seq<char> {
    "Id "@ + spec_decimal(id as nat) + " outside of supported range (max: 16)"@
}

/// The decimal digit `d` as a string.
fn digit_str(d: u32) -> (r: &'static str)
    requires
        d < 10,
    ensures
        r@ == seq![(('0' as u8) + (d as u8)) as char],
{
    proof {
        reveal_strlit("0");
        reveal_strlit("1");
        reveal_strlit("2");
        reveal_strlit("3");
        reveal_strlit("4");
        reveal_strlit("5");
        reveal_strlit("6");
        reveal_strlit("7");
        reveal_strlit("8");
        reveal_strlit("9");
    }
    match d {
        0 => "0",
        1 => "1",
        2 => "2",
        3 => "3",
        4 => "4",
        5 => "5",
        6 => "6",
        7 => "7",
        8 => "8",
        _ => "9",
    }
}

/// `n` rendered in decimal.
fn decimal_string(n: u32) -> (r: String)
    ensures
        r@ == spec_decimal(n as nat),
    decreases n,
{
    if n < 10 {
        String::from_str(digit_str(n))
    } else {
        let mut s = decimal_string(n / 10);
        s.append(digit_str(n % 10));
        s
    }
}

/// The message for an event id outside the supported range.
fn id_range_message(id: GoaiActionEventId) -> (r: String)
    ensures
        r@ == spec_id_range_message(id),
{
    let digits = decimal_string(id);
    let mut message = String::from_str("Id ");
    message.append(digits.as_str());
    message.append(" outside of supported range (max: 16)");
    message
}

impl<C> GoaiActionEvent<C> {
    /// The slot number of an event.
    pub open spec fn spec_slot(self) -> nat {
        match self {
            GoaiActionEvent::Zero(..) => 0,
            GoaiActionEvent::One(..) => 1,
            GoaiActionEvent::Two(..) => 2,
            GoaiActionEvent::Three(..) => 3,
            GoaiActionEvent::Four(..) => 4,
            GoaiActionEvent::Five(..) => 5,
            GoaiActionEvent::Six(..) => 6,
            GoaiActionEvent::Seven(..) => 7,
            GoaiActionEvent::Eight(..) => 8,
            GoaiActionEvent::Nine(..) => 9,
            GoaiActionEvent::Ten(..) => 10,
            GoaiActionEvent::Eleven(..) => 11,
            GoaiActionEvent::Twelve(..) => 12,
            GoaiActionEvent::Thirteen(..) => 13,
            GoaiActionEvent::Fourteen(..) => 14,
            GoaiActionEvent::Fifteen(..) => 15,
            GoaiActionEvent::Sixteen(..) => 16,
        }
    }

    /// The state carried.
    pub open spec fn spec_state(self) -> ActionState {
        match self {
            GoaiActionEvent::Zero(s, _) => s,
            GoaiActionEvent::One(s, _) => s,
            GoaiActionEvent::Two(s, _) => s,
            GoaiActionEvent::Three(s, _) => s,
            GoaiActionEvent::Four(s, _) => s,
            GoaiActionEvent::Five(s, _) => s,
            GoaiActionEvent::Six(s, _) => s,
            GoaiActionEvent::Seven(s, _) => s,
            GoaiActionEvent::Eight(s, _) => s,
            GoaiActionEvent::Nine(s, _) => s,
            GoaiActionEvent::Ten(s, _) => s,
            GoaiActionEvent::Eleven(s, _) => s,
            GoaiActionEvent::Twelve(s, _) => s,
            GoaiActionEvent::Thirteen(s, _) => s,
            GoaiActionEvent::Fourteen(s, _) => s,
            GoaiActionEvent::Fifteen(s, _) => s,
            GoaiActionEvent::Sixteen(s, _) => s,
        }
    }

    /// The Context carried.
    pub open spec fn spec_context(self) -> Option<C> {
        match self {
            GoaiActionEvent::Zero(_, c) => c,
            GoaiActionEvent::One(_, c) => c,
            GoaiActionEvent::Two(_, c) => c,
            GoaiActionEvent::Three(_, c) => c,
            GoaiActionEvent::Four(_, c) => c,
            GoaiActionEvent::Five(_, c) => c,
            GoaiActionEvent::Six(_, c) => c,
            GoaiActionEvent::Seven(_, c) => c,
            GoaiActionEvent::Eight(_, c) => c,
            GoaiActionEvent::Nine(_, c) => c,
            GoaiActionEvent::Ten(_, c) => c,
            GoaiActionEvent::Eleven(_, c) => c,
            GoaiActionEvent::Twelve(_, c) => c,
            GoaiActionEvent::Thirteen(_, c) => c,
            GoaiActionEvent::Fourteen(_, c) => c,
            GoaiActionEvent::Fifteen(_, c) => c,
            GoaiActionEvent::Sixteen(_, c) => c,
        }
    }

    /// The slot an id selects. Note that id 9 selects slot zero.
    pub open spec fn spec_slot_for_id(id: GoaiActionEventId) -> nat {
        if id == 9 {
            0
        } else {
            id as nat
        }
    }

    /// Builds the event for `id` in the Running state; ids above 16 are refused.
    pub fn from_id_and_context(id: GoaiActionEventId, context: Option<C>) -> (r: Result<Self, String>)
        ensures
            id <= 16 ==> r is Ok && r->Ok_0.spec_slot() == Self::spec_slot_for_id(id)
                && r->Ok_0.spec_state() == ActionState::Running && r->Ok_0.spec_context() == context,
            id > 16 ==> r is Err && r->Err_0@ == spec_id_range_message(id),
    {
        match id {
            0 => Ok(Self::Zero(ActionState::Running, context)),
            1 => Ok(Self::One(ActionState::Running, context)),
            2 => Ok(Self::Two(ActionState::Running, context)),
            3 => Ok(Self::Three(ActionState::Running, context)),
            4 => Ok(Self::Four(ActionState::Running, context)),
            5 => Ok(Self::Five(ActionState::Running, context)),
            6 => Ok(Self::Six(ActionState::Running, context)),
            7 => Ok(Self::Seven(ActionState::Running, context)),
            8 => Ok(Self::Eight(ActionState::Running, context)),
            9 => Ok(Self::Zero(ActionState::Running, context)),
            10 => Ok(Self::Ten(ActionState::Running, context)),
            11 => Ok(Self::Eleven(ActionState::Running, context)),
            12 => Ok(Self::Twelve(ActionState::Running, context)),
            13 => Ok(Self::Thirteen(ActionState::Running, context)),
            14 => Ok(Self::Fourteen(ActionState::Running, context)),
            15 => Ok(Self::Fifteen(ActionState::Running, context)),
            16 => Ok(Self::Sixteen(ActionState::Running, context)),
            _ => Err(id_range_message(id)),
        }
    }

    pub fn get_state(&self) -> (r: &ActionState)
        ensures *r == self.spec_state(),
    {
        match self {
            Self::Zero(state, _) => state,
            Self::One(state, _) => state,
            Self::Two(state, _) => state,
            Self::Three(state, _) => state,
            Self::Four(state, _) => state,
            Self::Five(state, _) => state,
            Self::Six(state, _) => state,
            Self::Seven(state, _) => state,
            Self::Eight(state, _) => state,
            Self::Nine(state, _) => state,
            Self::Ten(state, _) => state,
            Self::Eleven(state, _) => state,
            Self::Twelve(state, _) => state,
            Self::Thirteen(state, _) => state,
            Self::Fourteen(state, _) => state,
            Self::Fifteen(state, _) => state,
            Self::Sixteen(state, _) => state,
        }
    }

    pub fn get_context(&self) -> (r: &Option<C>)
        ensures *r == self.spec_context(),
    {
        match self {
            Self::Zero(_, ctx) => ctx,
            Self::One(_, ctx) => ctx,
            Self::Two(_, ctx) => ctx,
            Self::Three(_, ctx) => ctx,
            Self::Four(_, ctx) => ctx,
            Self::Five(_, ctx) => ctx,
            Self::Six(_, ctx) => ctx,
            Self::Seven(_, ctx) => ctx,
            Self::Eight(_, ctx) => ctx,
            Self::Nine(_, ctx) => ctx,
            Self::Ten(_, ctx) => ctx,
            Self::Eleven(_, ctx) => ctx,
            Self::Twelve(_, ctx) => ctx,
            Self::Thirteen(_, ctx) => ctx,
            Self::Fourteen(_, ctx) => ctx,
            Self::Fifteen(_, ctx) => ctx,
            Self::Sixteen(_, ctx) => ctx,
        }
    }
}

} // verus!
