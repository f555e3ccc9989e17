//! Pawns: the entity an AI controller drives.
//!
//! An AIController on its own is just an abstract decision process; to get actual NPCs
//! it needs to 'drive' another entity. This can be a classic NPC, but also things like
//! squads, factions, or 'the world' for Director AI.

use std::borrow::Borrow;
use vstd::prelude::*;
use crate::types::{PawnEntity, PawnEntityRef};

verus! {

#[derive(Debug, Clone, Copy, PartialEq, Eq, Structural)]
pub struct Pawn(pub PawnEntityRef);

impl Pawn {
    pub fn new(maybe_pawn: Option<PawnEntity>) -> (r: Self)
        ensures r.0 == maybe_pawn,
    {
        Self(maybe_pawn)
    }

    pub fn new_empty() -> (r: Self)
        ensures r.0 is None,
    {
        Self(None)
    }

    pub fn new_populated(pawn: PawnEntity) -> (r: Self)
        ensures r.0 == Some(pawn),
    {
        Self(Some(pawn))
    }

    pub fn as_entity(&self) -> (r: Option<&PawnEntity>)
        ensures
            r is Some <==> self.0 is Some,
            r is Some ==> *r->0 == self.0->0,
    {
        match &self.0 {
            None => None,
            Some(pawn_id) => Some(pawn_id),
        }
    }

    pub fn to_entity(self) -> (r: Option<PawnEntity>)
        ensures r == self.0,
    {
        match self.0 {
            None => None,
            Some(pawn_id) => Some(pawn_id),
        }
    }
}

impl Borrow<PawnEntityRef> for Pawn {
    fn borrow(&self) -> &PawnEntityRef
        returns
            &self.0,
    {
        &self.0
    }
}

impl Default for Pawn {
    fn default() -> (r: Self)
        ensures r.0 is None,
    {
        Self(None)
    }
}

} // verus!
