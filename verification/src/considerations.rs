//! Consideration bookkeeping that does not involve scores.
//!
//! Registered Consideration systems cache their queries; they are reinitialized before an
//! AI decision runs and the reinit is switched off once some AI has processed a decision.

use vstd::prelude::*;

verus! {

/// Whether Consideration queries must be reinitialized before they are next run.
#[derive(Debug, Clone, Copy, PartialEq, Eq, Structural)]
pub struct ShouldReinitConsiderationQueries(pub bool);

impl ShouldReinitConsiderationQueries {
    pub fn get(&self) -> (r: bool)
        ensures r == self.0,
    {
        self.0
    }

    pub fn set(&mut self, val: bool)
        ensures final(self).0 == val,
    {
        self.0 = val;
    }
}

impl Default for ShouldReinitConsiderationQueries {
    fn default() -> (r: Self)
        ensures r.0,
    {
        Self(true)
    }
}

/// Whether the reinit pass runs: yes when no flag resource is installed, else as the flag says.
pub fn reinit_consideration_queries_needed(flag: Option<&ShouldReinitConsiderationQueries>) -> (r: bool)
    ensures
        r == (match flag {
            None => true,
            Some(f) => f.0,
        }),
{
    match flag {
        None => true,
        Some(reinit_mark) => reinit_mark.get(),
    }
}

} // verus!
