//! SmartObjects and the ActionSet store.
//!
//! Each AI has SmartObjects associated with it; a SmartObject provides the AI with
//! ActionSets, referred to by key. The keys are resolved through the ActionSet store
//! (a resource keyed by ActionSet name). The flow for gathering the Actions an AI may
//! take is therefore: SmartObject keys -> store lookup -> ActionSet -> ActionTemplates.

use vstd::hash_map::StringHashMap;
use vstd::prelude::*;
use crate::thread_safe_wrapper::ThreadSafeRef;
use crate::types::ActionSetRef;

verus! {

/// A named collection of ActionTemplates `A`.
#[derive(Debug, Clone)]
pub struct ActionSet<A> {
    pub name: String,
    pub actions: Vec<A>,
}

impl<A> ActionSet<A> {
    pub fn new(name: String, actions: Vec<A>) -> (r: Self)
        ensures
            r.name == name,
            r.actions == actions,
    {
        Self { name: name, actions: actions }
    }
}

/// The ActionSets available in the world, by name.
#[verifier::reject_recursive_types(A)]
pub struct ActionSetStore<A> {
    pub map_by_name: StringHashMap<ActionSet<A>>,
}

impl<A> ActionSetStore<A> {
    /// An empty store.
    pub fn new() -> (r: Self)
        ensures r.map_by_name@ == Map::<Seq<char>, ActionSet<A>>::empty(),
    {
        ActionSetStore { map_by_name: StringHashMap::new() }
    }

    /// Stores `set` under its own name, replacing any set of that name.
    pub fn upsert(&mut self, set: ActionSet<A>)
        ensures
            final(self).map_by_name@ == old(self).map_by_name@.insert(set.name@, set),
    {
        let name = set.name.clone();
        self.map_by_name.insert(name, set);
    }
}

/// The ActionSet keys an AI currently has access to.
pub struct SmartObjects {
    pub actionset_refs: ThreadSafeRef<Vec<ActionSetRef>>,
}

impl SmartObjects {
    pub fn new(actionset_refs: Vec<ActionSetRef>) -> (r: Self)
        ensures r.actionset_refs@ == actionset_refs,
    {
        SmartObjects { actionset_refs: ThreadSafeRef::new(actionset_refs) }
    }
}

impl Clone for SmartObjects {
    fn clone(&self) -> (r: Self)
        ensures r.actionset_refs@ == self.actionset_refs@,
    {
        SmartObjects { actionset_refs: self.actionset_refs.clone() }
    }
}

/// The templates an AI gathers: for each key in order, the actions of the set stored
/// under it (keys with no stored set contribute nothing).
pub open spec fn spec_gathered_actions<A>(store: Map<Seq<char>, ActionSet<A>>, refs: Seq<ActionSetRef>) -> Seq<A>
    decreases refs.len(),
{
    if refs.len() == 0 {
        Seq::empty()
    } else {
        let prev = spec_gathered_actions(store, refs.drop_last());
        let key = refs.last()@;
        if store.contains_key(key) {
            prev + store[key].actions@
        } else {
            prev
        }
    }
}

/// `copies` is an element-wise clone of `originals`.
pub open spec fn cloned_seq<A: Clone>(originals: Seq<A>, copies: Seq<A>) -> bool {
    &&& copies.len() == originals.len()
    &&& forall|i: int| 0 <= i < originals.len() ==> cloned::<A>(#[trigger] originals[i], copies[i])
}

/// Gathers the ActionTemplates available through an AI's SmartObjects, in key order.
pub fn gather_available_actions<A: Clone>(smartobjects: &SmartObjects, store: &ActionSetStore<A>) -> (r: Vec<A>)
    ensures
        cloned_seq(spec_gathered_actions(store.map_by_name@, smartobjects.actionset_refs@@), r@),
{
    let refs: &Vec<ActionSetRef> = smartobjects.actionset_refs.get();
    let mut r: Vec<A> = Vec::new();
    let n = refs.len();
    let mut i: usize = 0;
    proof {
        assert(refs@.take(0) =~= Seq::<ActionSetRef>::empty());
    }
    while i < n
        invariant
            n == refs@.len(),
            i <= n,
            cloned_seq(spec_gathered_actions(store.map_by_name@, refs@.take(i as int)), r@),
        decreases n - i,
    {
        proof {
            assert(refs@.take(i + 1).drop_last() =~= refs@.take(i as int));
            assert(refs@.take(i + 1).last() == refs@[i as int]);
        }
        let ghost prev = spec_gathered_actions(store.map_by_name@, refs@.take(i as int));
        match store.map_by_name.get(refs[i].as_str()) {
            None => {},
            Some(set) => {
                let m = set.actions.len();
                let mut j: usize = 0;
                let ghost base = r@;
                while j < m
                    invariant
                        m == set.actions@.len(),
                        j <= m,
                        base.len() == prev.len(),
                        r@.len() == base.len() + j,
                        cloned_seq(prev, base),
                        forall|k: int| 0 <= k < base.len() ==> #[trigger] r@[k] == base[k],
                        forall|k: int| 0 <= k < j ==> cloned::<A>(set.actions@[k], #[trigger] r@[base.len() + k]),
                    decreases m - j,
                {
                    let a = set.actions[j].clone();
                    r.push(a);
                    j = j + 1;
                }
                proof {
                    let full = prev + set.actions@;
                    assert forall|k: int| 0 <= k < full.len() implies cloned::<A>(#[trigger] full[k], r@[k]) by {
                        if k < prev.len() {
                            assert(r@[k] == base[k]);
                            assert(full[k] == prev[k]);
                            assert(cloned::<A>(prev[k], base[k]));
                        } else {
                            let kk = k - prev.len();
                            assert(full[k] == set.actions@[kk]);
                            assert(cloned::<A>(set.actions@[kk], r@[base.len() + kk]));
                        }
                    }
                }
            },
        }
        i = i + 1;
    }
    proof {
        assert(refs@.take(n as int) =~= refs@);
    }
    r
}

/// Gathering is compositional: the templates gathered through two lists of ActionSet keys
/// one after the other are those gathered through the first, then through the second.
pub proof fn law_gathered_actions_concat<A>(
    store: Map<Seq<char>, ActionSet<A>>,
    refs1: Seq<ActionSetRef>,
    refs2: Seq<ActionSetRef>,
)
    ensures
        spec_gathered_actions(store, refs1 + refs2) == spec_gathered_actions(store, refs1) + spec_gathered_actions(
            store,
            refs2,
        ),
    decreases refs2.len(),
{
    if refs2.len() == 0 {
        assert(refs1 + refs2 =~= refs1);
        assert(spec_gathered_actions(store, refs1) + Seq::<A>::empty() =~= spec_gathered_actions(store, refs1));
    } else {
        assert((refs1 + refs2).drop_last() =~= refs1 + refs2.drop_last());
        assert((refs1 + refs2).last() == refs2.last());
        law_gathered_actions_concat(store, refs1, refs2.drop_last());
        let a = spec_gathered_actions(store, refs1);
        let b = spec_gathered_actions(store, refs2.drop_last());
        let key = refs2.last()@;
        if store.contains_key(key) {
            assert(a + (b + store[key].actions@) =~= (a + b) + store[key].actions@);
        }
    }
}

/// A key with no ActionSet stored under it contributes no templates.
pub proof fn law_unknown_keys_contribute_nothing<A>(
    store: Map<Seq<char>, ActionSet<A>>,
    refs: Seq<ActionSetRef>,
    key: ActionSetRef,
)
    requires
        !store.contains_key(key@),
    ensures
        spec_gathered_actions(store, refs.push(key)) == spec_gathered_actions(store, refs),
{
    assert(refs.push(key).drop_last() =~= refs);
}

} // verus!
