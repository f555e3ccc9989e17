//! Registries of user-provided items (ContextFetchers, Considerations, ActionHandlers)
//! by string key.
//!
//! Registering under a key that is already taken replaces the earlier registration
//! (and reports the collision). The registry also remembers the order in which keys
//! were first registered, so that all registered items can be visited.

use vstd::hash_map::StringHashMap;
use vstd::prelude::*;

verus! {

/// Items `V` registered under string keys.
#[verifier::reject_recursive_types(V)]
pub struct KeyedRegistry<V> {
    mapping: StringHashMap<V>,
    keys: Vec<String>,
}

/// `keys` lists every key of `m` exactly once, and nothing else.
closed spec fn keys_match_of<V>(m: Map<Seq<char>, V>, keys: Seq<String>) -> bool {
    &&& forall|i: int| 0 <= i < keys.len() ==> m.contains_key(#[trigger] keys[i]@)
    &&& forall|i: int, j: int| 0 <= i < j < keys.len() ==> keys[i]@ != keys[j]@
    &&& forall|k: Seq<char>| m.contains_key(k) ==> exists|i: int| 0 <= i < keys.len() && #[trigger] keys[i]@ == k
}

impl<V> View for KeyedRegistry<V> {
    type V = Map<Seq<char>, V>;

    closed spec fn view(&self) -> Map<Seq<char>, V> {
        self.mapping@
    }
}

impl<V> KeyedRegistry<V> {
    /// Every remembered key is registered, each registered key is remembered once.
    #[verifier::type_invariant]
    closed spec fn keys_match(self) -> bool {
        keys_match_of(self.mapping@, self.keys@)
    }

    /// The registered keys, in the order of their first registration.
    pub closed spec fn spec_keys(self) -> Seq<Seq<char>> {
        self.keys@.map_values(|s: String| s@)
    }

    /// An empty registry.
    pub fn new() -> (r: Self)
        ensures
            r@ == Map::<Seq<char>, V>::empty(),
            r.spec_keys() == Seq::<Seq<char>>::empty(),
    {
        let r = KeyedRegistry { mapping: StringHashMap::new(), keys: Vec::new() };
        proof {
            assert(r.keys@.map_values(|s: String| s@) =~= Seq::<Seq<char>>::empty());
        }
        r
    }

    /// Registers `value` under `key`, replacing (and reporting) an earlier registration.
    pub fn register(&mut self, key: String, value: V) -> (replaced: bool)
        ensures
            replaced == old(self)@.contains_key(key@),
            final(self)@ == old(self)@.insert(key@, value),
            final(self).spec_keys() == (if replaced {
                old(self).spec_keys()
            } else {
                old(self).spec_keys().push(key@)
            }),
    {
        proof {
            use_type_invariant(&*self);
        }
        let mut taken = KeyedRegistry::new();
        std::mem::swap(self, &mut taken);
        proof {
            use_type_invariant(&taken);
        }
        let ghost before = taken;
        let KeyedRegistry { mut mapping, mut keys } = taken;
        let replaced = mapping.contains_key(key.as_str());
        if replaced {
            mapping.insert(key, value);
            proof {
                assert forall|k: Seq<char>| mapping@.contains_key(k) implies exists|i: int|
                    0 <= i < keys@.len() && #[trigger] keys@[i]@ == k by {
                    assert(before.mapping@.contains_key(k));
                }
                assert forall|i: int| 0 <= i < keys@.len() implies mapping@.contains_key(#[trigger] keys@[i]@) by {
                    assert(before.mapping@.contains_key(before.keys@[i]@));
                }
            }
        } else {
            let remembered = key.clone();
            mapping.insert(key, value);
            keys.push(remembered);
            proof {
                let old_keys = before.keys@;
                assert(keys@ == old_keys.push(remembered));
                assert(keys@[old_keys.len() as int]@ == remembered@);
                assert forall|k: Seq<char>| mapping@.contains_key(k) implies exists|i: int|
                    0 <= i < keys@.len() && #[trigger] keys@[i]@ == k by {
                    if k == remembered@ {
                        assert(keys@[old_keys.len() as int]@ == k);
                    } else {
                        assert(before.mapping@.contains_key(k));
                        let i = choose|i: int| 0 <= i < old_keys.len() && #[trigger] old_keys[i]@ == k;
                        assert(keys@[i] == old_keys[i]);
                    }
                }
                assert forall|i: int| 0 <= i < keys@.len() implies mapping@.contains_key(#[trigger] keys@[i]@) by {
                    if i < old_keys.len() {
                        assert(keys@[i] == old_keys[i]);
                        assert(before.mapping@.contains_key(old_keys[i]@));
                    }
                }
                assert forall|i: int, j: int| 0 <= i < j < keys@.len() implies keys@[i]@ != keys@[j]@ by {
                    if j == old_keys.len() {
                        assert(keys@[i] == old_keys[i]);
                        assert(before.mapping@.contains_key(old_keys[i]@));
                    } else {
                        assert(keys@[i] == old_keys[i]);
                        assert(keys@[j] == old_keys[j]);
                    }
                }
                assert(keys@.map_values(|s: String| s@) =~= old_keys.map_values(|s: String| s@).push(remembered@));
            }
        }
        assert(keys_match_of(mapping@, keys@));
        *self = KeyedRegistry { mapping, keys };
        replaced
    }

    /// The item registered under `key`, if any.
    pub fn get(&self, key: &str) -> (r: Option<&V>)
        ensures
            match r {
                Some(v) => self@.contains_key(key@) && *v == self@[key@],
                None => !self@.contains_key(key@),
            },
    {
        self.mapping.get(key)
    }

    /// The registered keys, in the order of their first registration: each registered
    /// key exactly once.
    pub fn keys(&self) -> (r: &Vec<String>)
        ensures
            r@.len() == self.spec_keys().len(),
            forall|i: int| 0 <= i < r@.len() ==> #[trigger] r@[i]@ == self.spec_keys()[i],
            forall|k: Seq<char>| self@.contains_key(k) <==> self.spec_keys().contains(k),
            forall|i: int, j: int| 0 <= i < j < self.spec_keys().len() ==> self.spec_keys()[i] != self.spec_keys()[j],
    {
        proof {
            use_type_invariant(self);
            assert forall|k: Seq<char>| self@.contains_key(k) <==> self.spec_keys().contains(k) by {
                if self@.contains_key(k) {
                    let i = choose|i: int| 0 <= i < self.keys@.len() && #[trigger] self.keys@[i]@ == k;
                    assert(self.spec_keys()[i] == k);
                }
                if self.spec_keys().contains(k) {
                    let i = choose|i: int| 0 <= i < self.spec_keys().len() && self.spec_keys()[i] == k;
                    assert(self.keys@[i]@ == k);
                }
            }
        }
        &self.keys
    }
}

/// Read gives back the last write: after registering `v` under `key`, the key yields `v`
/// and every other key yields what it yielded before.
pub proof fn law_registered_item_is_found<V>(m: Map<Seq<char>, V>, key: Seq<char>, v: V, other: Seq<char>)
    ensures
        m.insert(key, v).contains_key(key),
        m.insert(key, v)[key] == v,
        other != key ==> (m.insert(key, v).contains_key(other) == m.contains_key(other)),
        other != key && m.contains_key(other) ==> m.insert(key, v)[other] == m[other],
{
}

} // verus!
