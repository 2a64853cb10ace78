//! The key/value options a connector is configured with.

use vstd::prelude::*;
use vstd::hash_map::StringHashMap;

verus! {

/// User-supplied options, keyed by name. Its view is the map from each key to its value.
pub struct ConnectorOptions {
    map: StringHashMap<String>,
}

/// The value under `key`, if the map has one.
pub open spec fn lookup(m: Map<Seq<char>, Seq<char>>, key: Seq<char>) -> Option<Seq<char>> {
    if m.contains_key(key) {
        Some(m[key])
    } else {
        None
    }
}

impl View for ConnectorOptions {
    type V = Map<Seq<char>, Seq<char>>;

    closed spec fn view(&self) -> Map<Seq<char>, Seq<char>> {
        self.map@.map_values(|s: String| s@)
    }
}

impl ConnectorOptions {
    pub fn new() -> (o: ConnectorOptions)
        ensures
            o@ == Map::<Seq<char>, Seq<char>>::empty(),
    {
        let o = ConnectorOptions { map: StringHashMap::new() };
        assert(o@ =~= Map::<Seq<char>, Seq<char>>::empty());
        o
    }

    /// Sets `key` to `value`, replacing what was there.
    pub fn insert(&mut self, key: String, value: String)
        ensures
            final(self)@ == old(self)@.insert(key@, value@),
    {
        self.map.insert(key, value);
        assert(self@ =~= old(self)@.insert(key@, value@));
    }

    pub fn contains_key(&self, key: &str) -> (b: bool)
        ensures
            b == self@.contains_key(key@),
    {
        self.map.contains_key(key)
    }

    /// Takes the value under `key` out of the options.
    pub fn remove(&mut self, key: &str) -> (r: Option<String>)
        ensures
            crate::types::opt_view(r) == lookup(old(self)@, key@),
            final(self)@ == old(self)@.remove(key@),
    {
        let r = match self.map.get(key) {
            Some(v) => Some(v.clone()),
            None => None,
        };
        self.map.remove(key);
        assert(self@ =~= old(self)@.remove(key@));
        r
    }

    pub fn is_empty(&self) -> (b: bool)
        ensures
            b == (self@ == Map::<Seq<char>, Seq<char>>::empty()),
    {
        let b = self.map.is_empty();
        proof {
            if b {
                assert(self@ =~= Map::<Seq<char>, Seq<char>>::empty());
            } else {
                assert(self.map@.dom() =~= self@.dom());
            }
        }
        b
    }
}

} // verus!
