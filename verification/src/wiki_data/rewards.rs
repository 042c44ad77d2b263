//! Names of treasures.

use std::collections::HashMap;
use vstd::prelude::*;

verus! {

broadcast use vstd::std_specs::hash::group_hash_axioms;

/// A treasure and its name.
#[derive(Debug)]
pub struct TreasureEntry {
    /// Treasure id.
    pub id: u32,
    /// Name of the treasure.
    pub name: String,
}

/// Treasures by id.
pub struct TreasureMap {
    map: HashMap<u32, TreasureEntry>,
}

/// Treasures by id of a list of treasures, later entries replacing earlier
/// ones.
pub open spec fn treasure_map(es: Seq<TreasureEntry>) -> Map<u32, TreasureEntry>
    decreases es.len(),
{
    if es.len() == 0 {
        Map::empty()
    } else {
        treasure_map(es.drop_last()).insert(es.last().id, es.last())
    }
}

impl TreasureMap {
    /// The treasures by id.
    pub closed spec fn spec_map(&self) -> Map<u32, TreasureEntry> {
        self.map@
    }

    /// Create a map from a list of treasures.
    pub fn new(entries: Vec<TreasureEntry>) -> (m: Self)
        ensures
            m.spec_map() == treasure_map(entries@),
    {
        let ghost es = entries@;
        let mut map: HashMap<u32, TreasureEntry> = HashMap::new();
        let mut rest = entries;
        let ghost n = es.len();
        assert(es.subrange(0, 0) =~= Seq::<TreasureEntry>::empty());
        while rest.len() > 0
            invariant
                n == es.len(),
                rest.len() <= n,
                rest@ == es.subrange(n - rest.len(), n as int),
                map@ == treasure_map(es.subrange(0, n - rest.len())),
            decreases rest.len(),
        {
            let ghost done = es.subrange(0, n - rest.len());
            let ghost rv = rest@;
            let e = rest.remove(0);
            assert(e == rv[0]);
            assert(rest@ =~= rv.drop_first());
            assert(es.subrange(0, n - rest.len()) =~= done.push(e));
            assert(done.push(e).drop_last() =~= done);
            let id = e.id;
            map.insert(id, e);
        }
        assert(es.subrange(0, n as int) =~= es);
        Self { map }
    }

    /// Get the treasure with id `id`.
    fn get_treasure(&self, id: u32) -> (t: &TreasureEntry)
        requires
            self.spec_map().contains_key(id),
        ensures
            *t == self.spec_map()[id],
    {
        self.map.get(&id).unwrap()
    }

    /// Get the name of the treasure with id `id`.
    pub fn get_treasure_name(&self, id: u32) -> (s: &str)
        requires
            self.spec_map().contains_key(id),
        ensures
            s@ == self.spec_map()[id].name@,
    {
        self.get_treasure(id).name.as_str()
    }
}

} // verus!
