//! Names and data of enemies.

use crate::text::{lowercase, str_eq, to_lowercase};
use std::collections::HashMap;
use vstd::prelude::*;

verus! {

broadcast use vstd::std_specs::hash::group_hash_axioms;

/// Names of an enemy as used in enemy links.
#[derive(Debug)]
pub struct EnemyName {
    /// Number of the enemy (two more than its enemy id).
    pub id: u32,
    /// Name of the enemy.
    pub name: String,
    /// Plural of the name.
    pub plural: String,
}

/// Data about an enemy.
#[derive(Debug)]
pub struct EnemyData {
    /// Enemy id.
    pub image_id: u32,
    /// Common name of the enemy.
    pub name: String,
    /// Page of the enemy, if it has one.
    pub link: Option<String>,
    /// Hit points of the enemy.
    pub hp: u32,
    /// Attack of the enemy.
    pub attack: u32,
}

/// Container for enemy data: names by number, data by enemy id, and enemy
/// ids by lowercase name.
pub struct EnemyDataContainer {
    names: Vec<EnemyName>,
    data: HashMap<u32, EnemyData>,
    reverse_id_map: Vec<(String, u32)>,
}

/// Id of the last enemy whose name has the lowercase form `key`.
pub open spec fn last_id_named(entries: Seq<(String, u32)>, key: Seq<char>) -> Option<u32>
    decreases entries.len(),
{
    if entries.len() == 0 {
        None
    } else if entries.last().0@ == key {
        Some(entries.last().1)
    } else {
        last_id_named(entries.drop_last(), key)
    }
}

/// Data by enemy id of a list of enemies, later entries replacing earlier
/// ones.
pub open spec fn data_map(es: Seq<EnemyData>) -> Map<u32, EnemyData>
    decreases es.len(),
{
    if es.len() == 0 {
        Map::empty()
    } else {
        data_map(es.drop_last()).insert(es.last().image_id, es.last())
    }
}

/// Enemy ids by lowercase name of a list of enemies.
pub open spec fn reverse_entries(es: Seq<EnemyData>) -> Seq<(Seq<char>, u32)> {
    Seq::new(es.len(), |i: int| (lowercase(es[i].name@), es[i].image_id))
}

/// Views of name/id pairs.
pub open spec fn pairs_view(ps: Seq<(String, u32)>) -> Seq<(Seq<char>, u32)> {
    Seq::new(ps.len(), |i: int| (ps[i].0@, ps[i].1))
}

impl EnemyDataContainer {
    /// Enemy names by number.
    pub closed spec fn spec_names(&self) -> Seq<EnemyName> {
        self.names@
    }

    /// Enemy data by enemy id.
    pub closed spec fn spec_data(&self) -> Map<u32, EnemyData> {
        self.data@
    }

    /// Lowercase names and ids, in the order of the data.
    pub closed spec fn spec_reverse(&self) -> Seq<(String, u32)> {
        self.reverse_id_map@
    }

    /// Create a container from the enemy names and the enemy data; where
    /// ids or names repeat, the later entry counts.
    pub fn new(names: Vec<EnemyName>, enemies: Vec<EnemyData>) -> (c: Self)
        ensures
            c.spec_names() == names@,
            c.spec_data() == data_map(enemies@),
            pairs_view(c.spec_reverse()) == reverse_entries(enemies@),
    {
        let ghost es = enemies@;
        let mut reverse_id_map: Vec<(String, u32)> = Vec::new();
        let mut data: HashMap<u32, EnemyData> = HashMap::new();
        let mut rest = enemies;
        let ghost n = es.len();
        assert(es.subrange(0, 0) =~= Seq::<EnemyData>::empty());
        assert(pairs_view(reverse_id_map@) =~= reverse_entries(es.subrange(0, 0)));
        while rest.len() > 0
            invariant
                n == es.len(),
                rest.len() <= n,
                rest@ == es.subrange(n - rest.len(), n as int),
                data@ == data_map(es.subrange(0, n - rest.len())),
                pairs_view(reverse_id_map@) == reverse_entries(es.subrange(0, n - rest.len())),
            decreases rest.len(),
        {
            let ghost done = es.subrange(0, n - rest.len());
            let ghost next = es.subrange(0, n - rest.len() + 1);
            let ghost rv = rest@;
            let e = rest.remove(0);
            assert(e == rv[0]);
            assert(rest@ =~= rv.drop_first());
            assert(next =~= done.push(e));
            assert(next.drop_last() =~= done);
            let key = to_lowercase(e.name.as_str());
            let ghost pv = pairs_view(reverse_id_map@);
            let ghost old_r = reverse_id_map@;
            assert(old_r.len() == done.len()) by {
                assert(pv.len() == reverse_entries(done).len());
            }
            reverse_id_map.push((key, e.image_id));
            assert forall|j: int| 0 <= j < next.len() implies #[trigger] pairs_view(reverse_id_map@)[j] == reverse_entries(next)[j] by {
                if j < next.len() - 1 {
                    assert(next[j] == done[j]);
                    assert(reverse_id_map@[j] == old_r[j]);
                    assert(pv[j] == reverse_entries(done)[j]);
                }
            }
            assert(pairs_view(reverse_id_map@) =~= reverse_entries(next));
            let id = e.image_id;
            data.insert(id, e);
        }
        assert(es.subrange(0, n as int) =~= es);
        Self { names, data, reverse_id_map }
    }

    /// Get the names of the enemy with enemy id `id`.
    pub fn get_names(&self, id: u32) -> (n: &EnemyName)
        requires
            id + 2 < self.spec_names().len(),
        ensures
            *n == self.spec_names()[id + 2],
    {
        let n = self.names.len();
        &self.names[id as usize + 2]
    }

    /// Get the names of the enemy with wiki id `id` (Doge is 0).
    pub fn get_name(&self, id: u32) -> (n: &EnemyName)
        requires
            id + 2 < self.spec_names().len(),
        ensures
            *n == self.spec_names()[id + 2],
    {
        self.get_names(id)
    }

    /// Get the common name of the enemy with enemy id `id`.
    pub fn get_common_name(&self, id: u32) -> (s: &str)
        requires
            self.spec_data().contains_key(id),
        ensures
            s@ == self.spec_data()[id].name@,
    {
        self.get_data(id).name.as_str()
    }

    /// Get the data of the enemy with enemy id `id`.
    pub fn get_data(&self, id: u32) -> (d: &EnemyData)
        requires
            self.spec_data().contains_key(id),
        ensures
            *d == self.spec_data()[id],
    {
        self.data.get(&id).unwrap()
    }

    /// Get the id of the (last listed) enemy whose name is `name`, ignoring
    /// case.
    pub fn get_id_from_name(&self, name: &str) -> (r: Option<u32>)
        ensures
            r == last_id_named(self.spec_reverse(), lowercase(name@)),
    {
        let key = to_lowercase(name);
        let mut i: usize = self.reverse_id_map.len();
        assert(self.reverse_id_map@.subrange(0, i as int) =~= self.reverse_id_map@);
        while i > 0
            invariant
                0 <= i <= self.reverse_id_map.len(),
                key@ == lowercase(name@),
                last_id_named(self.reverse_id_map@, key@) == last_id_named(self.reverse_id_map@.subrange(0, i as int), key@),
            decreases i,
        {
            let ghost pre = self.reverse_id_map@.subrange(0, i as int);
            assert(pre.last() == self.reverse_id_map@[i - 1]);
            if str_eq(self.reverse_id_map[i - 1].0.as_str(), key.as_str()) {
                return Some(self.reverse_id_map[i - 1].1);
            }
            assert(pre.drop_last() =~= self.reverse_id_map@.subrange(0, i - 1));
            i = i - 1;
        }
        None
    }
}

} // verus!
