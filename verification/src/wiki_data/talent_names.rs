//! Names of talents.

use vstd::prelude::*;

verus! {

/// A talent and its name.
#[derive(Debug, Default)]
pub struct TalentEntry {
    /// Talent id.
    pub id: usize,
    /// Name of the talent.
    pub name: String,
}

/// Talents by id: entry 0 is a blank entry, talent `n` is entry `n`.
pub struct TalentMap {
    map: Vec<TalentEntry>,
}

impl TalentMap {
    /// The talents, a blank entry first.
    pub closed spec fn spec_entries(&self) -> Seq<TalentEntry> {
        self.map@
    }

    /// Create a map from the talents of the data file, in order; a blank
    /// entry with id 0 goes first.
    pub fn new(talents: Vec<TalentEntry>) -> (m: Self)
        ensures
            m.spec_entries().len() == talents@.len() + 1,
            m.spec_entries()[0].id == 0,
            m.spec_entries()[0].name@ == Seq::<char>::empty(),
            m.spec_entries().drop_first() == talents@,
    {
        let mut map: Vec<TalentEntry> = Vec::new();
        map.push(TalentEntry { id: 0, name: String::new() });
        let mut rest = talents;
        let ghost ts = rest@;
        let ghost n = ts.len();
        while rest.len() > 0
            invariant
                n == ts.len(),
                rest.len() <= n,
                rest@ == ts.subrange(n - rest.len(), n as int),
                map@.len() == n - rest.len() + 1,
                map@[0].id == 0,
                map@[0].name@ == Seq::<char>::empty(),
                map@.drop_first() == ts.subrange(0, n - rest.len()),
            decreases rest.len(),
        {
            let ghost rv = rest@;
            let ghost before = map@;
            let t = rest.remove(0);
            assert(t == rv[0]);
            assert(rest@ =~= rv.drop_first());
            map.push(t);
            assert(map@.drop_first() =~= before.drop_first().push(t));
            assert(ts.subrange(0, n - rest.len()) =~= ts.subrange(0, n - rest.len() - 1).push(t));
        }
        assert(ts.subrange(0, n as int) =~= ts);
        Self { map }
    }

    /// Get the talent with id `id`.
    fn get_talent(&self, id: usize) -> (t: &TalentEntry)
        requires
            id < self.spec_entries().len(),
        ensures
            *t == self.spec_entries()[id as int],
    {
        &self.map[id]
    }

    /// Get the name of the talent with id `id`.
    pub fn get_talent_name(&self, id: usize) -> (s: &str)
        requires
            id < self.spec_entries().len(),
        ensures
            s@ == self.spec_entries()[id as int].name@,
    {
        self.get_talent(id).name.as_str()
    }
}

} // verus!
