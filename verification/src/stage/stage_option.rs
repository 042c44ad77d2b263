//! Module that deals with the `Stage_option` file: restrictions on stages.

pub mod charagroups;

use std::collections::HashMap;
use vstd::prelude::*;

verus! {

broadcast use vstd::std_specs::hash::group_hash_axioms;

/// Restriction line of the `Stage_option` file.
#[derive(Debug, Clone, Copy, PartialEq, Eq)]
pub struct StageOptionCSV {
    /// Map id the restriction applies to.
    pub map_id: u32,
    /// Crown difficulties it applies to (-1 for all).
    pub stars: i32,
    /// Stage it applies to (-1 for all).
    pub stage_id: i32,
    /// Rarities allowed.
    pub rarity: u32,
    /// Deploy limit.
    pub deploy_limit: u32,
    /// Rows allowed.
    pub rows: u32,
    /// Minimum cost.
    pub min_cost: u32,
    /// Maximum cost.
    pub max_cost: u32,
    /// Cat group.
    pub charagroup: u32,
}

/// Restrictions by map id.
pub struct StageOption {
    map: HashMap<u32, Vec<StageOptionCSV>>,
}

/// Lines of a map, in file order.
pub open spec fn lines_of_map(lines: Seq<StageOptionCSV>, map_id: u32) -> Seq<StageOptionCSV> {
    lines.filter(|l: StageOptionCSV| l.map_id == map_id)
}

/// Does a restriction apply to stage `stage_id` (it names the stage or all
/// stages)?
pub open spec fn applies_to(l: StageOptionCSV, stage_id: u32) -> bool {
    l.stage_id == -1 || l.stage_id == stage_id as i32
}

impl StageOption {
    /// The restrictions, by map id.
    pub closed spec fn spec_map(&self) -> Map<u32, Vec<StageOptionCSV>> {
        self.map@
    }

    /// Group the lines of the file by map, keeping their order.
    pub fn new(lines: Vec<StageOptionCSV>) -> (o: Self)
        ensures
            forall|m: u32| o.spec_map().contains_key(m) <==> lines_of_map(lines@, m).len() > 0,
            forall|m: u32| #[trigger] o.spec_map().contains_key(m) ==> o.spec_map()[m]@ == lines_of_map(lines@, m),
    {
        let mut map: HashMap<u32, Vec<StageOptionCSV>> = HashMap::new();
        let mut i: usize = 0;
        while i < lines.len()
            invariant
                0 <= i <= lines.len(),
                forall|m: u32| map@.contains_key(m) <==> lines_of_map(lines@.subrange(0, i as int), m).len() > 0,
                forall|m: u32| #[trigger] map@.contains_key(m) ==> map@[m]@ == lines_of_map(lines@.subrange(0, i as int), m),
            decreases lines.len() - i,
        {
            let line = lines[i];
            let ghost pre = lines@.subrange(0, i as int);
            let ghost next = lines@.subrange(0, i + 1);
            assert(next =~= pre.push(line));
            proof {
                assert forall|m: u32| lines_of_map(next, m) == if m == line.map_id {
                    lines_of_map(pre, m).push(line)
                } else {
                    lines_of_map(pre, m)
                } by {
                    pre.lemma_filter_push(line, |l: StageOptionCSV| l.map_id == m);
                }
            }
            let ghost old_map = map@;
            let entry = map.remove(&line.map_id);
            proof {
                if entry is None {
                    assert(!old_map.contains_key(line.map_id));
                }
            }
            let mut v = match entry {
                Some(v) => v,
                None => Vec::new(),
            };
            proof {
                if !old_map.contains_key(line.map_id) {
                    assert(lines_of_map(pre, line.map_id).len() == 0);
                    assert(v@ =~= lines_of_map(pre, line.map_id));
                }
            }
            v.push(line);
            map.insert(line.map_id, v);
            i = i + 1;
        }
        assert(lines@.subrange(0, lines@.len() as int) =~= lines@);
        Self { map }
    }

    /// Get the restrictions of a map.
    pub fn get_map(&self, map_id: u32) -> (r: Option<&Vec<StageOptionCSV>>)
        ensures
            match r {
                Some(v) => self.spec_map().contains_key(map_id) && *v == self.spec_map()[map_id],
                None => !self.spec_map().contains_key(map_id),
            },
    {
        self.map.get(&map_id)
    }

    /// Get the restrictions of a map that apply to a stage, in file order.
    pub fn get_stage(&self, map_id: u32, stage_id: u32) -> (r: Option<Vec<&StageOptionCSV>>)
        ensures
            match r {
                Some(v) => self.spec_map().contains_key(map_id) && v@.map_values(|l: &StageOptionCSV| *l)
                    == self.spec_map()[map_id]@.filter(|l: StageOptionCSV| applies_to(l, stage_id)),
                None => !self.spec_map().contains_key(map_id),
            },
    {
        let lines = match self.map.get(&map_id) {
            Some(v) => v,
            None => return None,
        };
        let mut out: Vec<&StageOptionCSV> = Vec::new();
        let mut i: usize = 0;
        let ghost f = |l: StageOptionCSV| applies_to(l, stage_id);
        while i < lines.len()
            invariant
                0 <= i <= lines.len(),
                f == (|l: StageOptionCSV| applies_to(l, stage_id)),
                out@.map_values(|l: &StageOptionCSV| *l) == lines@.subrange(0, i as int).filter(f),
            decreases lines.len() - i,
        {
            let l = &lines[i];
            let ghost pre = lines@.subrange(0, i as int);
            assert(lines@.subrange(0, i + 1) =~= pre.push(*l));
            proof {
                pre.lemma_filter_push(*l, f);
            }
            let ghost before = out@;
            if l.stage_id == -1 || l.stage_id == #[verifier::truncate] (stage_id as i32) {
                out.push(l);
                assert(out@.map_values(|l: &StageOptionCSV| *l) =~= before.map_values(|l: &StageOptionCSV| *l).push(*l));
            }
            i = i + 1;
        }
        assert(lines@.subrange(0, lines@.len() as int) =~= lines@);
        Some(out)
    }
}

/// Lines of a map that apply to stage `stage_id`, in file order.
pub open spec fn stage_lines(lines: Seq<StageOptionCSV>, map_id: u32, stage_id: u32) -> Seq<StageOptionCSV> {
    lines_of_map(lines, map_id).filter(|x: StageOptionCSV| applies_to(x, stage_id))
}

/// Law: the restrictions of a map that apply to stage `stage_id` are the
/// lines of that map for the whole map (stage -1) and those naming the stage,
/// and no others: a line for the whole map applies to every stage of it.
pub proof fn law_stage_lines(lines: Seq<StageOptionCSV>, map_id: u32, stage_id: u32)
    ensures
        forall|l: StageOptionCSV| #[trigger] stage_lines(lines, map_id, stage_id).contains(l)
            <==> (lines.contains(l) && l.map_id == map_id && (l.stage_id == -1 || l.stage_id == stage_id as i32)),
{
    let f = |x: StageOptionCSV| applies_to(x, stage_id);
    let g = |x: StageOptionCSV| x.map_id == map_id;
    let ls = lines_of_map(lines, map_id);
    assert(stage_lines(lines, map_id, stage_id) == ls.filter(f));
    assert forall|l: StageOptionCSV| #[trigger] stage_lines(lines, map_id, stage_id).contains(l)
        <==> (lines.contains(l) && l.map_id == map_id && (l.stage_id == -1 || l.stage_id == stage_id as i32)) by {
        if ls.filter(f).contains(l) {
            ls.lemma_filter_contains_rev(f, l);
            lines.lemma_filter_contains_rev(g, l);
            let a = choose|a: int| 0 <= a < ls.filter(f).len() && ls.filter(f)[a] == l;
            ls.lemma_filter_pred(f, a);
            let b = choose|b: int| 0 <= b < ls.len() && ls[b] == l;
            lines.lemma_filter_pred(g, b);
        }
        if lines.contains(l) && l.map_id == map_id && (l.stage_id == -1 || l.stage_id == stage_id as i32) {
            let a = choose|a: int| 0 <= a < lines.len() && lines[a] == l;
            lines.lemma_filter_contains(g, a);
            let b = choose|b: int| 0 <= b < ls.len() && ls[b] == l;
            ls.lemma_filter_contains(f, b);
        }
    }
}

} // verus!
