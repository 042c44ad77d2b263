//! Information about stage names, continue stages and stage difficulties
//! from the wiki's data files.

use crate::meta::stage::map_id::MapID;
use crate::meta::stage::stage_id::StageID;
use crate::meta::stage::stage_types::data::MAX_VARIANT_INDEX;
use crate::meta::stage::variant::StageVariantID;
use crate::text::{padded, push_padded, str_eq, string_from};
use std::collections::HashMap;
use vstd::prelude::*;

verus! {

broadcast use vstd::std_specs::hash::group_hash_axioms;

/// Key of a stage in the difficulty data: `{type:03}-{map:03}-{stage:03}`.
pub open spec fn difficulty_key(type_id: u64, map_id: u64, stage_id: u64) -> Seq<char> {
    padded(type_id as nat, 3) + seq!['-'] + padded(map_id as nat, 3) + seq!['-'] + padded(stage_id as nat, 3)
}

/// Data about individual stages.
#[derive(Debug)]
pub struct StageWikiData {
    /// Name of the stage.
    pub name: String,
}

/// Data about stage maps.
#[derive(Debug)]
pub struct MapWikiData {
    /// Name of the map.
    pub name: String,
    stages: Vec<StageWikiData>,
}

/// Data about all possible stage types.
#[derive(Debug)]
pub struct StageVariantWikiData {
    /// Name of the type.
    pub name: String,
    maps: HashMap<u32, MapWikiData>,
}

/// A line of the stage names file: a type (no map, no stage), a map of a
/// type (no stage) or a stage of a map.
#[derive(Debug)]
pub struct StageNamesLine {
    /// Type number.
    pub type_num: u32,
    /// Map number.
    pub map_num: Option<u32>,
    /// Stage number.
    pub stage_num: Option<u32>,
    /// Wiki link of the type, map or stage.
    pub link: String,
}

/// A map as plain values: its name and the names of its stages.
pub type MapModel = (Seq<char>, Seq<Seq<char>>);

/// A stage type as plain values: its name and its maps by number.
pub type VariantModel = (Seq<char>, Map<u32, MapModel>);

/// Plain values of a map.
pub closed spec fn map_model(md: MapWikiData) -> MapModel {
    (md.name@, Seq::new(md.stages@.len(), |i: int| md.stages@[i].name@))
}

/// Plain values of a stage type.
pub closed spec fn variant_model(v: StageVariantWikiData) -> VariantModel {
    (v.name@, v.maps@.map_values(|md: MapWikiData| map_model(md)))
}

/// Plain values of the stage types, indexed by type number.
pub open spec fn names_model(m: Seq<Option<StageVariantWikiData>>) -> Seq<Option<VariantModel>> {
    Seq::new(
        m.len(),
        |i: int|
            match m[i] {
                Some(v) => Some(variant_model(v)),
                None => None,
            },
    )
}

/// A line can be added: a type is within the type numbers, a map's type
/// exists, a stage's map exists and the stage comes next in it.
pub open spec fn line_ok(m: Seq<Option<VariantModel>>, l: StageNamesLine) -> bool {
    let t = l.type_num as int;
    match (l.map_num, l.stage_num) {
        (None, None) => t < m.len(),
        (Some(mp), None) => t < m.len() && m[t] is Some,
        (Some(mp), Some(s)) => t < m.len() && m[t] is Some && m[t].unwrap().1.contains_key(mp) && s
            == m[t].unwrap().1[mp].1.len(),
        (None, Some(_)) => false,
    }
}

/// The stage types after adding a line: a type line sets the type with no
/// maps, a map line sets the map with no stages, a stage line adds the stage
/// at the end of its map.
pub open spec fn apply_line(m: Seq<Option<VariantModel>>, l: StageNamesLine) -> Seq<Option<VariantModel>> {
    let t = l.type_num as int;
    match (l.map_num, l.stage_num) {
        (None, None) => m.update(t, Some((l.link@, Map::empty()))),
        (Some(mp), None) => {
            let v = m[t].unwrap();
            m.update(t, Some((v.0, v.1.insert(mp, (l.link@, Seq::empty())))))
        },
        (Some(mp), Some(_)) => {
            let v = m[t].unwrap();
            let md = v.1[mp];
            m.update(t, Some((v.0, v.1.insert(mp, (md.0, md.1.push(l.link@))))))
        },
        (None, Some(_)) => m,
    }
}

/// The stage types after adding all lines in order.
pub open spec fn build_names(lines: Seq<StageNamesLine>) -> Seq<Option<VariantModel>>
    decreases lines.len(),
{
    if lines.len() == 0 {
        Seq::new(MAX_VARIANT_INDEX as nat, |i: int| None)
    } else {
        apply_line(build_names(lines.drop_last()), lines.last())
    }
}

/// Every line can be added when its turn comes.
pub open spec fn build_names_ok(lines: Seq<StageNamesLine>) -> bool
    decreases lines.len(),
{
    if lines.len() == 0 {
        true
    } else {
        build_names_ok(lines.drop_last()) && line_ok(build_names(lines.drop_last()), lines.last())
    }
}

/// Lemma: a well-formed prefix of the lines is well-formed.
proof fn lemma_build_ok_prefix(lines: Seq<StageNamesLine>, k: int)
    requires
        build_names_ok(lines),
        0 <= k <= lines.len(),
    ensures
        build_names_ok(lines.take(k)),
        k < lines.len() ==> line_ok(build_names(lines.take(k)), lines[k]),
    decreases lines.len() - k,
{
    if k < lines.len() {
        lemma_build_ok_prefix(lines, k + 1);
        let p = lines.take(k + 1);
        assert(p.drop_last() =~= lines.take(k));
        assert(p.last() == lines[k]);
    } else {
        assert(lines.take(k) =~= lines);
    }
}

/// Add one line to the stage types.
fn add_line(map: &mut Vec<Option<StageVariantWikiData>>, l: StageNamesLine)
    requires
        line_ok(names_model(old(map)@), l),
    ensures
        names_model(final(map)@) == apply_line(names_model(old(map)@), l),
{
    let ghost before = names_model(map@);
    let ghost lv = l;
    let t = l.type_num as usize;
    match (l.map_num, l.stage_num) {
        (None, None) => {
            let v = StageVariantWikiData { name: l.link, maps: HashMap::new() };
            map.set(t, Some(v));
            assert(variant_model(map@[t as int].unwrap()).1 =~= Map::<u32, MapModel>::empty());
            assert(names_model(map@) =~= apply_line(before, lv));
        },
        (Some(mp), None) => {
            let mut slot: Option<StageVariantWikiData> = None;
            map.set_and_swap(t, &mut slot);
            let mut v = slot.unwrap();
            let ghost vm = v.maps@;
            let nm = MapWikiData { name: l.link, stages: Vec::new() };
            let ghost nmv = nm;
            v.maps.insert(mp, nm);
            proof {
                let f = |md: MapWikiData| map_model(md);
                assert(map_model(nmv).1 =~= Seq::<Seq<char>>::empty());
                assert(v.maps@.map_values(f) =~= vm.map_values(f).insert(mp, (lv.link@, Seq::<Seq<char>>::empty())));
            }
            map.set(t, Some(v));
            assert(names_model(map@) =~= apply_line(before, lv));
        },
        (Some(mp), Some(_)) => {
            let mut slot: Option<StageVariantWikiData> = None;
            map.set_and_swap(t, &mut slot);
            let mut v = slot.unwrap();
            let ghost vm = v.maps@;
            let mut md = v.maps.remove(&mp).unwrap();
            let ghost old_md = md;
            assert(old_md == vm[mp]);
            md.stages.push(StageWikiData { name: l.link });
            let ghost new_md = md;
            v.maps.insert(mp, md);
            proof {
                let f = |x: MapWikiData| map_model(x);
                assert(map_model(new_md).1 =~= map_model(old_md).1.push(lv.link@));
                assert(v.maps@ =~= vm.insert(mp, new_md));
                assert(v.maps@.map_values(f) =~= vm.map_values(f).insert(mp, (old_md.name@, map_model(old_md).1.push(lv.link@))));
            }
            map.set(t, Some(v));
            assert(names_model(map@) =~= apply_line(before, lv));
        },
        (None, Some(_)) => {},
    }
}

/// Build the stage types from the lines of the stage names file.
pub fn build_stage_name_map(lines: Vec<StageNamesLine>) -> (m: Vec<Option<StageVariantWikiData>>)
    requires
        build_names_ok(lines@),
    ensures
        names_model(m@) == build_names(lines@),
{
    match try_build_stage_name_map(lines) {
        Some(m) => m,
        None => Vec::new(),
    }
}

/// Can the line be added to the stage types?
fn line_fits(map: &Vec<Option<StageVariantWikiData>>, l: &StageNamesLine) -> (b: bool)
    ensures
        b == line_ok(names_model(map@), *l),
{
    let t = l.type_num as usize;
    let ghost m = names_model(map@);
    match (l.map_num, l.stage_num) {
        (None, None) => t < map.len(),
        (Some(mp), None) => t < map.len() && map[t].is_some(),
        (Some(mp), Some(s)) => {
            if t >= map.len() {
                return false;
            }
            match &map[t] {
                None => false,
                Some(v) => {
                    match v.maps.get(&mp) {
                        None => {
                            assert(!variant_model(*v).1.contains_key(mp));
                            false
                        },
                        Some(md) => {
                            assert(variant_model(*v).1[mp] == map_model(*md));
                            s as usize == md.stages.len()
                        },
                    }
                },
            }
        },
        (None, Some(_)) => false,
    }
}

/// Build the stage types from the lines of the stage names file, or `None`
/// where a line names a type out of range or a type or map not yet given, or
/// a stage out of order.
pub fn try_build_stage_name_map(lines: Vec<StageNamesLine>) -> (r: Option<Vec<Option<StageVariantWikiData>>>)
    ensures
        match r {
            Some(m) => build_names_ok(lines@) && names_model(m@) == build_names(lines@),
            None => !build_names_ok(lines@),
        },
{
    let mut map: Vec<Option<StageVariantWikiData>> = Vec::new();
    let mut i: usize = 0;
    while i < MAX_VARIANT_INDEX
        invariant
            0 <= i <= MAX_VARIANT_INDEX,
            map.len() == i,
            forall|j: int| 0 <= j < i ==> (#[trigger] map@[j]) is None,
        decreases MAX_VARIANT_INDEX - i,
    {
        map.push(None);
        i = i + 1;
    }
    let ghost ls = lines@;
    assert(names_model(map@) =~= build_names(ls.take(0)));
    assert(build_names_ok(ls.take(0)));
    let mut rest = lines;
    let ghost n = ls.len();
    while rest.len() > 0
        invariant
            n == ls.len(),
            ls == lines@,
            rest.len() <= n,
            rest@ == ls.skip(n - rest.len()),
            build_names_ok(ls.take(n - rest.len())),
            names_model(map@) == build_names(ls.take(n - rest.len())),
        decreases rest.len(),
    {
        let ghost k = n - rest.len();
        let l = rest.remove(0);
        assert(l == ls[k]);
        assert(rest@ =~= ls.skip(k + 1));
        let ghost p = ls.take(k + 1);
        assert(p.drop_last() =~= ls.take(k));
        assert(p.last() == ls[k]);
        if !line_fits(&map, &l) {
            proof {
                if build_names_ok(ls) {
                    lemma_build_ok_prefix(ls, k);
                }
            }
            return None;
        }
        add_line(&mut map, l);
    }
    assert(ls.take(n as int) =~= ls);
    Some(map)
}

/// Difficulty paired with the last key equal to `key` (later lines of the
/// difficulty file replace earlier ones).
pub open spec fn last_difficulty(pairs: Seq<(String, u8)>, key: Seq<char>) -> Option<u8>
    decreases pairs.len(),
{
    if pairs.len() == 0 {
        None
    } else if pairs.last().0@ == key {
        Some(pairs.last().1)
    } else {
        last_difficulty(pairs.drop_last(), key)
    }
}

impl MapWikiData {
    /// Name of the map.
    pub closed spec fn spec_name(&self) -> Seq<char> {
        self.name@
    }

    /// Names of the map's stages.
    pub closed spec fn spec_stages(&self) -> Seq<StageWikiData> {
        self.stages@
    }

    /// Get stage with stage id `stage_id` in this map.
    pub fn get(&self, stage_id: u32) -> (r: Option<&StageWikiData>)
        ensures
            match r {
                Some(s) => stage_id < self.spec_stages().len() && *s == self.spec_stages()[stage_id as int],
                None => stage_id >= self.spec_stages().len(),
            },
    {
        let i = stage_id as usize;
        if i < self.stages.len() {
            Some(&self.stages[i])
        } else {
            None
        }
    }

    /// Get the stage at index `i` of this map.
    pub fn get_at(&self, i: usize) -> (r: Option<&StageWikiData>)
        ensures
            match r {
                Some(s) => i < self.spec_stages().len() && *s == self.spec_stages()[i as int],
                None => i >= self.spec_stages().len(),
            },
    {
        if i < self.stages.len() {
            Some(&self.stages[i])
        } else {
            None
        }
    }

    /// Number of stages of the map.
    pub fn len(&self) -> (n: usize)
        ensures
            n == self.spec_stages().len(),
    {
        self.stages.len()
    }

    /// Does the map have any stages.
    pub fn is_empty(&self) -> (b: bool)
        ensures
            b == (self.spec_stages().len() == 0),
    {
        self.stages.len() == 0
    }
}

impl StageVariantWikiData {
    /// Name of the type.
    pub closed spec fn spec_name(&self) -> Seq<char> {
        self.name@
    }

    /// Maps of the type by number.
    pub closed spec fn spec_maps(&self) -> Map<u32, MapWikiData> {
        self.maps@
    }

    /// Get map with map id `map_id` in this type.
    pub fn get(&self, map_id: u32) -> (r: Option<&MapWikiData>)
        ensures
            match r {
                Some(m) => self.spec_maps().contains_key(map_id) && *m == self.spec_maps()[map_id],
                None => !self.spec_maps().contains_key(map_id),
            },
    {
        self.maps.get(&map_id)
    }
}

/// Lemma: the plain values of a type's map are those of the map.
pub proof fn lemma_variant_map(v: StageVariantWikiData, k: u32)
    requires
        v.spec_maps().contains_key(k),
    ensures
        variant_model(v).1.contains_key(k),
        variant_model(v).1[k] == map_model(v.spec_maps()[k]),
{
}

/// Law: in the stage types built from the stage names lines, every stage
/// that the lines put at type `t`, map `m`, position `k` is found there, with
/// the name its line gave, and every type and map the lines name is found
/// with its name.
pub proof fn law_names_lookup(
    types: Seq<Option<StageVariantWikiData>>,
    lines: Seq<StageNamesLine>,
    t: int,
    m: u32,
    k: int,
)
    requires
        names_model(types) == build_names(lines),
        0 <= t < types.len(),
        build_names(lines)[t] is Some,
    ensures
        types[t] is Some,
        types[t].unwrap().spec_name() == build_names(lines)[t].unwrap().0,
        types[t].unwrap().spec_maps().contains_key(m) == build_names(lines)[t].unwrap().1.contains_key(m),
        build_names(lines)[t].unwrap().1.contains_key(m) ==> {
            let md = types[t].unwrap().spec_maps()[m];
            let mm = build_names(lines)[t].unwrap().1[m];
            &&& md.spec_name() == mm.0
            &&& md.spec_stages().len() == mm.1.len()
            &&& (0 <= k < mm.1.len() ==> md.spec_stages()[k].name@ == mm.1[k])
        },
{
    assert(names_model(types)[t] == build_names(lines)[t]);
    let v = types[t].unwrap();
    if v.spec_maps().contains_key(m) {
        assert(variant_model(v).1[m] == map_model(v.spec_maps()[m]));
    }
}

/// Container for the wiki's stage data.
#[derive(Debug)]
pub struct StageWikiDataContainer {
    stage_name_map: Vec<Option<StageVariantWikiData>>,
    continue_stages: Vec<Option<(u32, u32)>>,
    stage_difficulty_map: Vec<(String, u8)>,
}

impl StageWikiDataContainer {
    /// Stage types by number.
    pub closed spec fn spec_types(&self) -> Seq<Option<StageVariantWikiData>> {
        self.stage_name_map@
    }

    /// Continue stages by extra map number.
    pub closed spec fn spec_continue(&self) -> Seq<Option<(u32, u32)>> {
        self.continue_stages@
    }

    /// Difficulties by stage id text.
    pub closed spec fn spec_difficulties(&self) -> Seq<(String, u8)> {
        self.stage_difficulty_map@
    }

    /// Create the container from the lines of the stage names file, the
    /// continue stages (type and map of each extra map, where the line could
    /// be read) and the difficulty lines.
    pub fn new(
        names: Vec<StageNamesLine>,
        continue_stages: Vec<Option<(u32, u32)>>,
        difficulties: Vec<(String, u8)>,
    ) -> (c: Self)
        requires
            build_names_ok(names@),
        ensures
            names_model(c.spec_types()) == build_names(names@),
            c.spec_continue() == continue_stages@,
            c.spec_difficulties() == difficulties@,
    {
        Self {
            stage_name_map: build_stage_name_map(names),
            continue_stages,
            stage_difficulty_map: difficulties,
        }
    }

    /// Create the container as `new` does, or `None` where the stage names
    /// lines cannot be built.
    pub fn try_new(
        names: Vec<StageNamesLine>,
        continue_stages: Vec<Option<(u32, u32)>>,
        difficulties: Vec<(String, u8)>,
    ) -> (c: Option<Self>)
        ensures
            match c {
                Some(c) => {
                    &&& build_names_ok(names@)
                    &&& names_model(c.spec_types()) == build_names(names@)
                    &&& c.spec_continue() == continue_stages@
                    &&& c.spec_difficulties() == difficulties@
                },
                None => !build_names_ok(names@),
            },
    {
        match try_build_stage_name_map(names) {
            Some(m) => Some(Self { stage_name_map: m, continue_stages, stage_difficulty_map: difficulties }),
            None => None,
        }
    }

    /// Get stage type.
    pub fn stage_type(&self, id: StageVariantID) -> (r: Option<&StageVariantWikiData>)
        ensures
            match r {
                Some(v) => id.spec_num() < self.spec_types().len() && self.spec_types()[id.spec_num() as int]
                    == Some(*v),
                None => id.spec_num() >= self.spec_types().len() || self.spec_types()[id.spec_num() as int] is None,
            },
    {
        let i = id.num() as usize;
        if i < self.stage_name_map.len() {
            match &self.stage_name_map[i] {
                Some(v) => Some(v),
                None => None,
            }
        } else {
            None
        }
    }

    /// Get stage map.
    pub fn stage_map(&self, id: &MapID) -> (r: Option<&MapWikiData>)
        ensures
            match r {
                Some(m) => {
                    let n = id.spec_variant().spec_num() as int;
                    &&& n < self.spec_types().len()
                    &&& self.spec_types()[n] is Some
                    &&& self.spec_types()[n].unwrap().spec_maps().contains_key(id.spec_num())
                    &&& *m == self.spec_types()[n].unwrap().spec_maps()[id.spec_num()]
                },
                None => {
                    let n = id.spec_variant().spec_num() as int;
                    n >= self.spec_types().len() || self.spec_types()[n] is None
                        || !self.spec_types()[n].unwrap().spec_maps().contains_key(id.spec_num())
                },
            },
    {
        match self.stage_type(id.variant()) {
            Some(v) => v.get(id.num()),
            None => None,
        }
    }

    /// Get stage.
    pub fn stage(&self, id: &StageID) -> (r: Option<&StageWikiData>)
        ensures
            match r {
                Some(s) => {
                    let n = id.spec_map().spec_variant().spec_num() as int;
                    let t = self.spec_types()[n].unwrap();
                    let m = t.spec_maps()[id.spec_map().spec_num()];
                    &&& n < self.spec_types().len()
                    &&& self.spec_types()[n] is Some
                    &&& t.spec_maps().contains_key(id.spec_map().spec_num())
                    &&& id.spec_num() < m.spec_stages().len()
                    &&& *s == m.spec_stages()[id.spec_num() as int]
                },
                None => {
                    let n = id.spec_map().spec_variant().spec_num() as int;
                    let t = self.spec_types()[n].unwrap();
                    n >= self.spec_types().len() || self.spec_types()[n] is None || !t.spec_maps().contains_key(
                        id.spec_map().spec_num(),
                    ) || id.spec_num() >= t.spec_maps()[id.spec_map().spec_num()].spec_stages().len()
                },
            },
    {
        match self.stage_map(id.map()) {
            Some(m) => m.get(id.num()),
            None => None,
        }
    }

    /// Get the type and map numbers from the ex map id.
    pub fn continue_id(&self, ex_map_id: u32) -> (r: Option<(u32, u32)>)
        requires
            ex_map_id < self.spec_continue().len(),
        ensures
            r == self.spec_continue()[ex_map_id as int],
    {
        self.continue_stages[ex_map_id as usize]
    }

    /// Get stage difficulty.
    pub fn difficulty(&self, id: &StageID) -> (r: Option<&u8>)
        ensures
            match r {
                Some(d) => last_difficulty(self.spec_difficulties(), id.spec_repr()) == Some(*d),
                None => last_difficulty(self.spec_difficulties(), id.spec_repr()) is None,
            },
    {
        let key = id.to_string();
        self.difficulty_str(key.as_str())
    }

    /// Get the difficulty of the stage with type, map and stage numbers
    /// `type_id`, `map_id` and `stage_id`.
    pub fn difficulty_numbers(&self, type_id: u64, map_id: u64, stage_id: u64) -> (r: Option<&u8>)
        ensures
            match r {
                Some(d) => last_difficulty(self.spec_difficulties(), difficulty_key(type_id, map_id, stage_id))
                    == Some(*d),
                None => last_difficulty(self.spec_difficulties(), difficulty_key(type_id, map_id, stage_id)) is None,
            },
    {
        let mut out: Vec<char> = Vec::new();
        push_padded(&mut out, type_id, 3);
        out.push('-');
        push_padded(&mut out, map_id, 3);
        out.push('-');
        push_padded(&mut out, stage_id, 3);
        assert(out@ =~= difficulty_key(type_id, map_id, stage_id));
        let key = string_from(&out);
        self.difficulty_str(key.as_str())
    }

    /// Get stage difficulty from the string key.
    fn difficulty_str(&self, id: &str) -> (r: Option<&u8>)
        ensures
            match r {
                Some(d) => last_difficulty(self.spec_difficulties(), id@) == Some(*d),
                None => last_difficulty(self.spec_difficulties(), id@) is None,
            },
    {
        let mut i: usize = self.stage_difficulty_map.len();
        let ghost all = self.stage_difficulty_map@;
        assert(all.take(i as int) =~= all);
        while i > 0
            invariant
                0 <= i <= all.len(),
                all == self.stage_difficulty_map@,
                last_difficulty(all, id@) == last_difficulty(all.take(i as int), id@),
            decreases i,
        {
            let ghost p = all.take(i as int);
            assert(p.last() == all[i - 1]);
            if str_eq(self.stage_difficulty_map[i - 1].0.as_str(), id) {
                return Some(&self.stage_difficulty_map[i - 1].1);
            }
            assert(p.drop_last() =~= all.take(i - 1));
            i = i - 1;
        }
        None
    }
}

} // verus!
