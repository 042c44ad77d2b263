//! Gets the misc information of the stage infobox.

use crate::meta::stage::map_id::MapID;
use crate::meta::stage::variant::StageVariant;
use crate::stage::parsed::stage::{ContinueStages, Stage};
use crate::text::{append_str, decimal, push_decimal, str_eq, string_from};
use crate::wikitext::data_files::stage_wiki_data::{
    difficulty_key, last_difficulty, MapWikiData, StageWikiData, StageWikiDataContainer,
};
use crate::wikitext::stage_info::internal::information::{EXTRA_TYPE_NUM, RANKING_DOJO_TYPE_NUM};
use crate::wikitext::template::{params_view, TemplateParameter};
use vstd::prelude::*;

verus! {

/// Highest crown difficulty of a stage (one where it has no crown data).
pub open spec fn max_crowns(stage: &Stage) -> u8 {
    match stage.crown_data {
        Some(d) => d.max_difficulty,
        None => 1,
    }
}

/// Get the max crown difficulty of a stage.
pub fn star(stage: &Stage) -> (p: TemplateParameter)
    ensures
        p@ == ("star"@, decimal(max_crowns(stage) as nat)),
{
    let max_crowns: u8 = match &stage.crown_data {
        Some(d) => d.max_difficulty,
        None => 1,
    };
    let mut out: Vec<char> = Vec::new();
    push_decimal(&mut out, max_crowns as u64);
    TemplateParameter::new("star".to_string(), string_from(&out))
}

/// Get max clears of stage.
pub fn max_clears(stage: &Stage) -> (p: Option<TemplateParameter>)
    ensures
        match stage.max_clears {
            Some(n) => p matches Some(t) && t@ == ("max clears"@, decimal(n as nat)),
            None => p is None,
        },
{
    let n = match stage.max_clears {
        Some(n) => n,
        None => {
            return None;
        },
    };
    let mut out: Vec<char> = Vec::new();
    push_decimal(&mut out, n as u64);
    Some(TemplateParameter::new("max clears".to_string(), string_from(&out)))
}

/// Number of the Catclaw Dojo stage type.
pub const DOJO_TYPE_NUM: usize = 6;

/// Number of the Extra Stages type as a stage variant number.
pub const EXTRA_VARIANT_NUM: u32 = 4;

/// Value of the `difficulty` parameter: `★{difficulty}`.
pub open spec fn difficulty_value(d: u8) -> Seq<char> {
    "★"@ + decimal(d as nat)
}

/// The difficulty of a stage in the difficulty data, if it has one.
pub open spec fn stage_difficulty(stage: &Stage, names: &StageWikiDataContainer) -> Option<u8> {
    last_difficulty(
        names.spec_difficulties(),
        difficulty_key(stage.meta.type_num as u64, stage.meta.map_num as u64, stage.meta.stage_num as u64),
    )
}

/// Get star difficulty of stage.
pub fn difficulty(stage: &Stage, names: &StageWikiDataContainer) -> (p: Option<TemplateParameter>)
    ensures
        match stage_difficulty(stage, names) {
            Some(d) => p matches Some(t) && t@ == ("difficulty"@, difficulty_value(d)),
            None => p is None,
        },
{
    let d = match names.difficulty_numbers(
        stage.meta.type_num as u64,
        stage.meta.map_num as u64,
        stage.meta.stage_num as u64,
    ) {
        Some(d) => *d,
        None => {
            return None;
        },
    };
    let mut buf = "★".to_string();
    let mut digits: Vec<char> = Vec::new();
    push_decimal(&mut digits, d as u64);
    let digits = string_from(&digits);
    append_str(&mut buf, digits.as_str());
    Some(TemplateParameter::new("difficulty".to_string(), buf))
}

/// Text of a possible previous or next stage: its name, or `N/A`.
pub open spec fn single_nav(location: Option<StageWikiData>) -> Seq<char> {
    match location {
        None => "N/A"@,
        Some(s) => s.name@,
    }
}

/// Get a single possible next or prev stage's string representation.
pub fn get_single_nav(location: Option<&StageWikiData>) -> (s: String)
    ensures
        s@ == single_nav(match location {
            Some(l) => Some(*l),
            None => None,
        }),
{
    match location {
        None => "N/A".to_string(),
        Some(location) => location.name.clone(),
    }
}

/// The Extra map `map` of the stage-names data, if the data has it.
pub open spec fn extra_map(names: &StageWikiDataContainer, map: u32) -> Option<MapWikiData> {
    let t = names.spec_types();
    if EXTRA_VARIANT_NUM < t.len() && t[EXTRA_VARIANT_NUM as int] is Some && t[EXTRA_VARIANT_NUM as int]->0.spec_maps().contains_key(
        map,
    ) {
        Some(t[EXTRA_VARIANT_NUM as int]->0.spec_maps()[map])
    } else {
        None
    }
}

/// Number of stages that may follow a stage.
pub open spec fn continue_count(c: ContinueStages) -> nat {
    (c.stage_ids.1 - c.stage_ids.0 + 1) as nat
}

/// Line of one continuation stage: its name, then the chance of that very
/// stage (the chance split evenly over the stages) unless it is certain;
/// `split` is the text of that chance where it is not a whole number.
pub open spec fn continuation_line(name: Seq<char>, c: ContinueStages, split: Seq<char>) -> Seq<char> {
    if c.chance == 100 {
        name + " (''Continuation Stage'')"@
    } else if (c.chance as nat) % continue_count(c) == 0 {
        name + " (''Continuation Stage'', "@ + decimal(c.chance as nat / continue_count(c)) + "%)"@
    } else {
        name + " (''Continuation Stage'', "@ + split + "%)"@
    }
}

/// Lines of the first `k` continuation stages, separated by `<br>\n`.
pub open spec fn continuation_lines(m: MapWikiData, c: ContinueStages, split: Seq<char>, k: nat) -> Seq<char>
    decreases k,
{
    let line = continuation_line(m.spec_stages()[c.stage_ids.0 + k - 1].name@, c, split);
    if k == 0 {
        Seq::empty()
    } else if k == 1 {
        line
    } else {
        continuation_lines(m, c, split, (k - 1) as nat) + "<br>\n"@ + line
    }
}

/// Text of all continuation stages possible from a stage.
pub open spec fn continuation_text(names: &StageWikiDataContainer, c: ContinueStages, split: Seq<char>) -> Seq<
    char,
> {
    continuation_lines(extra_map(names, c.map_id)->0, c, split, continue_count(c))
}

/// Continuation stages that can be written: the Extra map exists and has
/// every stage of the range, and the range is not empty.
pub open spec fn continuation_ok(names: &StageWikiDataContainer, c: ContinueStages) -> bool {
    &&& extra_map(names, c.map_id) is Some
    &&& c.stage_ids.0 <= c.stage_ids.1 < u32::MAX
    &&& c.stage_ids.1 < extra_map(names, c.map_id)->0.spec_stages().len()
}

/// Get all continuation stages possible from current stage; `split` is the
/// text of one stage's chance (the chance divided by the number of stages)
/// where that is not a whole number.
pub fn get_continuation_stages(data: &ContinueStages, names: &StageWikiDataContainer, split: &str) -> (s: String)
    requires
        continuation_ok(names, *data),
    ensures
        s@ == continuation_text(names, *data, split@),
{
    let map = names.stage_map(&MapID::from_components(StageVariant::Extra, data.map_id)).unwrap();
    let ghost m = *map;
    assert(extra_map(names, data.map_id) == Some(m));
    let (first, last) = data.stage_ids;
    let count: u32 = last - first + 1;
    let mut out = String::new();
    let mut k: u32 = 0;
    while k < count
        invariant
            0 <= k <= count,
            count == continue_count(*data),
            first == data.stage_ids.0,
            last == data.stage_ids.1,
            first + count - 1 == last,
            last < m.spec_stages().len(),
            *map == m,
            out@ == continuation_lines(m, *data, split@, k as nat),
        decreases count - k,
    {
        let name = &map.get(first + k).unwrap().name;
        if k > 0 {
            append_str(&mut out, "<br>\n");
        }
        append_str(&mut out, name.as_str());
        if data.chance == 100 {
            append_str(&mut out, " (''Continuation Stage'')");
        } else {
            append_str(&mut out, " (''Continuation Stage'', ");
            if data.chance % count == 0 {
                let mut digits: Vec<char> = Vec::new();
                push_decimal(&mut digits, (data.chance / count) as u64);
                let digits = string_from(&digits);
                append_str(&mut out, digits.as_str());
            } else {
                append_str(&mut out, split);
            }
            append_str(&mut out, "%)");
        }
        proof {
            let line = continuation_line(m.spec_stages()[first + k].name@, *data, split@);
            if k == 0 {
                assert(out@ =~= line);
            } else {
                assert(out@ =~= continuation_lines(m, *data, split@, k as nat) + "<br>\n"@ + line);
            }
        }
        k = k + 1;
    }
    out
}

/// Add an item to a navigation text: the item alone where the text is empty
/// or `N/A`.
pub open spec fn merged_nav(current: Seq<char>, additional: Seq<char>) -> Seq<char> {
    if current.len() == 0 || current == "N/A"@ {
        additional
    } else {
        current + "<br>\n"@ + additional
    }
}

/// Add in additional items to navigation.
fn merge_nav(current: String, additional: String) -> (s: String)
    ensures
        s@ == merged_nav(current@, additional@),
{
    proof {
        reveal_strlit("");
    }
    let is_empty = str_eq(current.as_str(), "");
    let is_na = str_eq(current.as_str(), "N/A");
    assert(current@.len() == 0 <==> current@ =~= ""@);
    if is_empty || is_na {
        additional
    } else {
        let mut current = current;
        append_str(&mut current, "<br>\n");
        append_str(&mut current, additional.as_str());
        current
    }
}

/// The previous stage of a stage in its map (none for Extra stages).
pub open spec fn prev_stage(stage: &Stage, map: &MapWikiData) -> Option<StageWikiData> {
    let i = stage.meta.stage_num as int;
    if stage.meta.type_num == EXTRA_TYPE_NUM || i == 0 || i - 1 >= map.spec_stages().len() {
        None
    } else {
        Some(map.spec_stages()[i - 1])
    }
}

/// The next stage of a stage in its map (none for Extra stages).
pub open spec fn next_stage(stage: &Stage, map: &MapWikiData) -> Option<StageWikiData> {
    let i = stage.meta.stage_num as int;
    if stage.meta.type_num == EXTRA_TYPE_NUM || i + 1 >= map.spec_stages().len() {
        None
    } else {
        Some(map.spec_stages()[i + 1])
    }
}

/// The `next stage` text: the next stage of the map, then the stage of the
/// Extra map that invades it, then the continuation stages.
pub open spec fn next_nav(stage: &Stage, map: &MapWikiData, names: &StageWikiDataContainer, split: Seq<char>) -> Seq<
    char,
> {
    let n0 = single_nav(next_stage(stage, map));
    let n1 = match stage.ex_invasion {
        Some(x) => merged_nav(
            n0,
            extra_map(names, x % 1000)->0.spec_stages()[stage.meta.stage_num as int].name@
                + " (''Invasion Stage'')"@,
        ),
        None => n0,
    };
    match stage.continue_data {
        Some(c) => merged_nav(n1, continuation_text(names, c, split)),
        None => n1,
    }
}

/// Navigation that can be written: the invading Extra map has the stage's
/// number and the continuation stages can be written.
pub open spec fn nav_ok(stage: &Stage, names: &StageWikiDataContainer) -> bool {
    &&& stage.ex_invasion matches Some(x) ==> extra_map(names, x % 1000) is Some && stage.meta.stage_num
        < extra_map(names, x % 1000)->0.spec_stages().len()
    &&& stage.continue_data matches Some(c) ==> continuation_ok(names, c)
}

/// Get the prev and next stage nav items.
fn get_nav(stage: &Stage, map: &MapWikiData, names: &StageWikiDataContainer, split: &str) -> (r: (String, String))
    requires
        nav_ok(stage, names),
    ensures
        r.0@ == single_nav(prev_stage(stage, map)),
        r.1@ == next_nav(stage, map, names, split@),
{
    let i = stage.meta.stage_num;
    let (prev, next) = if stage.meta.type_num == EXTRA_TYPE_NUM {
        (None, None)
    } else {
        let prev = if i == 0 {
            None
        } else {
            map.get_at(i - 1)
        };
        let n = map.len();
        let next = if n > 0 && i < n - 1 {
            map.get_at(i + 1)
        } else {
            None
        };
        (prev, next)
    };
    proof {
        assert(match prev {
            Some(l) => Some(*l),
            None => None,
        } == prev_stage(stage, map));
        assert(match next {
            Some(l) => Some(*l),
            None => None,
        } == next_stage(stage, map));
    }
    let prev = get_single_nav(prev);
    let mut next = get_single_nav(next);
    if let Some(ex_map_id) = stage.ex_invasion {
        let ex_map = names.stage_map(&MapID::from_components(StageVariant::Extra, ex_map_id % 1000)).unwrap();
        assert(extra_map(names, ex_map_id % 1000) == Some(*ex_map));
        let mut invaded = ex_map.get_at(i).unwrap().name.clone();
        append_str(&mut invaded, " (''Invasion Stage'')");
        next = merge_nav(next, invaded);
    }
    if let Some(c) = stage.continue_data {
        let conts = get_continuation_stages(&c, names, split);
        next = merge_nav(next, conts);
    }
    (prev, next)
}

/// The `prev stage` and `next stage` parameters of a stage (none for dojo
/// stages).
pub open spec fn stage_nav_params(stage: &Stage, map: &MapWikiData, names: &StageWikiDataContainer, split: Seq<char>) -> Seq<
    (Seq<char>, Seq<char>),
> {
    if stage.meta.type_num == DOJO_TYPE_NUM || stage.meta.type_num == RANKING_DOJO_TYPE_NUM {
        seq![]
    } else {
        seq![
            ("prev stage"@, single_nav(prev_stage(stage, map))),
            ("next stage"@, next_nav(stage, map, names, split)),
        ]
    }
}

/// Get the `prev stage` and `next stage` infobox parameters: `map` is the
/// stage's map in the stage-names data and `split` the text of one
/// continuation stage's chance where that is not a whole number.
pub fn stage_nav(stage: &Stage, map: &MapWikiData, names: &StageWikiDataContainer, split: &str) -> (ps: Vec<
    TemplateParameter,
>)
    requires
        nav_ok(stage, names),
    ensures
        params_view(ps@) == stage_nav_params(stage, map, names, split@),
{
    if stage.meta.type_num == DOJO_TYPE_NUM || stage.meta.type_num == RANKING_DOJO_TYPE_NUM {
        let ps: Vec<TemplateParameter> = Vec::new();
        assert(params_view(ps@) =~= stage_nav_params(stage, map, names, split@));
        return ps;
    }
    let (prev, next) = get_nav(stage, map, names, split);
    let mut ps: Vec<TemplateParameter> = Vec::new();
    ps.push(TemplateParameter::new("prev stage".to_string(), prev));
    ps.push(TemplateParameter::new("next stage".to_string(), next));
    assert(params_view(ps@) =~= stage_nav_params(stage, map, names, split@));
    ps
}

} // verus!
