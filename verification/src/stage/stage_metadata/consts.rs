//! Constant values used by the rest of the module: the stage types and
//! the names by which selectors refer to them.

use crate::meta::stage::stage_types::data::{any_fold_eq, lemma_any_fold_eq};
use crate::text::{chars_of, fold_eq};
use vstd::prelude::*;

verus! {

/// Information about each stage type.
#[derive(Debug, Clone, Copy, PartialEq, Eq)]
pub struct StageType {
    /// E.g. `"Stories of Legend"`.
    pub name: &'static str,
    /// Numerical value of stage type.
    pub number: usize,
    /// E.g. `"N"` for Stories of Legend.
    ///
    /// EX stages' map files are of the form `"MapStageDataRE"`, whereas
    /// their stage files are of the form `"stageEX"`, so their `code` is
    /// `"RE|EX"`.
    pub code: &'static str,
    /// Are files of the type `stageR{code}` or are they of the type
    /// `stage{code}`?
    pub has_r_prefix: bool,
}

/// Number of stage types.
pub const NUM_STAGE_TYPES: usize = 18;

/// Number of entries of the selector map.
pub const NUM_TYPE_MAP: usize = 19;

/// The stage types covering all chapters in the game, in order.
pub open spec fn spec_stage_types() -> Seq<StageType> {
    seq![
        StageType { name: "Stories of Legend", number: 0, code: "N", has_r_prefix: true },
        StageType { name: "Event Stages", number: 1, code: "S", has_r_prefix: true },
        StageType { name: "Collaboration Stages", number: 2, code: "C", has_r_prefix: true },
        StageType { name: "Main Chapters", number: 3, code: "main", has_r_prefix: false },
        StageType { name: "Extra Stages", number: 4, code: "RE|EX", has_r_prefix: false },
        StageType { name: "Catclaw Dojo", number: 6, code: "T", has_r_prefix: true },
        StageType { name: "Towers", number: 7, code: "V", has_r_prefix: true },
        StageType { name: "Ranking Dojo", number: 11, code: "R", has_r_prefix: true },
        StageType { name: "Challenge Battle", number: 12, code: "M", has_r_prefix: true },
        StageType { name: "Uncanny Legends", number: 13, code: "NA", has_r_prefix: true },
        StageType { name: "Catamin Stages", number: 14, code: "B", has_r_prefix: true },
        StageType { name: "Gauntlets", number: 24, code: "A", has_r_prefix: true },
        StageType { name: "Enigma Stages", number: 25, code: "H", has_r_prefix: true },
        StageType { name: "Collab Gauntlets", number: 27, code: "CA", has_r_prefix: true },
        StageType { name: "Behemoth Culling", number: 31, code: "Q", has_r_prefix: true },
        StageType { name: "Labyrinth", number: 33, code: "L", has_r_prefix: false },
        StageType { name: "Zero Legends", number: 34, code: "ND", has_r_prefix: true },
        StageType { name: "Colosseum", number: 36, code: "SR", has_r_prefix: true },
    ]
}

/// Stage type number `i` (as `STAGE_TYPES[i]`).
pub fn stage_type_at(i: usize) -> (st: StageType)
    requires
        i < NUM_STAGE_TYPES,
    ensures
        st == spec_stage_types()[i as int],
{
    match i {
        0 => StageType { name: "Stories of Legend", number: 0, code: "N", has_r_prefix: true },
        1 => StageType { name: "Event Stages", number: 1, code: "S", has_r_prefix: true },
        2 => StageType { name: "Collaboration Stages", number: 2, code: "C", has_r_prefix: true },
        3 => StageType { name: "Main Chapters", number: 3, code: "main", has_r_prefix: false },
        4 => StageType { name: "Extra Stages", number: 4, code: "RE|EX", has_r_prefix: false },
        5 => StageType { name: "Catclaw Dojo", number: 6, code: "T", has_r_prefix: true },
        6 => StageType { name: "Towers", number: 7, code: "V", has_r_prefix: true },
        7 => StageType { name: "Ranking Dojo", number: 11, code: "R", has_r_prefix: true },
        8 => StageType { name: "Challenge Battle", number: 12, code: "M", has_r_prefix: true },
        9 => StageType { name: "Uncanny Legends", number: 13, code: "NA", has_r_prefix: true },
        10 => StageType { name: "Catamin Stages", number: 14, code: "B", has_r_prefix: true },
        11 => StageType { name: "Gauntlets", number: 24, code: "A", has_r_prefix: true },
        12 => StageType { name: "Enigma Stages", number: 25, code: "H", has_r_prefix: true },
        13 => StageType { name: "Collab Gauntlets", number: 27, code: "CA", has_r_prefix: true },
        14 => StageType { name: "Behemoth Culling", number: 31, code: "Q", has_r_prefix: true },
        15 => StageType { name: "Labyrinth", number: 33, code: "L", has_r_prefix: false },
        16 => StageType { name: "Zero Legends", number: 34, code: "ND", has_r_prefix: true },
        _ => StageType { name: "Colosseum", number: 36, code: "SR", has_r_prefix: true },
    }
}

/// Names matched (ignoring case) by entry `i` of the selector map.
pub open spec fn type_map_names(i: int) -> Seq<Seq<char>> {
    if i == 0 {
        seq![seq!['S', 'o', 'L'], seq!['0'], seq!['N'], seq!['R', 'N']]
    } else if i == 1 {
        seq![seq!['E', 'v', 'e', 'n', 't'], seq!['S', 'p', 'e', 'c', 'i', 'a', 'l'], seq!['1'], seq!['S'], seq!['R', 'S']]
    } else if i == 2 {
        seq![seq!['C', 'o', 'l', 'l', 'a', 'b'], seq!['2'], seq!['C'], seq!['R', 'C']]
    } else if i == 3 {
        seq![seq!['E', 'x', 't', 'r', 'a'], seq!['4'], seq!['R', 'E'], seq!['E', 'X']]
    } else if i == 4 {
        seq![seq!['D', 'o', 'j', 'o'], seq!['6'], seq!['T'], seq!['R', 'T']]
    } else if i == 5 {
        seq![seq!['T', 'o', 'w', 'e', 'r'], seq!['7'], seq!['V'], seq!['R', 'V']]
    } else if i == 6 {
        seq![seq!['R', 'a', 'n', 'k'], seq!['1', '1'], seq!['R'], seq!['R', 'R']]
    } else if i == 7 {
        seq![seq!['C', 'h', 'a', 'l', 'l', 'e', 'n', 'g', 'e'], seq!['1', '2'], seq!['M'], seq!['R', 'M']]
    } else if i == 8 {
        seq![seq!['U', 'L'], seq!['1', '3'], seq!['N', 'A'], seq!['R', 'N', 'A']]
    } else if i == 9 {
        seq![seq!['C', 'a', 't', 'a', 'm', 'i', 'n'], seq!['1', '4'], seq!['B'], seq!['R', 'B']]
    } else if i == 10 {
        seq![seq!['L', 'Q'], seq!['1', '6'], seq!['D']]
    } else if i == 11 {
        seq![seq!['G', 'a', 'u', 'n', 't', 'l', 'e', 't'], seq!['B', 'a', 'r', 'o', 'n'], seq!['2', '4'], seq!['A'], seq!['R', 'A']]
    } else if i == 12 {
        seq![seq!['E', 'n', 'i', 'g', 'm', 'a'], seq!['2', '5'], seq!['H'], seq!['R', 'H']]
    } else if i == 13 {
        seq![seq!['2', '7'], seq!['C', 'A'], seq!['R', 'C', 'A']]
    } else if i == 14 {
        seq![seq!['B', 'e', 'h', 'e', 'm', 'o', 't', 'h'], seq!['3', '1'], seq!['Q'], seq!['R', 'Q']]
    } else if i == 15 {
        seq![seq!['L', 'a', 'b', 'y', 'r', 'i', 'n', 't', 'h'], seq!['3', '3'], seq!['L']]
    } else if i == 16 {
        seq![seq!['Z', 'L'], seq!['3', '4'], seq!['N', 'D'], seq!['R', 'N', 'D']]
    } else if i == 17 {
        seq![seq!['C', 'o', 'l', 'o', 's', 's', 'e', 'u', 'm'], seq!['3', '6'], seq!['S', 'R'], seq!['R', 'S', 'R']]
    } else {
        seq![seq!['E', 'o', 'C'], seq!['I', 't', 'F'], seq!['W'], seq!['C', 'o', 't', 'C'], seq!['S', 'p', 'a', 'c', 'e'], seq!['A', 'k', 'u'], seq!['D', 'M'], seq!['Z'], seq!['F', 'i', 'l', 'i', 'b', 'u', 's', 't', 'e', 'r']]
    }
}

/// Stage type (index into the stage types) of entry `i` of the selector map;
/// the Legend Quest entry has none.
pub open spec fn type_map_target(i: int) -> Option<int> {
    if i == 0 {
        Some(0)
    } else if i == 1 {
        Some(1)
    } else if i == 2 {
        Some(2)
    } else if i == 3 {
        Some(4)
    } else if i == 4 {
        Some(5)
    } else if i == 5 {
        Some(6)
    } else if i == 6 {
        Some(7)
    } else if i == 7 {
        Some(8)
    } else if i == 8 {
        Some(9)
    } else if i == 9 {
        Some(10)
    } else if i == 10 {
        None
    } else if i == 11 {
        Some(11)
    } else if i == 12 {
        Some(12)
    } else if i == 13 {
        Some(13)
    } else if i == 14 {
        Some(14)
    } else if i == 15 {
        Some(15)
    } else if i == 16 {
        Some(16)
    } else if i == 17 {
        Some(17)
    } else {
        Some(3)
    }
}

/// Names of entry `i` of the selector map.
fn type_map_names_at(i: usize) -> (ns: Vec<&'static str>)
    requires
        i < NUM_TYPE_MAP,
    ensures
        ns@.len() == type_map_names(i as int).len(),
        forall|k: int| 0 <= k < ns@.len() ==> (#[trigger] ns@[k])@ == type_map_names(i as int)[k],
{
    proof {
        reveal_strlit("0");
        reveal_strlit("1");
        reveal_strlit("11");
        reveal_strlit("12");
        reveal_strlit("13");
        reveal_strlit("14");
        reveal_strlit("16");
        reveal_strlit("2");
        reveal_strlit("24");
        reveal_strlit("25");
        reveal_strlit("27");
        reveal_strlit("31");
        reveal_strlit("33");
        reveal_strlit("34");
        reveal_strlit("36");
        reveal_strlit("4");
        reveal_strlit("6");
        reveal_strlit("7");
        reveal_strlit("A");
        reveal_strlit("Aku");
        reveal_strlit("B");
        reveal_strlit("Baron");
        reveal_strlit("Behemoth");
        reveal_strlit("C");
        reveal_strlit("CA");
        reveal_strlit("Catamin");
        reveal_strlit("Challenge");
        reveal_strlit("Collab");
        reveal_strlit("Colosseum");
        reveal_strlit("CotC");
        reveal_strlit("D");
        reveal_strlit("DM");
        reveal_strlit("Dojo");
        reveal_strlit("EX");
        reveal_strlit("Enigma");
        reveal_strlit("EoC");
        reveal_strlit("Event");
        reveal_strlit("Extra");
        reveal_strlit("Filibuster");
        reveal_strlit("Gauntlet");
        reveal_strlit("H");
        reveal_strlit("ItF");
        reveal_strlit("L");
        reveal_strlit("LQ");
        reveal_strlit("Labyrinth");
        reveal_strlit("M");
        reveal_strlit("N");
        reveal_strlit("NA");
        reveal_strlit("ND");
        reveal_strlit("Q");
        reveal_strlit("R");
        reveal_strlit("RA");
        reveal_strlit("RB");
        reveal_strlit("RC");
        reveal_strlit("RCA");
        reveal_strlit("RE");
        reveal_strlit("RH");
        reveal_strlit("RM");
        reveal_strlit("RN");
        reveal_strlit("RNA");
        reveal_strlit("RND");
        reveal_strlit("RQ");
        reveal_strlit("RR");
        reveal_strlit("RS");
        reveal_strlit("RSR");
        reveal_strlit("RT");
        reveal_strlit("RV");
        reveal_strlit("Rank");
        reveal_strlit("S");
        reveal_strlit("SR");
        reveal_strlit("SoL");
        reveal_strlit("Space");
        reveal_strlit("Special");
        reveal_strlit("T");
        reveal_strlit("Tower");
        reveal_strlit("UL");
        reveal_strlit("V");
        reveal_strlit("W");
        reveal_strlit("Z");
        reveal_strlit("ZL");
    }
    match i {
        0 => vec!["SoL", "0", "N", "RN"],
        1 => vec!["Event", "Special", "1", "S", "RS"],
        2 => vec!["Collab", "2", "C", "RC"],
        3 => vec!["Extra", "4", "RE", "EX"],
        4 => vec!["Dojo", "6", "T", "RT"],
        5 => vec!["Tower", "7", "V", "RV"],
        6 => vec!["Rank", "11", "R", "RR"],
        7 => vec!["Challenge", "12", "M", "RM"],
        8 => vec!["UL", "13", "NA", "RNA"],
        9 => vec!["Catamin", "14", "B", "RB"],
        10 => vec!["LQ", "16", "D"],
        11 => vec!["Gauntlet", "Baron", "24", "A", "RA"],
        12 => vec!["Enigma", "25", "H", "RH"],
        13 => vec!["27", "CA", "RCA"],
        14 => vec!["Behemoth", "31", "Q", "RQ"],
        15 => vec!["Labyrinth", "33", "L"],
        16 => vec!["ZL", "34", "ND", "RND"],
        17 => vec!["Colosseum", "36", "SR", "RSR"],
        _ => vec!["EoC", "ItF", "W", "CotC", "Space", "Aku", "DM", "Z", "Filibuster"],
    }
}

/// First entry of the selector map, from entry `i` on, one of whose names
/// equals `sel` ignoring case.
pub open spec fn type_map_index_from(sel: Seq<char>, i: int) -> Option<int>
    decreases 19 - i,
{
    if i >= 19 || i < 0 {
        None
    } else if any_fold_eq(type_map_names(i), sel) {
        Some(i)
    } else {
        type_map_index_from(sel, i + 1)
    }
}

/// First entry of the selector map that `sel` names.
pub open spec fn type_map_index(sel: Seq<char>) -> Option<int> {
    type_map_index_from(sel, 0)
}

/// The stage type that a selector names: that of the first entry of the
/// selector map with a name equal to `sel` ignoring case.
pub open spec fn spec_get_selector_type(sel: Seq<char>) -> Option<StageType> {
    match type_map_index(sel) {
        Some(i) => Some(spec_stage_types()[type_map_target(i)->0]),
        None => None,
    }
}

/// A selector type that names a stage type, or none: the Legend Quest entry
/// names no stage type and cannot be looked up.
pub open spec fn selector_type_ok(sel: Seq<char>) -> bool {
    match type_map_index(sel) {
        Some(i) => type_map_target(i) is Some,
        None => true,
    }
}

/// Does entry `i` of the selector map name `sel`?
fn type_map_matches(i: usize, sel: &Vec<char>) -> (b: bool)
    requires
        i < NUM_TYPE_MAP,
    ensures
        b == any_fold_eq(type_map_names(i as int), sel@),
{
    let names = type_map_names_at(i);
    let ghost ns = type_map_names(i as int);
    proof {
        lemma_any_fold_eq(ns, sel@);
    }
    let mut k: usize = 0;
    while k < names.len()
        invariant
            0 <= k <= names.len(),
            ns == type_map_names(i as int),
            names@.len() == ns.len(),
            forall|j: int| 0 <= j < names@.len() ==> (#[trigger] names@[j])@ == ns[j],
            any_fold_eq(ns, sel@) <==> exists|j: int| 0 <= j < ns.len() && fold_eq(#[trigger] ns[j], sel@),
            forall|j: int| 0 <= j < k ==> !fold_eq(#[trigger] ns[j], sel@),
        decreases names.len() - k,
    {
        let a = chars_of(names[k]);
        assert(names@[k as int]@ == ns[k as int]);
        if crate::meta::stage::stage_types::data::fold_eq_chars(&a, sel) {
            assert(fold_eq(ns[k as int], sel@));
            return true;
        }
        k = k + 1;
    }
    false
}

/// Index of the stage type with the given target.
fn target_at(i: usize) -> (t: Option<usize>)
    requires
        i < NUM_TYPE_MAP,
    ensures
        match t {
            Some(j) => type_map_target(i as int) == Some(j as int) && j < NUM_STAGE_TYPES,
            None => type_map_target(i as int) is None,
        },
{
    match i {
        0 => Some(0),
        1 => Some(1),
        2 => Some(2),
        3 => Some(4),
        4 => Some(5),
        5 => Some(6),
        6 => Some(7),
        7 => Some(8),
        8 => Some(9),
        9 => Some(10),
        10 => None,
        11 => Some(11),
        12 => Some(12),
        13 => Some(13),
        14 => Some(14),
        15 => Some(15),
        16 => Some(16),
        17 => Some(17),
        _ => Some(3),
    }
}

/// Get the [`StageType`] that `selector_type` refers to.
pub fn get_selector_type(selector_type: &str) -> (st: Option<StageType>)
    requires
        selector_type_ok(selector_type@),
    ensures
        st == spec_get_selector_type(selector_type@),
{
    let sel = chars_of(selector_type);
    get_selector_type_chars(&sel)
}

/// [`get_selector_type`] on the characters of the selector type.
pub fn get_selector_type_chars(sel: &Vec<char>) -> (st: Option<StageType>)
    requires
        selector_type_ok(sel@),
    ensures
        st == spec_get_selector_type(sel@),
{
    let mut i: usize = 0;
    while i < NUM_TYPE_MAP
        invariant
            0 <= i <= NUM_TYPE_MAP,
            selector_type_ok(sel@),
            type_map_index(sel@) == type_map_index_from(sel@, i as int),
        decreases NUM_TYPE_MAP - i,
    {
        if type_map_matches(i, sel) {
            let j = target_at(i).unwrap();
            return Some(stage_type_at(j));
        }
        i = i + 1;
    }
    None
}

/// Code of entry `i` of the selector map (the code of its stage type).
pub open spec fn spec_type_map_code(i: int) -> &'static str {
    if i == 0 {
        "N"
    } else if i == 1 {
        "S"
    } else if i == 2 {
        "C"
    } else if i == 3 {
        "RE|EX"
    } else if i == 4 {
        "T"
    } else if i == 5 {
        "V"
    } else if i == 6 {
        "R"
    } else if i == 7 {
        "M"
    } else if i == 8 {
        "NA"
    } else if i == 9 {
        "B"
    } else if i == 10 {
        "Why would you want to do Legend Quest"
    } else if i == 11 {
        "A"
    } else if i == 12 {
        "H"
    } else if i == 13 {
        "CA"
    } else if i == 14 {
        "Q"
    } else if i == 15 {
        "L"
    } else if i == 16 {
        "ND"
    } else if i == 17 {
        "SR"
    } else {
        "main"
    }
}

/// Code of entry `i` of the selector map.
pub fn type_map_code(i: usize) -> (c: &'static str)
    requires
        i < NUM_TYPE_MAP,
    ensures
        c == spec_type_map_code(i as int),
{
    match i {
        0 => "N",
        1 => "S",
        2 => "C",
        3 => "RE|EX",
        4 => "T",
        5 => "V",
        6 => "R",
        7 => "M",
        8 => "NA",
        9 => "B",
        10 => "Why would you want to do Legend Quest",
        11 => "A",
        12 => "H",
        13 => "CA",
        14 => "Q",
        15 => "L",
        16 => "ND",
        17 => "SR",
        _ => "main",
    }
}

/// Code of the stage type that `sel` names in the selector map, if any.
pub fn get_selector_code(sel: &Vec<char>) -> (c: Option<&'static str>)
    ensures
        c == match type_map_index(sel@) {
            Some(i) => Some(spec_type_map_code(i)),
            None => None::<&'static str>,
        },
{
    let mut i: usize = 0;
    while i < NUM_TYPE_MAP
        invariant
            0 <= i <= NUM_TYPE_MAP,
            type_map_index(sel@) == type_map_index_from(sel@, i as int),
        decreases NUM_TYPE_MAP - i,
    {
        if type_map_matches(i, sel) {
            return Some(type_map_code(i));
        }
        i = i + 1;
    }
    None
}

/// Index of the first stage type with code `code`.
pub open spec fn stage_type_code_index_from(code: Seq<char>, i: int) -> Option<int>
    decreases 18 - i,
{
    if i >= 18 || i < 0 {
        None
    } else if spec_stage_types()[i].code@ == code {
        Some(i)
    } else {
        stage_type_code_index_from(code, i + 1)
    }
}

/// The stage type with code `code`.
pub open spec fn spec_get_stage_type_code(code: Seq<char>) -> StageType {
    spec_stage_types()[stage_type_code_index_from(code, 0)->0]
}

/// Get the [`StageType`] that `stage_type` corresponds to (one of the stage
/// types must have it as its code).
pub fn get_stage_type_code(stage_type: &str) -> (st: StageType)
    requires
        stage_type_code_index_from(stage_type@, 0) is Some,
    ensures
        st == spec_get_stage_type_code(stage_type@),
{
    let code = chars_of(stage_type);
    let mut i: usize = 0;
    while i < NUM_STAGE_TYPES
        invariant
            0 <= i <= NUM_STAGE_TYPES,
            code@ == stage_type@,
            stage_type_code_index_from(stage_type@, 0) == stage_type_code_index_from(stage_type@, i as int),
            stage_type_code_index_from(stage_type@, 0) is Some,
        decreases NUM_STAGE_TYPES - i,
    {
        let st = stage_type_at(i);
        if crate::text::eq_str(&code, st.code) {
            return st;
        }
        i = i + 1;
    }
    stage_type_at(0)
}

} // verus!
