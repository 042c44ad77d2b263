//! Module that deals with parsing and storing metadata about stages.

pub mod consts;
pub mod laws;

use self::consts::{
    get_selector_type_chars, selector_type_ok, spec_get_selector_type, StageType,
};
use crate::meta::stage::stage_types::parse::parse_stage::{
    all_digits_exec, db_replaced, replace_db_url, split_stage_file, stage_file_parts,
    stage_ref_parts,
};
use crate::text::{
    chars_of, decimal, ends_with, eq_str, find_first, has_char, has_prefix, has_suffix, lower_eq,
    lower_eq_str, padded, parse_usize, parse_usize_chars, push_decimal, push_padded, push_str,
    split_chars, split_on, starts_with, string_from, subvec, pieces_view, digits_value, all_digits,
};
use crate::decimal_digits::{all_decimal, all_decimal_exec};
use vstd::prelude::*;
use vstd::string::StrSliceExecFns;

verus! {

/// Contains metadata about a given stage.
#[derive(Debug, PartialEq)]
pub struct StageMeta {
    /// Long-form name of the stage type.
    pub type_full_name: &'static str,
    /// Short-form name of the stage type. All codes are given in the stage
    /// types.
    pub type_code: &'static str,
    /// Numerical value of the [`StageType`].
    pub type_num: usize,
    /// Map number of the stage.
    pub map_num: usize,
    /// Stage number of the stage.
    pub stage_num: usize,
    /// DataLocal file that contains information about the map the stage is in.
    pub map_file_name: String,
    /// DataLocal file that contains information about the stage.
    pub stage_file_name: String,
}

/// The fields of a [`StageMeta`] as plain values.
#[verifier::ext_equal]
pub struct MetaView {
    /// Long-form name of the stage type.
    pub type_full_name: Seq<char>,
    /// Short-form name of the stage type.
    pub type_code: Seq<char>,
    /// Numerical value of the stage type.
    pub type_num: nat,
    /// Map number of the stage.
    pub map_num: nat,
    /// Stage number of the stage.
    pub stage_num: nat,
    /// Map data file.
    pub map_file_name: Seq<char>,
    /// Stage data file.
    pub stage_file_name: Seq<char>,
}

impl View for StageMeta {
    type V = MetaView;

    open spec fn view(&self) -> MetaView {
        MetaView {
            type_full_name: self.type_full_name@,
            type_code: self.type_code@,
            type_num: self.type_num as nat,
            map_num: self.map_num as nat,
            stage_num: self.stage_num as nat,
            map_file_name: self.map_file_name@,
            stage_file_name: self.stage_file_name@,
        }
    }
}

/// Denotes an error when parsing [`StageMeta`].
#[derive(Debug, Clone, Copy, PartialEq, Eq, Structural)]
pub enum StageMetaParseError {
    /// Not the correct function to use.
    Rejected,
    /// Either selector doesn't exist or numbers are not given.
    Invalid,
}

/// A parse result with the metadata as plain values.
pub open spec fn meta_result(r: Result<StageMeta, StageMetaParseError>) -> Result<MetaView, StageMetaParseError> {
    match r {
        Ok(m) => Ok(m@),
        Err(e) => Err(e),
    }
}

/// Metadata of stage `stage` of map `map` of stage type `st`: map files are
/// `MapStageData{code}_{map:03}.csv`, stage files
/// `stage{R if prefixed}{code}{map:03}_{stage:02}.csv`; a code `map|stage`
/// gives the map files and the stage files codes of their own.
pub open spec fn spec_from_split_parsed(st: StageType, map: nat, stage: nat) -> MetaView {
    if has_char(st.code@, '|') {
        let mc = st.code@.subrange(0, 2);
        let sc = st.code@.skip(3);
        MetaView {
            type_full_name: st.name@,
            type_code: sc,
            type_num: st.number as nat,
            map_num: map,
            stage_num: stage,
            map_file_name: "MapStageData"@ + mc + seq!['_'] + padded(map, 3) + ".csv"@,
            stage_file_name: "stage"@ + sc + padded(map, 3) + seq!['_'] + padded(stage, 2) + ".csv"@,
        }
    } else {
        let prefix = if st.has_r_prefix { seq!['R'] } else { Seq::<char>::empty() };
        MetaView {
            type_full_name: st.name@,
            type_code: st.code@,
            type_num: st.number as nat,
            map_num: map,
            stage_num: stage,
            map_file_name: "MapStageData"@ + st.code@ + seq!['_'] + padded(map, 3) + ".csv"@,
            stage_file_name: "stage"@ + prefix + st.code@ + padded(map, 3) + seq!['_'] + padded(stage, 2) + ".csv"@,
        }
    }
}

/// Stage types whose split code has a map part and a stage part.
pub open spec fn code_ok(st: StageType) -> bool {
    has_char(st.code@, '|') ==> st.code@.len() >= 3
}

/// Lemma: the stage types' codes are fit for splitting.
pub proof fn lemma_stage_types_codes(i: int)
    requires
        0 <= i < 18,
    ensures
        code_ok(consts::spec_stage_types()[i]),
{
    reveal_strlit("N");
    reveal_strlit("S");
    reveal_strlit("C");
    reveal_strlit("main");
    reveal_strlit("RE|EX");
    reveal_strlit("T");
    reveal_strlit("V");
    reveal_strlit("R");
    reveal_strlit("M");
    reveal_strlit("NA");
    reveal_strlit("B");
    reveal_strlit("A");
    reveal_strlit("H");
    reveal_strlit("CA");
    reveal_strlit("Q");
    reveal_strlit("L");
    reveal_strlit("ND");
    reveal_strlit("SR");
    let st = consts::spec_stage_types()[i];
    if has_char(st.code@, '|') {
        let k = choose|k: int| 0 <= k < st.code@.len() && st.code@[k] == '|';
        assert(st.code@[k] == '|');
    }
}

/// Lemma: every stage type a selector names has a code fit for splitting.
pub proof fn lemma_selector_type_code(sel: Seq<char>)
    ensures
        selector_type_ok(sel) ==> (spec_get_selector_type(sel) matches Some(st) ==> code_ok(st)),
{
    if let Some(i) = consts::type_map_index(sel) {
        if let Some(j) = consts::type_map_target(i) {
            lemma_target_range(i);
            lemma_stage_types_codes(j);
        }
    }
}

/// Lemma: the targets of the selector map are stage types.
proof fn lemma_target_range(i: int)
    ensures
        consts::type_map_target(i) matches Some(j) ==> 0 <= j < 18,
{
}

/// Does `s` contain `'|'`?
fn has_bar(s: &str) -> (b: bool)
    ensures
        b == has_char(s@, '|'),
{
    let cs = chars_of(s);
    let r = find_first(&cs, '|');
    proof {
        crate::text::lemma_index_of(cs@, '|');
    }
    r.is_some()
}

/// Metadata of a main chapter stage.
pub open spec fn main_meta(map: nat, stage: nat, map_file: Seq<char>, stage_file: Seq<char>) -> MetaView {
    MetaView {
        type_full_name: "Main Chapters"@,
        type_code: "main"@,
        type_num: 3,
        map_num: map,
        stage_num: stage,
        map_file_name: map_file,
        stage_file_name: stage_file,
    }
}

/// Map number of outbreak chapter `c` (numbered from 1).
pub open spec fn z_map(c: int) -> nat {
    seq![0nat, 1, 2, 10, 12, 13, 15, 16][c - 1]
}

/// Number read from piece `i` of a selector.
pub open spec fn piece_num(sel: Seq<Seq<char>>, i: int) -> nat {
    parse_usize(sel[i])->0 as nat
}

/// Result of a main chapter selector:
/// - EoC: `["eoc", stage]`
/// - ItF/W: `["itf", chapter, stage]`, chapter 1 = map 3
/// - CotC/Space: `["cotc", chapter, stage]`, chapter 1 = map 6
/// - Aku/DM: `["aku", stage]`
/// - Filibuster: `["filibuster"]`
/// - Z: `["z", chapter, stage]`, chapters 1-3 EoC, 4-6 ItF, 7-8 CotC
pub open spec fn spec_from_selector_main(sel: Seq<Seq<char>>) -> Result<MetaView, StageMetaParseError> {
    let k = sel[0];
    if lower_eq(k, "eoc"@) {
        let st = piece_num(sel, 1);
        Ok(main_meta(9, st, "stageNormal0.csv"@, "stage"@ + padded(st, 2) + ".csv"@))
    } else if lower_eq(k, "itf"@) || lower_eq(k, "w"@) {
        let m = piece_num(sel, 1) + 2;
        let st = piece_num(sel, 2);
        Ok(main_meta(m, st, "stageNormal1_"@ + decimal((m - 3) as nat) + ".csv"@,
            "stageW"@ + padded(m + 1, 2) + seq!['_'] + padded(st, 2) + ".csv"@))
    } else if lower_eq(k, "cotc"@) || lower_eq(k, "space"@) {
        let m = piece_num(sel, 1) + 5;
        let st = piece_num(sel, 2);
        Ok(main_meta(m, st, "stageNormal2_"@ + decimal((m - 6) as nat) + ".csv"@,
            "stageSpace"@ + padded(m + 1, 2) + seq!['_'] + padded(st, 2) + ".csv"@))
    } else if lower_eq(k, "aku"@) || lower_eq(k, "dm"@) {
        let st = piece_num(sel, 1);
        Ok(main_meta(14, st, "MapStageDataDM_000.csv"@, "stageDM000_"@ + padded(st, 2) + ".csv"@))
    } else if lower_eq(k, "filibuster"@) {
        Ok(main_meta(11, 0, "stageNormal2_2_Invasion.csv"@, "stageSpace09_Invasion_00.csv"@))
    } else if lower_eq(k, "z"@) {
        let c = piece_num(sel, 1);
        let st = piece_num(sel, 2);
        let zc: nat = if c <= 3 { (c - 1) as nat } else { c };
        Ok(main_meta(z_map(c as int), st,
            "stageNormal"@ + decimal(((c - 1) / 3) as nat) + seq!['_'] + decimal(((c - 1) % 3) as nat) + "_Z.csv"@,
            "stageZ"@ + padded(zc, 2) + seq!['_'] + padded(st, 2) + ".csv"@))
    } else {
        Err(StageMetaParseError::Invalid)
    }
}

/// A main chapter selector that is handled without panicking: the pieces
/// that are read exist and are numbers, chapters of ItF and CotC are at
/// least 1 (and leave room for their offsets), and outbreak chapters are 1
/// to 8.
pub open spec fn main_selector_ok(sel: Seq<Seq<char>>) -> bool {
    sel.len() >= 1 && {
        let k = sel[0];
        if lower_eq(k, "eoc"@) {
            sel.len() >= 2 && parse_usize(sel[1]) is Some
        } else if lower_eq(k, "itf"@) || lower_eq(k, "w"@) {
            sel.len() >= 3 && parse_usize(sel[1]) is Some && parse_usize(sel[2]) is Some
                && 1 <= piece_num(sel, 1) && piece_num(sel, 1) + 3 <= usize::MAX
        } else if lower_eq(k, "cotc"@) || lower_eq(k, "space"@) {
            sel.len() >= 3 && parse_usize(sel[1]) is Some && parse_usize(sel[2]) is Some
                && 1 <= piece_num(sel, 1) && piece_num(sel, 1) + 6 <= usize::MAX
        } else if lower_eq(k, "aku"@) || lower_eq(k, "dm"@) {
            sel.len() >= 2 && parse_usize(sel[1]) is Some
        } else if lower_eq(k, "filibuster"@) {
            true
        } else if lower_eq(k, "z"@) {
            sel.len() >= 3 && parse_usize(sel[1]) is Some && parse_usize(sel[2]) is Some
                && 1 <= piece_num(sel, 1) && piece_num(sel, 1) <= 8
        } else {
            true
        }
    }
}

/// Views of a sequence of string slices.
pub open spec fn strs_view(v: Seq<&str>) -> Seq<Seq<char>> {
    Seq::new(v.len(), |i: int| v[i]@)
}

impl StageMeta {
    /// Metadata of a main chapter stage.
    fn main(map_num: usize, stage_num: usize, map_file_name: String, stage_file_name: String) -> (m: StageMeta)
        ensures
            m@ == main_meta(map_num as nat, stage_num as nat, map_file_name@, stage_file_name@),
    {
        StageMeta {
            type_full_name: "Main Chapters",
            type_code: "main",
            type_num: 3,
            map_num,
            stage_num,
            map_file_name,
            stage_file_name,
        }
    }

    /// [`StageMeta::from_split`] but with `stage_type` being one of the stage
    /// types.
    pub fn from_split_parsed(stage_type: &StageType, map_num: usize, stage_num: usize) -> (m: StageMeta)
        requires
            code_ok(*stage_type),
        ensures
            m@ == spec_from_split_parsed(*stage_type, map_num as nat, stage_num as nat),
    {
        let mut map_file: Vec<char> = Vec::new();
        let mut stage_file: Vec<char> = Vec::new();
        push_str(&mut map_file, "MapStageData");
        push_str(&mut stage_file, "stage");
        let type_code: &'static str;
        if has_bar(stage_type.code) {
            let len = stage_type.code.unicode_len();
            let map = stage_type.code.substring_char(0, 2);
            let stage = stage_type.code.substring_char(3, len);
            type_code = stage;
            push_str(&mut map_file, map);
            push_str(&mut stage_file, stage);
        } else {
            if stage_type.has_r_prefix {
                stage_file.push('R');
            }
            type_code = stage_type.code;
            push_str(&mut map_file, stage_type.code);
            push_str(&mut stage_file, stage_type.code);
        }
        map_file.push('_');
        push_padded(&mut map_file, map_num as u64, 3);
        push_str(&mut map_file, ".csv");
        push_padded(&mut stage_file, map_num as u64, 3);
        stage_file.push('_');
        push_padded(&mut stage_file, stage_num as u64, 2);
        push_str(&mut stage_file, ".csv");
        let m = StageMeta {
            type_full_name: stage_type.name,
            type_code,
            type_num: stage_type.number,
            map_num,
            stage_num,
            map_file_name: string_from(&map_file),
            stage_file_name: string_from(&stage_file),
        };
        assert(m@.map_file_name =~= spec_from_split_parsed(*stage_type, map_num as nat, stage_num as nat).map_file_name);
        assert(m@.stage_file_name =~= spec_from_split_parsed(*stage_type, map_num as nat, stage_num as nat).stage_file_name);
        m
    }

    /// Get [`StageMeta`] from a selector split into variables.
    pub fn from_split(stage_type: &str, map_num: usize, stage_num: usize) -> (r: Result<StageMeta, StageMetaParseError>)
        requires
            selector_type_ok(stage_type@),
        ensures
            meta_result(r) == match spec_get_selector_type(stage_type@) {
                None => Err(StageMetaParseError::Invalid),
                Some(st) => Ok(spec_from_split_parsed(st, map_num as nat, stage_num as nat)),
            },
    {
        let cs = chars_of(stage_type);
        Self::from_split_chars(&cs, map_num, stage_num)
    }

    /// [`StageMeta::from_split`] on the characters of the stage type.
    fn from_split_chars(stage_type: &Vec<char>, map_num: usize, stage_num: usize) -> (r: Result<StageMeta, StageMetaParseError>)
        requires
            selector_type_ok(stage_type@),
        ensures
            meta_result(r) == match spec_get_selector_type(stage_type@) {
                None => Err(StageMetaParseError::Invalid),
                Some(st) => Ok(spec_from_split_parsed(st, map_num as nat, stage_num as nat)),
            },
    {
        proof {
            lemma_selector_type_code(stage_type@);
        }
        match get_selector_type_chars(stage_type) {
            None => Err(StageMetaParseError::Invalid),
            Some(st) => Ok(Self::from_split_parsed(&st, map_num, stage_num)),
        }
    }

    /// Parse a main chapter selector (see [`spec_from_selector_main`]).
    pub fn from_selector_main(selector: &Vec<&str>) -> (r: Result<StageMeta, StageMetaParseError>)
        requires
            main_selector_ok(strs_view(selector@)),
        ensures
            meta_result(r) == spec_from_selector_main(strs_view(selector@)),
    {
        let mut pieces: Vec<Vec<char>> = Vec::new();
        let mut i: usize = 0;
        while i < selector.len()
            invariant
                0 <= i <= selector.len(),
                pieces@.len() == i,
                pieces_view(pieces@) == strs_view(selector@).subrange(0, i as int),
            decreases selector.len() - i,
        {
            let piece = chars_of(selector[i]);
            assert(piece@ == strs_view(selector@)[i as int]);
            let ghost before = pieces@;
            pieces.push(piece);
            assert forall|j: int| 0 <= j < i implies #[trigger] pieces_view(pieces@)[j] == strs_view(selector@)[j] by {
                assert(pieces@[j] == before[j]);
                assert(pieces_view(before)[j] == strs_view(selector@).subrange(0, i as int)[j]);
            }
            assert(pieces_view(pieces@) =~= strs_view(selector@).subrange(0, i as int + 1));
            i = i + 1;
        }
        assert(strs_view(selector@).subrange(0, selector@.len() as int) =~= strs_view(selector@));
        Self::from_selector_main_chars(&pieces)
    }

    /// [`StageMeta::from_selector_main`] on character pieces.
    fn from_selector_main_chars(sel: &Vec<Vec<char>>) -> (r: Result<StageMeta, StageMetaParseError>)
        requires
            main_selector_ok(pieces_view(sel@)),
        ensures
            meta_result(r) == spec_from_selector_main(pieces_view(sel@)),
    {
        let ghost v = pieces_view(sel@);
        assert(v[0] == sel@[0]@);
        let k = &sel[0];
        let mut sf: Vec<char> = Vec::new();
        if lower_eq_str(k, "eoc") {
            assert(v[1] == sel@[1]@);
            let st = parse_usize_chars(&sel[1]).unwrap();
            push_str(&mut sf, "stage");
            push_padded(&mut sf, st as u64, 2);
            push_str(&mut sf, ".csv");
            let m = Self::main(9, st, "stageNormal0.csv".to_string(), string_from(&sf));
            assert(m@ =~= spec_from_selector_main(v)->Ok_0);
            return Ok(m);
        }
        if lower_eq_str(k, "itf") || lower_eq_str(k, "w") {
            assert(v[1] == sel@[1]@);
            assert(v[2] == sel@[2]@);
            let m = parse_usize_chars(&sel[1]).unwrap() + 2;
            let st = parse_usize_chars(&sel[2]).unwrap();
            let mut mf: Vec<char> = Vec::new();
            push_str(&mut mf, "stageNormal1_");
            push_decimal(&mut mf, (m - 3) as u64);
            push_str(&mut mf, ".csv");
            push_str(&mut sf, "stageW");
            push_padded(&mut sf, (m + 1) as u64, 2);
            sf.push('_');
            push_padded(&mut sf, st as u64, 2);
            push_str(&mut sf, ".csv");
            let r = Self::main(m, st, string_from(&mf), string_from(&sf));
            assert(r@ =~= spec_from_selector_main(v)->Ok_0);
            return Ok(r);
        }
        if lower_eq_str(k, "cotc") || lower_eq_str(k, "space") {
            assert(v[1] == sel@[1]@);
            assert(v[2] == sel@[2]@);
            let m = parse_usize_chars(&sel[1]).unwrap() + 5;
            let st = parse_usize_chars(&sel[2]).unwrap();
            let mut mf: Vec<char> = Vec::new();
            push_str(&mut mf, "stageNormal2_");
            push_decimal(&mut mf, (m - 6) as u64);
            push_str(&mut mf, ".csv");
            push_str(&mut sf, "stageSpace");
            push_padded(&mut sf, (m + 1) as u64, 2);
            sf.push('_');
            push_padded(&mut sf, st as u64, 2);
            push_str(&mut sf, ".csv");
            let r = Self::main(m, st, string_from(&mf), string_from(&sf));
            assert(r@ =~= spec_from_selector_main(v)->Ok_0);
            return Ok(r);
        }
        if lower_eq_str(k, "aku") || lower_eq_str(k, "dm") {
            assert(v[1] == sel@[1]@);
            let st = parse_usize_chars(&sel[1]).unwrap();
            push_str(&mut sf, "stageDM000_");
            push_padded(&mut sf, st as u64, 2);
            push_str(&mut sf, ".csv");
            let r = Self::main(14, st, "MapStageDataDM_000.csv".to_string(), string_from(&sf));
            assert(r@ =~= spec_from_selector_main(v)->Ok_0);
            return Ok(r);
        }
        if lower_eq_str(k, "filibuster") {
            let r = Self::main(11, 0, "stageNormal2_2_Invasion.csv".to_string(), "stageSpace09_Invasion_00.csv".to_string());
            return Ok(r);
        }
        if lower_eq_str(k, "z") {
            assert(v[1] == sel@[1]@);
            assert(v[2] == sel@[2]@);
            let c = parse_usize_chars(&sel[1]).unwrap();
            let table: [usize; 8] = [0, 1, 2, 10, 12, 13, 15, 16];
            let map = table[c - 1];
            let st = parse_usize_chars(&sel[2]).unwrap();
            let mut mf: Vec<char> = Vec::new();
            push_str(&mut mf, "stageNormal");
            push_decimal(&mut mf, ((c - 1) / 3) as u64);
            mf.push('_');
            push_decimal(&mut mf, ((c - 1) % 3) as u64);
            push_str(&mut mf, "_Z.csv");
            let zc = if c <= 3 { c - 1 } else { c };
            push_str(&mut sf, "stageZ");
            push_padded(&mut sf, zc as u64, 2);
            sf.push('_');
            push_padded(&mut sf, st as u64, 2);
            push_str(&mut sf, ".csv");
            let r = Self::main(map, st, string_from(&mf), string_from(&sf));
            proof {
                assert(table@ =~= seq![0usize, 1, 2, 10, 12, 13, 15, 16]);
            }
            assert(r@ =~= spec_from_selector_main(v)->Ok_0);
            return Ok(r);
        }
        Err(StageMetaParseError::Invalid)
    }
}

/// Result of parsing a space-delimited selector: the first piece names the
/// stage type; main chapters are read as a main chapter selector, others
/// take the map and stage numbers from the next two pieces.
pub open spec fn spec_from_selector(s: Seq<char>) -> Result<MetaView, StageMetaParseError> {
    let pieces = split_on(s, ' ');
    match spec_get_selector_type(pieces[0]) {
        None => Err(StageMetaParseError::Invalid),
        Some(st) => if st.code@ == "main"@ {
            spec_from_selector_main(pieces)
        } else {
            Ok(spec_from_split_parsed(st, piece_num(pieces, 1), piece_num(pieces, 2)))
        },
    }
}

/// A selector that is parsed without panicking.
pub open spec fn from_selector_ok(s: Seq<char>) -> bool {
    let pieces = split_on(s, ' ');
    &&& selector_type_ok(pieces[0])
    &&& match spec_get_selector_type(pieces[0]) {
        None => true,
        Some(st) => if st.code@ == "main"@ {
            main_selector_ok(pieces)
        } else {
            pieces.len() >= 3 && parse_usize(pieces[1]) is Some && parse_usize(pieces[2]) is Some
        },
    }
}

/// Digits of an EoC stage file `stage{dd}.csv`.
pub open spec fn eoc_file_digits(f: Seq<char>) -> Option<Seq<char>> {
    if f.len() == 11 && f.subrange(0, 5) == "stage"@ && all_decimal(f.subrange(5, 7)) && f.skip(7) == ".csv"@ {
        Some(f.subrange(5, 7))
    } else {
        None
    }
}

/// Does `t` begin with `x` and two digits, and end with `.csv` with no
/// newline between?
pub open spec fn other_main_rest(t: Seq<char>, x: Seq<char>) -> bool {
    &&& starts_with(t, x)
    &&& t.len() >= x.len() + 6
    &&& all_decimal(t.subrange(x.len() as int, x.len() + 2int))
    &&& ends_with(t, ".csv"@)
    &&& !has_char(t.subrange(x.len() + 2int, t.len() - 4), '\n')
}

/// Is `f` the stage file of a main chapter other than EoC
/// (`stage{W|Space|DM|Z}{dd}...csv`)?
pub open spec fn is_other_main_file(f: Seq<char>) -> bool {
    starts_with(f, "stage"@) && {
        let t = f.skip(5);
        other_main_rest(t, "W"@) || other_main_rest(t, "Space"@) || other_main_rest(t, "DM"@)
            || other_main_rest(t, "Z"@)
    }
}

/// The main chapter selector that the parts of a main chapter file name
/// give: outbreak chapters 0 to 3 are numbered from 1, ItF and CotC
/// chapters are counted from maps 3 and 6, and Aku Realms stages are given
/// as their stage number.
pub open spec fn other_main_selector(a: Seq<char>, chap: nat, stage: nat) -> Seq<Seq<char>> {
    let chap2: int = if a == "Z"@ && chap <= 3 { chap + 1int } else { chap as int };
    if a == "W"@ {
        seq![a, decimal((chap2 - 3) as nat), decimal(stage)]
    } else if a == "Space"@ {
        seq![a, decimal((chap2 - 6) as nat), decimal(stage)]
    } else if a == "DM"@ {
        seq![a, decimal(stage), decimal(stage)]
    } else {
        seq![a, decimal(chap2 as nat), decimal(stage)]
    }
}

/// Result of parsing a stage data file name: the Filibuster and EoC files,
/// then the files of other main chapters, then any other name with an
/// underscore, read as code, map and stage; other names are rejected.
pub open spec fn spec_from_file(f: Seq<char>) -> Result<MetaView, StageMetaParseError> {
    if f == "stageSpace09_Invasion_00.csv"@ {
        spec_from_selector_main(seq!["Filibuster"@])
    } else if eoc_file_digits(f) is Some {
        spec_from_selector_main(seq!["eoc"@, eoc_file_digits(f)->0])
    } else if is_other_main_file(f) {
        let (a, b, c) = stage_file_parts(f)->0;
        spec_from_selector_main(other_main_selector(a, parse_usize(b)->0 as nat, parse_usize(c)->0 as nat))
    } else if has_char(f, '_') {
        let (a, b, c) = stage_file_parts(f)->0;
        match spec_get_selector_type(a) {
            None => Err(StageMetaParseError::Invalid),
            Some(st) => Ok(spec_from_split_parsed(st, parse_usize(b)->0 as nat, parse_usize(c)->0 as nat)),
        }
    } else {
        Err(StageMetaParseError::Rejected)
    }
}

/// A file name that is parsed without panicking.
pub open spec fn from_file_ok(f: Seq<char>) -> bool {
    if f == "stageSpace09_Invasion_00.csv"@ {
        true
    } else if eoc_file_digits(f) is Some {
        all_digits(eoc_file_digits(f)->0)
    } else if is_other_main_file(f) || has_char(f, '_') {
        match stage_file_parts(f) {
            None => false,
            Some((a, b, c)) => parse_usize(b) is Some && parse_usize(c) is Some && if is_other_main_file(f) {
                let chap = parse_usize(b)->0 as nat;
                let chap2: int = if a == "Z"@ && chap <= 3 { chap + 1int } else { chap as int };
                &&& a == "W"@ ==> chap2 >= 3
                &&& a == "Space"@ ==> chap2 >= 6
                &&& main_selector_ok(other_main_selector(a, chap, parse_usize(c)->0 as nat))
            } else {
                selector_type_ok(a)
            },
        }
    } else {
        true
    }
}

/// Result of parsing a battlecats-db reference: the chapter number is read
/// as a stage type selector, and the stage number is one past the stage's
/// own. With `two_digit_stage` the stage number has exactly two digits.
pub open spec fn spec_from_ref(t: Seq<char>, two_digit_stage: bool) -> Result<MetaView, StageMetaParseError> {
    let o = db_replaced(t);
    match stage_ref_parts(o) {
        Some((ch, map, st)) => if two_digit_stage && o.len() != 9 {
            Err(StageMetaParseError::Rejected)
        } else {
            match spec_get_selector_type(decimal(ch)) {
                None => Err(StageMetaParseError::Invalid),
                Some(stype) => Ok(spec_from_split_parsed(stype, map, (st - 1) as nat)),
            }
        },
        None => Err(StageMetaParseError::Rejected),
    }
}

/// A reference that is parsed without panicking: its stage number is at
/// least 1 and fits in a `usize`, and its chapter is no Legend Quest one.
pub open spec fn from_ref_ok(t: Seq<char>, two_digit_stage: bool) -> bool {
    let o = db_replaced(t);
    match stage_ref_parts(o) {
        Some((ch, map, st)) => (two_digit_stage && o.len() != 9) || (1 <= st <= usize::MAX
            && selector_type_ok(decimal(ch))),
        None => true,
    }
}

/// Result of the catch-all parser: the first of the selector, file name and
/// reference readings that succeeds.
pub open spec fn spec_new(s: Seq<char>, two_digit_stage: bool) -> Result<MetaView, StageMetaParseError> {
    match spec_from_selector(s) {
        Ok(m) => Ok(m),
        Err(_) => match spec_from_file(s) {
            Ok(m) => Ok(m),
            Err(_) => match spec_from_ref(s, two_digit_stage) {
                Ok(m) => Ok(m),
                Err(_) => Err(StageMetaParseError::Invalid),
            },
        },
    }
}

/// A string on which every reading that is tried finishes without panicking.
pub open spec fn new_ok(s: Seq<char>, two_digit_stage: bool) -> bool {
    &&& from_selector_ok(s)
    &&& spec_from_selector(s) is Err ==> from_file_ok(s)
    &&& (spec_from_selector(s) is Err && spec_from_file(s) is Err) ==> from_ref_ok(s, two_digit_stage)
}

impl StageMeta {
    /// Parse space-delimited selector into [`StageMeta`] object.
    pub fn from_selector(selector: &str) -> (r: Result<StageMeta, StageMetaParseError>)
        requires
            from_selector_ok(selector@),
        ensures
            meta_result(r) == spec_from_selector(selector@),
    {
        let cs = chars_of(selector);
        let pieces = split_chars(&cs, ' ');
        proof {
            crate::text::lemma_split_pieces(cs@, ' ');
            assert(pieces_view(pieces@)[0] == pieces@[0]@);
        }
        let stype = match get_selector_type_chars(&pieces[0]) {
            None => return Err(StageMetaParseError::Invalid),
            Some(st) => st,
        };
        proof {
            lemma_selector_type_code(pieces@[0]@);
        }
        let code = chars_of(stype.code);
        if eq_str(&code, "main") {
            return Self::from_selector_main_chars(&pieces);
        }
        proof {
            assert(pieces_view(pieces@)[1] == pieces@[1]@);
            assert(pieces_view(pieces@)[2] == pieces@[2]@);
        }
        let submap = parse_usize_chars(&pieces[1]).unwrap();
        let stage = parse_usize_chars(&pieces[2]).unwrap();
        Ok(Self::from_split_parsed(&stype, submap, stage))
    }

    /// Parse file name into [`StageMeta`] object.
    pub fn from_file(file_name: &str) -> (r: Result<StageMeta, StageMetaParseError>)
        requires
            from_file_ok(file_name@),
        ensures
            meta_result(r) == spec_from_file(file_name@),
    {
        let f = chars_of(file_name);
        if eq_str(&f, "stageSpace09_Invasion_00.csv") {
            let sel = vec![chars_of("Filibuster")];
            assert(pieces_view(sel@) =~= seq!["Filibuster"@]);
            proof {
                reveal_strlit("Filibuster");
                reveal_strlit("eoc");
                reveal_strlit("itf");
                reveal_strlit("w");
                reveal_strlit("cotc");
                reveal_strlit("space");
                reveal_strlit("aku");
                reveal_strlit("dm");
                reveal_strlit("z");
            }
            return Self::from_selector_main_chars(&sel);
        }
        if let Some(digits) = eoc_digits(&f) {
            let sel = vec![chars_of("eoc"), digits];
            assert(pieces_view(sel@) =~= seq!["eoc"@, eoc_file_digits(f@)->0]);
            proof {
                reveal_strlit("eoc");
                crate::meta::stage::stage_types::roundtrip::lemma_parse_two_digits(eoc_file_digits(f@)->0);
                assert(lower_eq("eoc"@, "eoc"@)) by {
                    assert forall|i: int| 0 <= i < 3 implies crate::text::lower_char(#[trigger] "eoc"@[i]) == "eoc"@[i] by {
                        assert(i == 0 || i == 1 || i == 2);
                    }
                }
            }
            return Self::from_selector_main_chars(&sel);
        }
        if is_other_main(&f) {
            return Self::from_other_main_file(&f);
        }
        if find_first(&f, '_').is_some() {
            proof {
                crate::text::lemma_index_of(f@, '_');
            }
            let (a, b, c) = split_stage_file(&f);
            let map_num = parse_usize_chars(&b).unwrap();
            let stage_num = parse_usize_chars(&c).unwrap();
            return Self::from_split_chars(&a, map_num, stage_num);
        }
        proof {
            crate::text::lemma_index_of(f@, '_');
        }
        Err(StageMetaParseError::Rejected)
    }

    /// [`StageMeta::from_file`] on the file of a main chapter other than EoC.
    #[verifier::rlimit(40)]
    fn from_other_main_file(f: &Vec<char>) -> (r: Result<StageMeta, StageMetaParseError>)
        requires
            is_other_main_file(f@),
            from_file_ok(f@),
            f@ != "stageSpace09_Invasion_00.csv"@,
            eoc_file_digits(f@) is None,
        ensures
            meta_result(r) == spec_from_file(f@),
    {
        let (a, b, c) = split_stage_file(&f);
        let chap = parse_usize_chars(&b).unwrap();
        let stage = parse_usize_chars(&c).unwrap();
        let chap2 = if eq_str(&a, "Z") && chap <= 3 { chap + 1 } else { chap };
        let (x, y) = if eq_str(&a, "W") {
            (chap2 - 3, stage)
        } else if eq_str(&a, "Space") {
            (chap2 - 6, stage)
        } else if eq_str(&a, "DM") {
            (stage, stage)
        } else {
            (chap2, stage)
        };
        let mut xs: Vec<char> = Vec::new();
        push_decimal(&mut xs, x as u64);
        let mut ys: Vec<char> = Vec::new();
        push_decimal(&mut ys, y as u64);
        let ghost code = a@;
        let sel = vec![a, xs, ys];
        assert(pieces_view(sel@) =~= other_main_selector(code, chap as nat, stage as nat));
        return Self::from_selector_main_chars(&sel);
    }

    /// Parse battle-cats.db reference into [`StageMeta`] object.
    ///
    /// `selector` can either be the full reference (with or without a leading
    /// `*`) or just the stage part.
    pub fn from_ref(selector: &str) -> (r: Result<StageMeta, StageMetaParseError>)
        requires
            from_ref_ok(selector@, false),
        ensures
            meta_result(r) == spec_from_ref(selector@, false),
    {
        Self::from_ref_digits(selector, false)
    }

    /// [`StageMeta::from_ref`], with the stage number limited to exactly two
    /// digits where `two_digit_stage` is set.
    pub fn from_ref_digits(selector: &str, two_digit_stage: bool) -> (r: Result<StageMeta, StageMetaParseError>)
        requires
            from_ref_ok(selector@, two_digit_stage),
        ensures
            meta_result(r) == spec_from_ref(selector@, two_digit_stage),
    {
        let t = chars_of(selector);
        let o = replace_db_url(&t);
        if !(o.len() >= 9 && o[0] == 's' && o[6] == '-') {
            return Err(StageMetaParseError::Rejected);
        }
        let head = subvec(&o, 1, 6);
        let tail = subvec(&o, 7, o.len());
        if !(all_digits_exec(&head) && all_digits_exec(&tail)) {
            return Err(StageMetaParseError::Rejected);
        }
        proof {
            assert(o@.subrange(1, 6) =~= head@);
            assert(o@.skip(7) =~= tail@);
        }
        if two_digit_stage && o.len() != 9 {
            return Err(StageMetaParseError::Rejected);
        }
        let ch_v = subvec(&o, 1, 3);
        let map_v = subvec(&o, 3, 6);
        proof {
            assert forall|i: int| 0 <= i < 2 implies crate::text::is_digit(#[trigger] ch_v@[i]) by {
                assert(ch_v@[i] == head@[i]);
            }
            assert forall|i: int| 0 <= i < 3 implies crate::text::is_digit(#[trigger] map_v@[i]) by {
                assert(map_v@[i] == head@[i + 2]);
            }
            assert(digits_value(ch_v@) < 100) by {
                reveal_with_fuel(digits_value, 3);
            }
            assert(digits_value(map_v@) < 1000) by {
                reveal_with_fuel(digits_value, 4);
            }
            assert(crate::text::is_digit(ch_v@[0]));
            assert(crate::text::is_digit(map_v@[0]));
            assert(crate::text::is_digit(tail@[0]));
        }
        let chapter = parse_usize_chars(&ch_v).unwrap();
        let submap = parse_usize_chars(&map_v).unwrap();
        let stage = parse_usize_chars(&tail).unwrap() - 1;
        Self::from_numbers(chapter, submap, stage)
    }

    /// Metadata from the numbers of stage type, map and stage.
    fn from_numbers(stage_type: usize, map_num: usize, stage_num: usize) -> (r: Result<StageMeta, StageMetaParseError>)
        requires
            selector_type_ok(decimal(stage_type as nat)),
        ensures
            meta_result(r) == match spec_get_selector_type(decimal(stage_type as nat)) {
                None => Err(StageMetaParseError::Invalid),
                Some(st) => Ok(spec_from_split_parsed(st, map_num as nat, stage_num as nat)),
            },
    {
        let mut code: Vec<char> = Vec::new();
        push_decimal(&mut code, stage_type as u64);
        Self::from_split_chars(&code, map_num, stage_num)
    }

    /// Catch-all method for parsing a selector.
    pub fn new(selector: &str) -> (r: Result<StageMeta, StageMetaParseError>)
        requires
            new_ok(selector@, false),
        ensures
            meta_result(r) == spec_new(selector@, false),
    {
        Self::new_digits(selector, false)
    }

    /// [`StageMeta::new`], with the reference reading limited to two-digit
    /// stage numbers where `two_digit_stage` is set.
    pub fn new_digits(selector: &str, two_digit_stage: bool) -> (r: Result<StageMeta, StageMetaParseError>)
        requires
            new_ok(selector@, two_digit_stage),
        ensures
            meta_result(r) == spec_new(selector@, two_digit_stage),
    {
        if let Ok(st) = Self::from_selector(selector) {
            return Ok(st);
        }
        if let Ok(st) = Self::from_file(selector) {
            return Ok(st);
        }
        if let Ok(st) = Self::from_ref_digits(selector, two_digit_stage) {
            return Ok(st);
        }
        Err(StageMetaParseError::Invalid)
    }
}

/// Digits of an EoC stage file name.
fn eoc_digits(f: &Vec<char>) -> (r: Option<Vec<char>>)
    ensures
        match r {
            Some(d) => eoc_file_digits(f@) == Some(d@),
            None => eoc_file_digits(f@) is None,
        },
{
    if f.len() != 11 {
        return None;
    }
    let head = subvec(f, 0, 5);
    let digits = subvec(f, 5, 7);
    let tail = subvec(f, 7, 11);
    assert(tail@ =~= f@.skip(7));
    if eq_str(&head, "stage") && all_decimal_exec(&digits) && eq_str(&tail, ".csv") {
        Some(digits)
    } else {
        None
    }
}

/// Executable [`other_main_rest`].
fn other_main_rest_exec(t: &Vec<char>, x: &str) -> (b: bool)
    ensures
        b == other_main_rest(t@, x@),
{
    let xs = chars_of(x);
    let n = xs.len();
    if !(has_prefix(t, x) && t.len() >= 6 && t.len() - 6 >= n) {
        return false;
    }
    let d = subvec(t, n, n + 2);
    let mid = subvec(t, n + 2, t.len() - 4);
    let no_newline = find_first(&mid, '\n').is_none();
    proof {
        crate::text::lemma_index_of(mid@, '\n');
    }
    all_decimal_exec(&d) && has_suffix(t, ".csv") && no_newline
}

/// Executable [`is_other_main_file`].
fn is_other_main(f: &Vec<char>) -> (b: bool)
    ensures
        b == is_other_main_file(f@),
{
    if !has_prefix(f, "stage") {
        return false;
    }
    proof {
        reveal_strlit("stage");
    }
    let t = subvec(f, 5, f.len());
    assert(t@ =~= f@.skip(5));
    other_main_rest_exec(&t, "W") || other_main_rest_exec(&t, "Space") || other_main_rest_exec(&t, "DM")
        || other_main_rest_exec(&t, "Z")
}

} // verus!
