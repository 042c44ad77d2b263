//! Laws of stage metadata: the stage file name of a stage parses back to
//! the same metadata.

use super::consts::{
    selector_type_ok, spec_get_selector_type, spec_stage_types, type_map_index, type_map_index_from, StageType,
};
use super::{eoc_file_digits, from_file_ok, main_selector_ok, spec_from_selector_main, z_map, is_other_main_file, spec_from_file, spec_from_split_parsed, MetaView, StageMetaParseError};
use crate::meta::stage::stage_types::data::any_fold_eq;
use crate::meta::stage::stage_types::roundtrip::{file_of, lemma_file_parts};
use crate::text::{
    decimal, fold_eq, has_char, is_ascii, lower_char, lower_eq, parse_usize, is_digit, lemma_padded_digits, lemma_padded_shape, padded, parse_nat, starts_with,
};
use vstd::prelude::*;

verus! {

/// Code of a stage type in its stage file names: the stage part of a split
/// code, else the code with an `R` before it where the type has one.
pub open spec fn file_code_of(st: StageType) -> Seq<char> {
    if has_char(st.code@, '|') {
        st.code@.skip(3)
    } else if st.has_r_prefix {
        seq!['R'] + st.code@
    } else {
        st.code@
    }
}

/// Lemma: `RN` is looked up as entry 0 of the selector map.
proof fn lemma_lookup_rn()
    ensures
        type_map_index(seq!['R', 'N']) == Some(0int),
{
    reveal_with_fuel(type_map_index_from, 2);
    reveal_with_fuel(any_fold_eq, 10);
    reveal_with_fuel(fold_eq, 4);
}

/// Lemma: `RS` is looked up as entry 1 of the selector map.
proof fn lemma_lookup_rs()
    ensures
        type_map_index(seq!['R', 'S']) == Some(1int),
{
    reveal_with_fuel(type_map_index_from, 3);
    reveal_with_fuel(any_fold_eq, 10);
    reveal_with_fuel(fold_eq, 4);
}

/// Lemma: `RC` is looked up as entry 2 of the selector map.
proof fn lemma_lookup_rc()
    ensures
        type_map_index(seq!['R', 'C']) == Some(2int),
{
    reveal_with_fuel(type_map_index_from, 4);
    reveal_with_fuel(any_fold_eq, 10);
    reveal_with_fuel(fold_eq, 4);
}

/// Lemma: `EX` is looked up as entry 3 of the selector map.
proof fn lemma_lookup_ex()
    ensures
        type_map_index(seq!['E', 'X']) == Some(3int),
{
    reveal_with_fuel(type_map_index_from, 5);
    reveal_with_fuel(any_fold_eq, 10);
    reveal_with_fuel(fold_eq, 4);
}

/// Lemma: `RT` is looked up as entry 4 of the selector map.
proof fn lemma_lookup_rt()
    ensures
        type_map_index(seq!['R', 'T']) == Some(4int),
{
    reveal_with_fuel(type_map_index_from, 6);
    reveal_with_fuel(any_fold_eq, 10);
    reveal_with_fuel(fold_eq, 4);
}

/// Lemma: `RV` is looked up as entry 5 of the selector map.
proof fn lemma_lookup_rv()
    ensures
        type_map_index(seq!['R', 'V']) == Some(5int),
{
    reveal_with_fuel(type_map_index_from, 7);
    reveal_with_fuel(any_fold_eq, 10);
    reveal_with_fuel(fold_eq, 4);
}

/// Lemma: `RR` is looked up as entry 6 of the selector map.
proof fn lemma_lookup_rr()
    ensures
        type_map_index(seq!['R', 'R']) == Some(6int),
{
    reveal_with_fuel(type_map_index_from, 8);
    reveal_with_fuel(any_fold_eq, 10);
    reveal_with_fuel(fold_eq, 4);
}

/// Lemma: `RM` is looked up as entry 7 of the selector map.
proof fn lemma_lookup_rm()
    ensures
        type_map_index(seq!['R', 'M']) == Some(7int),
{
    reveal_with_fuel(type_map_index_from, 9);
    reveal_with_fuel(any_fold_eq, 10);
    reveal_with_fuel(fold_eq, 4);
}

/// Lemma: `RNA` is looked up as entry 8 of the selector map.
proof fn lemma_lookup_rna()
    ensures
        type_map_index(seq!['R', 'N', 'A']) == Some(8int),
{
    reveal_with_fuel(type_map_index_from, 10);
    reveal_with_fuel(any_fold_eq, 10);
    reveal_with_fuel(fold_eq, 4);
}

/// Lemma: `RB` is looked up as entry 9 of the selector map.
proof fn lemma_lookup_rb()
    ensures
        type_map_index(seq!['R', 'B']) == Some(9int),
{
    reveal_with_fuel(type_map_index_from, 11);
    reveal_with_fuel(any_fold_eq, 10);
    reveal_with_fuel(fold_eq, 4);
}

/// Lemma: `RA` is looked up as entry 11 of the selector map.
proof fn lemma_lookup_ra()
    ensures
        type_map_index(seq!['R', 'A']) == Some(11int),
{
    reveal_with_fuel(type_map_index_from, 13);
    reveal_with_fuel(any_fold_eq, 10);
    reveal_with_fuel(fold_eq, 4);
}

/// Lemma: `RH` is looked up as entry 12 of the selector map.
proof fn lemma_lookup_rh()
    ensures
        type_map_index(seq!['R', 'H']) == Some(12int),
{
    reveal_with_fuel(type_map_index_from, 14);
    reveal_with_fuel(any_fold_eq, 10);
    reveal_with_fuel(fold_eq, 4);
}

/// Lemma: `RCA` is looked up as entry 13 of the selector map.
proof fn lemma_lookup_rca()
    ensures
        type_map_index(seq!['R', 'C', 'A']) == Some(13int),
{
    reveal_with_fuel(type_map_index_from, 15);
    reveal_with_fuel(any_fold_eq, 10);
    reveal_with_fuel(fold_eq, 4);
}

/// Lemma: `RQ` is looked up as entry 14 of the selector map.
proof fn lemma_lookup_rq()
    ensures
        type_map_index(seq!['R', 'Q']) == Some(14int),
{
    reveal_with_fuel(type_map_index_from, 16);
    reveal_with_fuel(any_fold_eq, 10);
    reveal_with_fuel(fold_eq, 4);
}

/// Lemma: `L` is looked up as entry 15 of the selector map.
proof fn lemma_lookup_l()
    ensures
        type_map_index(seq!['L']) == Some(15int),
{
    reveal_with_fuel(type_map_index_from, 17);
    reveal_with_fuel(any_fold_eq, 10);
    reveal_with_fuel(fold_eq, 4);
}

/// Lemma: `RND` is looked up as entry 16 of the selector map.
proof fn lemma_lookup_rnd()
    ensures
        type_map_index(seq!['R', 'N', 'D']) == Some(16int),
{
    reveal_with_fuel(type_map_index_from, 18);
    reveal_with_fuel(any_fold_eq, 10);
    reveal_with_fuel(fold_eq, 4);
}

/// Lemma: `RSR` is looked up as entry 17 of the selector map.
proof fn lemma_lookup_rsr()
    ensures
        type_map_index(seq!['R', 'S', 'R']) == Some(17int),
{
    reveal_with_fuel(type_map_index_from, 19);
    reveal_with_fuel(any_fold_eq, 10);
    reveal_with_fuel(fold_eq, 4);
}

/// Lemma: the file code of every stage type but the main chapters is a
/// selector of that very type, made of ASCII letters that start with `R`,
/// `E` or `L`.
proof fn lemma_file_code_type(i: int)
    requires
        0 <= i < 18,
        i != 3,
    ensures
        spec_get_selector_type(file_code_of(spec_stage_types()[i])) == Some(spec_stage_types()[i]),
        selector_type_ok(file_code_of(spec_stage_types()[i])),
        file_code_of(spec_stage_types()[i]).len() >= 1,
        forall|k: int|
            0 <= k < file_code_of(spec_stage_types()[i]).len() ==> {
                let ch = #[trigger] file_code_of(spec_stage_types()[i])[k];
                !is_digit(ch) && ch != '_' && is_ascii(ch)
            },
        file_code_of(spec_stage_types()[i])[0] == 'R' || file_code_of(spec_stage_types()[i])[0] == 'E'
            || file_code_of(spec_stage_types()[i])[0] == 'L',
{
    let st = spec_stage_types()[i];
    let code = file_code_of(st);
    if i == 0 {
        reveal_strlit("N");
        assert(!has_char(st.code@, '|'));
        assert(code =~= seq!['R', 'N']);
        lemma_lookup_rn();
    } else if i == 1 {
        reveal_strlit("S");
        assert(!has_char(st.code@, '|'));
        assert(code =~= seq!['R', 'S']);
        lemma_lookup_rs();
    } else if i == 2 {
        reveal_strlit("C");
        assert(!has_char(st.code@, '|'));
        assert(code =~= seq!['R', 'C']);
        lemma_lookup_rc();
    } else if i == 4 {
        reveal_strlit("RE|EX");
        assert(st.code@[2] == '|');
        assert(code =~= seq!['E', 'X']);
        lemma_lookup_ex();
    } else if i == 5 {
        reveal_strlit("T");
        assert(!has_char(st.code@, '|'));
        assert(code =~= seq!['R', 'T']);
        lemma_lookup_rt();
    } else if i == 6 {
        reveal_strlit("V");
        assert(!has_char(st.code@, '|'));
        assert(code =~= seq!['R', 'V']);
        lemma_lookup_rv();
    } else if i == 7 {
        reveal_strlit("R");
        assert(!has_char(st.code@, '|'));
        assert(code =~= seq!['R', 'R']);
        lemma_lookup_rr();
    } else if i == 8 {
        reveal_strlit("M");
        assert(!has_char(st.code@, '|'));
        assert(code =~= seq!['R', 'M']);
        lemma_lookup_rm();
    } else if i == 9 {
        reveal_strlit("NA");
        assert(!has_char(st.code@, '|'));
        assert(code =~= seq!['R', 'N', 'A']);
        lemma_lookup_rna();
    } else if i == 10 {
        reveal_strlit("B");
        assert(!has_char(st.code@, '|'));
        assert(code =~= seq!['R', 'B']);
        lemma_lookup_rb();
    } else if i == 11 {
        reveal_strlit("A");
        assert(!has_char(st.code@, '|'));
        assert(code =~= seq!['R', 'A']);
        lemma_lookup_ra();
    } else if i == 12 {
        reveal_strlit("H");
        assert(!has_char(st.code@, '|'));
        assert(code =~= seq!['R', 'H']);
        lemma_lookup_rh();
    } else if i == 13 {
        reveal_strlit("CA");
        assert(!has_char(st.code@, '|'));
        assert(code =~= seq!['R', 'C', 'A']);
        lemma_lookup_rca();
    } else if i == 14 {
        reveal_strlit("Q");
        assert(!has_char(st.code@, '|'));
        assert(code =~= seq!['R', 'Q']);
        lemma_lookup_rq();
    } else if i == 15 {
        reveal_strlit("L");
        assert(!has_char(st.code@, '|'));
        assert(code =~= seq!['L']);
        lemma_lookup_l();
    } else if i == 16 {
        reveal_strlit("ND");
        assert(!has_char(st.code@, '|'));
        assert(code =~= seq!['R', 'N', 'D']);
        lemma_lookup_rnd();
    } else {
        reveal_strlit("SR");
        assert(!has_char(st.code@, '|'));
        assert(code =~= seq!['R', 'S', 'R']);
        lemma_lookup_rsr();
    }
}

/// Law: the stage file name of the metadata that a stage type (any but the
/// main chapters), a map number and a stage number give is parsed back to
/// the same metadata.
#[verifier::rlimit(40)]
pub proof fn law_meta_file_roundtrip(i: int, map: nat, stage: nat)
    requires
        0 <= i < 18,
        i != 3,
        map <= usize::MAX,
        stage <= usize::MAX,
    ensures
        from_file_ok(spec_from_split_parsed(spec_stage_types()[i], map, stage).stage_file_name),
        spec_from_file(spec_from_split_parsed(spec_stage_types()[i], map, stage).stage_file_name)
            == Ok::<MetaView, StageMetaParseError>(spec_from_split_parsed(spec_stage_types()[i], map, stage)),
{
    let st = spec_stage_types()[i];
    let m = spec_from_split_parsed(st, map, stage);
    let f = m.stage_file_name;
    let code = file_code_of(st);
    let b = padded(map, 3);
    let c = padded(stage, 2);
    lemma_file_code_type(i);
    lemma_padded_digits(map, 3);
    lemma_padded_digits(stage, 2);
    lemma_padded_shape(map, 3);
    lemma_padded_shape(stage, 2);
    reveal_strlit("stage");
    reveal_strlit(".csv");
    if has_char(st.code@, '|') {
        assert(f =~= file_of(code, b, c));
    } else if st.has_r_prefix {
        assert(f =~= file_of(code, b, c));
    } else {
        assert(f =~= file_of(code, b, c));
    }
    lemma_file_parts(code, b, c);
    // Not the Filibuster file: the sixth character is that of the code.
    reveal_strlit("stageSpace09_Invasion_00.csv");
    assert(f[5] == code[0]);
    assert(f != "stageSpace09_Invasion_00.csv"@) by {
        assert("stageSpace09_Invasion_00.csv"@[5] == 'S');
    }
    // Not an EoC file: too long.
    assert(f.len() >= 16);
    assert(eoc_file_digits(f) is None);
    // Not another main chapter file: the code starts with none of their
    // letters.
    let t = f.skip(5);
    assert(t[0] == code[0]);
    reveal_strlit("W");
    reveal_strlit("Space");
    reveal_strlit("DM");
    reveal_strlit("Z");
    assert(!starts_with(t, "W"@)) by {
        if starts_with(t, "W"@) {
            assert(t.subrange(0, 1)[0] == t[0]);
        }
    }
    assert(!starts_with(t, "Space"@)) by {
        if starts_with(t, "Space"@) {
            assert(t.subrange(0, 5)[0] == t[0]);
        }
    }
    assert(!starts_with(t, "DM"@)) by {
        if starts_with(t, "DM"@) {
            assert(t.subrange(0, 2)[0] == t[0]);
        }
    }
    assert(!starts_with(t, "Z"@)) by {
        if starts_with(t, "Z"@) {
            assert(t.subrange(0, 1)[0] == t[0]);
        }
    }
    assert(!is_other_main_file(f));
    // It has an underscore, between the map and the stage numbers.
    assert(f[5 + code.len() as int + b.len() as int] == '_');
    assert(has_char(f, '_'));
    // The numbers read back.
    assert(is_digit(b[0]));
    assert(is_digit(c[0]));
    assert(parse_nat(b) == Some(map));
    assert(parse_nat(c) == Some(stage));
}

/// Map number of a parse result (-1 for an error).
pub open spec fn result_map(r: Result<MetaView, StageMetaParseError>) -> int {
    match r {
        Ok(m) => m.map_num as int,
        Err(_) => -1,
    }
}

/// A zombie outbreak selector `["z", chapter, stage]` with chapter `c` (1 to
/// 8).
pub open spec fn z_selector(sel: Seq<Seq<char>>, c: nat) -> bool {
    &&& sel.len() >= 3
    &&& sel[0] == "z"@
    &&& parse_usize(sel[1]) == Some(c as usize)
    &&& parse_usize(sel[2]) is Some
    &&& 1 <= c <= 8
}

/// Lemma: a zombie outbreak selector is read as one.
proof fn lemma_z_selector(sel: Seq<Seq<char>>, c: nat)
    requires
        z_selector(sel, c),
    ensures
        main_selector_ok(sel),
        spec_from_selector_main(sel) matches Ok(m) && m.type_num == 3 && m.stage_num == parse_usize(sel[2])->0
            && m.map_num == z_map(c as int)
            && m.map_file_name == "stageNormal"@ + decimal(((c - 1) / 3) as nat) + seq!['_'] + decimal(
            ((c - 1) % 3) as nat,
        ) + "_Z.csv"@,
{
    reveal_strlit("z");
    reveal_strlit("eoc");
    reveal_strlit("itf");
    reveal_strlit("w");
    reveal_strlit("cotc");
    reveal_strlit("space");
    reveal_strlit("aku");
    reveal_strlit("dm");
    reveal_strlit("filibuster");
    let k = sel[0];
    assert(lower_char(k[0]) == 'z');
    assert(lower_eq(k, "z"@));
    assert(!lower_eq(k, "w"@));
}

/// Law: the chapters of the zombie outbreaks (1-3 Empire of Cats, 4-6 Into
/// the Future, 7-8 Cats of the Cosmos) are main chapter maps in the order
/// of their chapters. Chapters 1 to 3 are the maps of the first three
/// chapters (0, 1 and 2); every outbreak chapter has a map of its own,
/// different from those of the Empire of Cats, Filibuster and Aku Realms
/// selectors; the Into the Future outbreaks lie between the Empire of Cats
/// map and the Cats of the Cosmos outbreaks, which are the maps whose
/// restrictions are filed in the outbreak range (22000 on); and the map
/// file names the outbreak chapter.
pub proof fn law_z_chapter_maps(sel: Seq<Seq<char>>, c: nat, sel2: Seq<Seq<char>>, c2: nat, st: Seq<char>)
    requires
        z_selector(sel, c),
        z_selector(sel2, c2),
    ensures
        main_selector_ok(sel),
        spec_from_selector_main(sel) is Ok,
        c <= 3 ==> result_map(spec_from_selector_main(sel)) == c - 1,
        c < c2 ==> result_map(spec_from_selector_main(sel)) < result_map(spec_from_selector_main(sel2)),
        parse_usize(st) is Some ==> result_map(spec_from_selector_main(sel)) != result_map(
            spec_from_selector_main(seq!["eoc"@, st]),
        ),
        result_map(spec_from_selector_main(sel)) != result_map(spec_from_selector_main(seq!["filibuster"@])),
        parse_usize(st) is Some ==> result_map(spec_from_selector_main(sel)) != result_map(
            spec_from_selector_main(seq!["aku"@, st]),
        ),
        4 <= c <= 6 ==> result_map(spec_from_selector_main(seq!["eoc"@, seq!['0']])) < result_map(
            spec_from_selector_main(sel),
        ),
        4 <= c <= 6 ==> result_map(spec_from_selector_main(sel)) < 15,
        c >= 7 <==> crate::stage::stage_data::spec_map_id(3, result_map(spec_from_selector_main(sel)) as nat)
            >= 22_000,
        spec_from_selector_main(sel)->Ok_0.map_file_name == "stageNormal"@ + decimal(((c - 1) / 3) as nat)
            + seq!['_'] + decimal(((c - 1) % 3) as nat) + "_Z.csv"@,
{
    lemma_z_selector(sel, c);
    lemma_z_selector(sel2, c2);
    reveal_strlit("eoc");
    reveal_strlit("itf");
    reveal_strlit("w");
    reveal_strlit("cotc");
    reveal_strlit("space");
    reveal_strlit("aku");
    reveal_strlit("dm");
    reveal_strlit("filibuster");
    assert(lower_eq("eoc"@, "eoc"@)) by {
        assert forall|i: int| 0 <= i < 3 implies lower_char(#[trigger] "eoc"@[i]) == "eoc"@[i] by {
            assert(i == 0 || i == 1 || i == 2);
        }
    }
    assert(lower_eq("filibuster"@, "filibuster"@)) by {
        assert forall|i: int| 0 <= i < 10 implies lower_char(#[trigger] "filibuster"@[i]) == "filibuster"@[i] by {}
    }
    assert(lower_eq("aku"@, "aku"@)) by {
        assert forall|i: int| 0 <= i < 3 implies lower_char(#[trigger] "aku"@[i]) == "aku"@[i] by {}
    }
    assert(!lower_eq("aku"@, "eoc"@)) by {
        assert(lower_char("aku"@[0]) == 'a');
    }
    assert(!lower_eq("filibuster"@, "eoc"@));
    assert(!lower_eq("aku"@, "itf"@));
    assert(!lower_eq("aku"@, "w"@));
    assert(!lower_eq("aku"@, "cotc"@));
    assert(!lower_eq("aku"@, "space"@));
    assert(!lower_eq("filibuster"@, "itf"@));
    assert(!lower_eq("filibuster"@, "w"@));
    assert(!lower_eq("filibuster"@, "cotc"@));
    assert(!lower_eq("filibuster"@, "space"@));
    assert(!lower_eq("filibuster"@, "aku"@));
    assert(!lower_eq("filibuster"@, "dm"@));
    assert(c == 1 || c == 2 || c == 3 || c == 4 || c == 5 || c == 6 || c == 7 || c == 8);
    assert(c2 == 1 || c2 == 2 || c2 == 3 || c2 == 4 || c2 == 5 || c2 == 6 || c2 == 7 || c2 == 8);
}

} // verus!
