//! Laws relating the parsers of stage identifiers to the formats that name
//! a stage: a selector, a battlecats-db reference and a data file name each
//! parse back to the stage they were made from.

use super::data::{
    any_fold_eq, lemma_first_match, lemma_number_code, lemma_stage_type_codes,
    raw_order, spec_matches, spec_stage_type,
};
use super::types::StageCodeType;
use super::parse::parse_map::{main_selector_map, map_selector_ok};
use super::parse::parse_stage::{
    csv_end, db_host, db_ref_match, db_replaced, db_url_match, file_begin, filibuster_file,
    parts_selector, spec_parse_stage_file, spec_parse_stage_ref, spec_parse_stage_selector,
    stage_file_ok, stage_file_parts, stage_ref_ok, stage_ref_parts,
};
use super::transform::transform_stage::{outbreak_file_stage, spec_stage_data_file, stage_data_file_ok};
use super::parse::{spec_is_single_map, spec_is_single_stage, spec_variant_from_code};
use crate::meta::stage::variant::{lemma_variant_num_roundtrip, StageVariant, StageVariantID};
use crate::text::{
    all_digits, decimal, digits_value, is_digit, lemma_decimal_digits, lemma_decimal_len,
    lemma_digits_no_space, lemma_padded_digits, lemma_padded_shape, lemma_parse_decimal,
    lemma_split_append, lemma_split_single, fold_eq, parse_usize, lower_char, padded, split_on,
    byte_skip, has_char, is_ascii, lemma_byte_skip_ascii, lemma_decimal_len_u32,
    lemma_index_of_last_append, lemma_parse_padded, starts_with,
};
use crate::decimal_digits::{is_decimal_number, lemma_ascii_decimal, lemma_non_decimal_prefix_append};
use vstd::prelude::*;

verus! {

/// Stage numbers that name a stage: single-stage variants only have stage 0
/// of map 0, single-map variants only map 0.
pub open spec fn is_valid_stage(v: StageVariantID, map: u32, stage: u32) -> bool {
    &&& spec_is_single_stage(v) ==> map == 0 && stage == 0
    &&& spec_is_single_map(v) ==> map == 0
}

/// Selector `"{variant number} {map} {stage}"` of a stage.
pub open spec fn selector_of(v: StageVariantID, map: u32, stage: u32) -> Seq<char> {
    decimal(v.spec_num() as nat) + seq![' '] + decimal(map as nat) + seq![' '] + decimal(stage as nat)
}

/// Law: the numeric selector `"{variant} {map} {stage}"` of a stage parses
/// back to that stage.
pub proof fn law_selector_roundtrip(v: StageVariantID, map: u32, stage: u32)
    requires
        is_valid_stage(v, map, stage),
    ensures
        map_selector_ok(selector_of(v, map, stage)),
        spec_parse_stage_selector(selector_of(v, map, stage)) == Ok::<(StageVariantID, int, int), super::parse::StageTypeParseError>((v, map as int, stage as int)),
{
    let a = decimal(v.spec_num() as nat);
    let b = decimal(map as nat);
    let c = decimal(stage as nat);
    lemma_decimal_digits(v.spec_num() as nat);
    lemma_decimal_digits(map as nat);
    lemma_decimal_digits(stage as nat);
    lemma_digits_no_space(a);
    lemma_digits_no_space(b);
    lemma_digits_no_space(c);
    lemma_split_single(a, ' ');
    lemma_split_append(a, ' ', b);
    lemma_split_append(a + seq![' '] + b, ' ', c);
    let s = selector_of(v, map, stage);
    assert(s == (a + seq![' '] + b) + seq![' '] + c);
    let pieces = split_on(s, ' ');
    assert(pieces =~= seq![a, b, c]);
    lemma_number_code(v);
    assert(spec_variant_from_code(a) == Some(v));
    lemma_parse_decimal(map as nat);
    lemma_parse_decimal(stage as nat);
    if v == StageVariant::MainChapters {
        reveal_with_fuel(decimal, 2);
        assert(a == seq!['3']);
        assert(lower_char(a[0]) == '3');
        assert(main_selector_map(a, map as int) == map as int);
    }
    assert(pieces.last() == c);
}

/// Reference `"s{variant:02}{map:03}-{stage + 1:02}"` of a stage.
pub open spec fn ref_of(v: StageVariantID, map: u32, stage: u32) -> Seq<char> {
    seq!['s'] + padded(v.spec_num() as nat, 2) + padded(map as nat, 3) + seq!['-'] + padded(
        stage as nat + 1,
        2,
    )
}

/// Law: the battlecats-db reference of a stage (maps below 1000, where the
/// map takes three digits) parses back to that stage.
pub proof fn law_ref_roundtrip(v: StageVariantID, map: u32, stage: u32)
    requires
        map < 1000,
        stage < u32::MAX,
    ensures
        stage_ref_ok(ref_of(v, map, stage)),
        spec_parse_stage_ref(ref_of(v, map, stage)) == Ok::<(StageVariantID, int, int), super::parse::StageTypeParseError>((v, map as int, stage as int)),
{
    let t = ref_of(v, map, stage);
    let pv = padded(v.spec_num() as nat, 2);
    let pm = padded(map as nat, 3);
    let ps = padded(stage as nat + 1, 2);
    lemma_variant_num_roundtrip(v);
    lemma_decimal_len(v.spec_num() as nat);
    lemma_decimal_len(map as nat);
    lemma_padded_shape(v.spec_num() as nat, 2);
    lemma_padded_shape(map as nat, 3);
    lemma_padded_shape(stage as nat + 1, 2);
    lemma_padded_digits(v.spec_num() as nat, 2);
    lemma_padded_digits(map as nat, 3);
    lemma_padded_digits(stage as nat + 1, 2);
    assert(pv.len() == 2);
    assert(pm.len() == 3);
    assert(t[0] == 's');
    assert(db_url_match(t) is None) by {
        if t.len() >= 33 {
            assert(t.subrange(0, 21)[0] == 's');
            assert(db_host()[0] == 'h');
        }
    }
    assert(db_ref_match(t) is None);
    assert(db_replaced(t) == t);
    assert(t.subrange(1, 3) =~= pv);
    assert(t.subrange(3, 6) =~= pm);
    assert(t.skip(7) =~= ps);
    assert(t[6] == '-');
    assert(all_digits(t.subrange(1, 6))) by {
        assert forall|i: int| 0 <= i < 5 implies is_digit(#[trigger] t.subrange(1, 6)[i]) by {
            if i < 2 {
                assert(t.subrange(1, 6)[i] == pv[i]);
            } else {
                assert(t.subrange(1, 6)[i] == pm[i - 2]);
            }
        }
    }
    assert(stage_ref_parts(t) == Some((v.spec_num() as nat, map as nat, stage as nat + 1)));
}

/// Code of a variant in its stage data file names.
pub open spec fn file_code(v: StageVariantID) -> Seq<char> {
    let st = spec_stage_type(v);
    match st.stage_code {
        StageCodeType::RPrefix => seq!['R'] + st.map_code->0@,
        StageCodeType::SameAsMap => st.map_code->0@,
        StageCodeType::Other(o) => o@,
        StageCodeType::Custom => Seq::<char>::empty(),
    }
}


/// Lemma: no variant but SoL matches its file code.
proof fn lemma_code_unique_so_l(u: StageVariantID)
    requires
        u != StageVariant::SoL,
    ensures
        !spec_matches(spec_stage_type(u), file_code(StageVariant::SoL)),
{
    reveal_strlit("N");
    reveal_strlit("S");
    reveal_strlit("C");
    reveal_strlit("RE");
    reveal_strlit("EX");
    reveal_strlit("T");
    reveal_strlit("V");
    reveal_strlit("R");
    reveal_strlit("M");
    reveal_strlit("NA");
    reveal_strlit("B");
    reveal_strlit("A");
    reveal_strlit("H");
    reveal_strlit("CA");
    reveal_strlit("DM");
    reveal_strlit("Q");
    reveal_strlit("L");
    reveal_strlit("ND");
    reveal_strlit("SR");
    reveal_strlit("G");
    reveal_with_fuel(any_fold_eq, 10);
    reveal_with_fuel(fold_eq, 4);
    reveal_with_fuel(decimal, 3);
    match u {
        StageVariant::SoL => {},
        StageVariant::Event => {},
        StageVariant::Collab => {},
        StageVariant::MainChapters => {},
        StageVariant::Extra => {},
        StageVariant::Dojo => {},
        StageVariant::Tower => {},
        StageVariant::RankingDojo => {},
        StageVariant::Challenge => {},
        StageVariant::UL => {},
        StageVariant::Catamin => {},
        StageVariant::EocOutbreak => {},
        StageVariant::ItfOutbreak => {},
        StageVariant::CotcOutbreak => {},
        StageVariant::Filibuster => {},
        StageVariant::Gauntlet => {},
        StageVariant::Enigma => {},
        StageVariant::CollabGauntlet => {},
        StageVariant::AkuRealms => {},
        StageVariant::Behemoth => {},
        StageVariant::Labyrinth => {},
        StageVariant::ZL => {},
        StageVariant::Colosseum => {},
        StageVariant::Championships => {},
    }
}

/// Lemma: no variant but Event matches its file code.
proof fn lemma_code_unique_event(u: StageVariantID)
    requires
        u != StageVariant::Event,
    ensures
        !spec_matches(spec_stage_type(u), file_code(StageVariant::Event)),
{
    reveal_strlit("N");
    reveal_strlit("S");
    reveal_strlit("C");
    reveal_strlit("RE");
    reveal_strlit("EX");
    reveal_strlit("T");
    reveal_strlit("V");
    reveal_strlit("R");
    reveal_strlit("M");
    reveal_strlit("NA");
    reveal_strlit("B");
    reveal_strlit("A");
    reveal_strlit("H");
    reveal_strlit("CA");
    reveal_strlit("DM");
    reveal_strlit("Q");
    reveal_strlit("L");
    reveal_strlit("ND");
    reveal_strlit("SR");
    reveal_strlit("G");
    reveal_with_fuel(any_fold_eq, 10);
    reveal_with_fuel(fold_eq, 4);
    reveal_with_fuel(decimal, 3);
    match u {
        StageVariant::SoL => {},
        StageVariant::Event => {},
        StageVariant::Collab => {},
        StageVariant::MainChapters => {},
        StageVariant::Extra => {},
        StageVariant::Dojo => {},
        StageVariant::Tower => {},
        StageVariant::RankingDojo => {},
        StageVariant::Challenge => {},
        StageVariant::UL => {},
        StageVariant::Catamin => {},
        StageVariant::EocOutbreak => {},
        StageVariant::ItfOutbreak => {},
        StageVariant::CotcOutbreak => {},
        StageVariant::Filibuster => {},
        StageVariant::Gauntlet => {},
        StageVariant::Enigma => {},
        StageVariant::CollabGauntlet => {},
        StageVariant::AkuRealms => {},
        StageVariant::Behemoth => {},
        StageVariant::Labyrinth => {},
        StageVariant::ZL => {},
        StageVariant::Colosseum => {},
        StageVariant::Championships => {},
    }
}

/// Lemma: no variant but Collab matches its file code.
proof fn lemma_code_unique_collab(u: StageVariantID)
    requires
        u != StageVariant::Collab,
    ensures
        !spec_matches(spec_stage_type(u), file_code(StageVariant::Collab)),
{
    reveal_strlit("N");
    reveal_strlit("S");
    reveal_strlit("C");
    reveal_strlit("RE");
    reveal_strlit("EX");
    reveal_strlit("T");
    reveal_strlit("V");
    reveal_strlit("R");
    reveal_strlit("M");
    reveal_strlit("NA");
    reveal_strlit("B");
    reveal_strlit("A");
    reveal_strlit("H");
    reveal_strlit("CA");
    reveal_strlit("DM");
    reveal_strlit("Q");
    reveal_strlit("L");
    reveal_strlit("ND");
    reveal_strlit("SR");
    reveal_strlit("G");
    reveal_with_fuel(any_fold_eq, 10);
    reveal_with_fuel(fold_eq, 4);
    reveal_with_fuel(decimal, 3);
    match u {
        StageVariant::SoL => {},
        StageVariant::Event => {},
        StageVariant::Collab => {},
        StageVariant::MainChapters => {},
        StageVariant::Extra => {},
        StageVariant::Dojo => {},
        StageVariant::Tower => {},
        StageVariant::RankingDojo => {},
        StageVariant::Challenge => {},
        StageVariant::UL => {},
        StageVariant::Catamin => {},
        StageVariant::EocOutbreak => {},
        StageVariant::ItfOutbreak => {},
        StageVariant::CotcOutbreak => {},
        StageVariant::Filibuster => {},
        StageVariant::Gauntlet => {},
        StageVariant::Enigma => {},
        StageVariant::CollabGauntlet => {},
        StageVariant::AkuRealms => {},
        StageVariant::Behemoth => {},
        StageVariant::Labyrinth => {},
        StageVariant::ZL => {},
        StageVariant::Colosseum => {},
        StageVariant::Championships => {},
    }
}

/// Lemma: no variant but Extra matches its file code.
proof fn lemma_code_unique_extra(u: StageVariantID)
    requires
        u != StageVariant::Extra,
    ensures
        !spec_matches(spec_stage_type(u), file_code(StageVariant::Extra)),
{
    reveal_strlit("N");
    reveal_strlit("S");
    reveal_strlit("C");
    reveal_strlit("RE");
    reveal_strlit("EX");
    reveal_strlit("T");
    reveal_strlit("V");
    reveal_strlit("R");
    reveal_strlit("M");
    reveal_strlit("NA");
    reveal_strlit("B");
    reveal_strlit("A");
    reveal_strlit("H");
    reveal_strlit("CA");
    reveal_strlit("DM");
    reveal_strlit("Q");
    reveal_strlit("L");
    reveal_strlit("ND");
    reveal_strlit("SR");
    reveal_strlit("G");
    reveal_with_fuel(any_fold_eq, 10);
    reveal_with_fuel(fold_eq, 4);
    reveal_with_fuel(decimal, 3);
    match u {
        StageVariant::SoL => {},
        StageVariant::Event => {},
        StageVariant::Collab => {},
        StageVariant::MainChapters => {},
        StageVariant::Extra => {},
        StageVariant::Dojo => {},
        StageVariant::Tower => {},
        StageVariant::RankingDojo => {},
        StageVariant::Challenge => {},
        StageVariant::UL => {},
        StageVariant::Catamin => {},
        StageVariant::EocOutbreak => {},
        StageVariant::ItfOutbreak => {},
        StageVariant::CotcOutbreak => {},
        StageVariant::Filibuster => {},
        StageVariant::Gauntlet => {},
        StageVariant::Enigma => {},
        StageVariant::CollabGauntlet => {},
        StageVariant::AkuRealms => {},
        StageVariant::Behemoth => {},
        StageVariant::Labyrinth => {},
        StageVariant::ZL => {},
        StageVariant::Colosseum => {},
        StageVariant::Championships => {},
    }
}

/// Lemma: no variant but Dojo matches its file code.
proof fn lemma_code_unique_dojo(u: StageVariantID)
    requires
        u != StageVariant::Dojo,
    ensures
        !spec_matches(spec_stage_type(u), file_code(StageVariant::Dojo)),
{
    reveal_strlit("N");
    reveal_strlit("S");
    reveal_strlit("C");
    reveal_strlit("RE");
    reveal_strlit("EX");
    reveal_strlit("T");
    reveal_strlit("V");
    reveal_strlit("R");
    reveal_strlit("M");
    reveal_strlit("NA");
    reveal_strlit("B");
    reveal_strlit("A");
    reveal_strlit("H");
    reveal_strlit("CA");
    reveal_strlit("DM");
    reveal_strlit("Q");
    reveal_strlit("L");
    reveal_strlit("ND");
    reveal_strlit("SR");
    reveal_strlit("G");
    reveal_with_fuel(any_fold_eq, 10);
    reveal_with_fuel(fold_eq, 4);
    reveal_with_fuel(decimal, 3);
    match u {
        StageVariant::SoL => {},
        StageVariant::Event => {},
        StageVariant::Collab => {},
        StageVariant::MainChapters => {},
        StageVariant::Extra => {},
        StageVariant::Dojo => {},
        StageVariant::Tower => {},
        StageVariant::RankingDojo => {},
        StageVariant::Challenge => {},
        StageVariant::UL => {},
        StageVariant::Catamin => {},
        StageVariant::EocOutbreak => {},
        StageVariant::ItfOutbreak => {},
        StageVariant::CotcOutbreak => {},
        StageVariant::Filibuster => {},
        StageVariant::Gauntlet => {},
        StageVariant::Enigma => {},
        StageVariant::CollabGauntlet => {},
        StageVariant::AkuRealms => {},
        StageVariant::Behemoth => {},
        StageVariant::Labyrinth => {},
        StageVariant::ZL => {},
        StageVariant::Colosseum => {},
        StageVariant::Championships => {},
    }
}

/// Lemma: no variant but Tower matches its file code.
proof fn lemma_code_unique_tower(u: StageVariantID)
    requires
        u != StageVariant::Tower,
    ensures
        !spec_matches(spec_stage_type(u), file_code(StageVariant::Tower)),
{
    reveal_strlit("N");
    reveal_strlit("S");
    reveal_strlit("C");
    reveal_strlit("RE");
    reveal_strlit("EX");
    reveal_strlit("T");
    reveal_strlit("V");
    reveal_strlit("R");
    reveal_strlit("M");
    reveal_strlit("NA");
    reveal_strlit("B");
    reveal_strlit("A");
    reveal_strlit("H");
    reveal_strlit("CA");
    reveal_strlit("DM");
    reveal_strlit("Q");
    reveal_strlit("L");
    reveal_strlit("ND");
    reveal_strlit("SR");
    reveal_strlit("G");
    reveal_with_fuel(any_fold_eq, 10);
    reveal_with_fuel(fold_eq, 4);
    reveal_with_fuel(decimal, 3);
    match u {
        StageVariant::SoL => {},
        StageVariant::Event => {},
        StageVariant::Collab => {},
        StageVariant::MainChapters => {},
        StageVariant::Extra => {},
        StageVariant::Dojo => {},
        StageVariant::Tower => {},
        StageVariant::RankingDojo => {},
        StageVariant::Challenge => {},
        StageVariant::UL => {},
        StageVariant::Catamin => {},
        StageVariant::EocOutbreak => {},
        StageVariant::ItfOutbreak => {},
        StageVariant::CotcOutbreak => {},
        StageVariant::Filibuster => {},
        StageVariant::Gauntlet => {},
        StageVariant::Enigma => {},
        StageVariant::CollabGauntlet => {},
        StageVariant::AkuRealms => {},
        StageVariant::Behemoth => {},
        StageVariant::Labyrinth => {},
        StageVariant::ZL => {},
        StageVariant::Colosseum => {},
        StageVariant::Championships => {},
    }
}

/// Lemma: no variant but RankingDojo matches its file code.
proof fn lemma_code_unique_ranking_dojo(u: StageVariantID)
    requires
        u != StageVariant::RankingDojo,
    ensures
        !spec_matches(spec_stage_type(u), file_code(StageVariant::RankingDojo)),
{
    reveal_strlit("N");
    reveal_strlit("S");
    reveal_strlit("C");
    reveal_strlit("RE");
    reveal_strlit("EX");
    reveal_strlit("T");
    reveal_strlit("V");
    reveal_strlit("R");
    reveal_strlit("M");
    reveal_strlit("NA");
    reveal_strlit("B");
    reveal_strlit("A");
    reveal_strlit("H");
    reveal_strlit("CA");
    reveal_strlit("DM");
    reveal_strlit("Q");
    reveal_strlit("L");
    reveal_strlit("ND");
    reveal_strlit("SR");
    reveal_strlit("G");
    reveal_with_fuel(any_fold_eq, 10);
    reveal_with_fuel(fold_eq, 4);
    reveal_with_fuel(decimal, 3);
    match u {
        StageVariant::SoL => {},
        StageVariant::Event => {},
        StageVariant::Collab => {},
        StageVariant::MainChapters => {},
        StageVariant::Extra => {},
        StageVariant::Dojo => {},
        StageVariant::Tower => {},
        StageVariant::RankingDojo => {},
        StageVariant::Challenge => {},
        StageVariant::UL => {},
        StageVariant::Catamin => {},
        StageVariant::EocOutbreak => {},
        StageVariant::ItfOutbreak => {},
        StageVariant::CotcOutbreak => {},
        StageVariant::Filibuster => {},
        StageVariant::Gauntlet => {},
        StageVariant::Enigma => {},
        StageVariant::CollabGauntlet => {},
        StageVariant::AkuRealms => {},
        StageVariant::Behemoth => {},
        StageVariant::Labyrinth => {},
        StageVariant::ZL => {},
        StageVariant::Colosseum => {},
        StageVariant::Championships => {},
    }
}

/// Lemma: no variant but Challenge matches its file code.
proof fn lemma_code_unique_challenge(u: StageVariantID)
    requires
        u != StageVariant::Challenge,
    ensures
        !spec_matches(spec_stage_type(u), file_code(StageVariant::Challenge)),
{
    reveal_strlit("N");
    reveal_strlit("S");
    reveal_strlit("C");
    reveal_strlit("RE");
    reveal_strlit("EX");
    reveal_strlit("T");
    reveal_strlit("V");
    reveal_strlit("R");
    reveal_strlit("M");
    reveal_strlit("NA");
    reveal_strlit("B");
    reveal_strlit("A");
    reveal_strlit("H");
    reveal_strlit("CA");
    reveal_strlit("DM");
    reveal_strlit("Q");
    reveal_strlit("L");
    reveal_strlit("ND");
    reveal_strlit("SR");
    reveal_strlit("G");
    reveal_with_fuel(any_fold_eq, 10);
    reveal_with_fuel(fold_eq, 4);
    reveal_with_fuel(decimal, 3);
    match u {
        StageVariant::SoL => {},
        StageVariant::Event => {},
        StageVariant::Collab => {},
        StageVariant::MainChapters => {},
        StageVariant::Extra => {},
        StageVariant::Dojo => {},
        StageVariant::Tower => {},
        StageVariant::RankingDojo => {},
        StageVariant::Challenge => {},
        StageVariant::UL => {},
        StageVariant::Catamin => {},
        StageVariant::EocOutbreak => {},
        StageVariant::ItfOutbreak => {},
        StageVariant::CotcOutbreak => {},
        StageVariant::Filibuster => {},
        StageVariant::Gauntlet => {},
        StageVariant::Enigma => {},
        StageVariant::CollabGauntlet => {},
        StageVariant::AkuRealms => {},
        StageVariant::Behemoth => {},
        StageVariant::Labyrinth => {},
        StageVariant::ZL => {},
        StageVariant::Colosseum => {},
        StageVariant::Championships => {},
    }
}

/// Lemma: no variant but UL matches its file code.
proof fn lemma_code_unique_u_l(u: StageVariantID)
    requires
        u != StageVariant::UL,
    ensures
        !spec_matches(spec_stage_type(u), file_code(StageVariant::UL)),
{
    reveal_strlit("N");
    reveal_strlit("S");
    reveal_strlit("C");
    reveal_strlit("RE");
    reveal_strlit("EX");
    reveal_strlit("T");
    reveal_strlit("V");
    reveal_strlit("R");
    reveal_strlit("M");
    reveal_strlit("NA");
    reveal_strlit("B");
    reveal_strlit("A");
    reveal_strlit("H");
    reveal_strlit("CA");
    reveal_strlit("DM");
    reveal_strlit("Q");
    reveal_strlit("L");
    reveal_strlit("ND");
    reveal_strlit("SR");
    reveal_strlit("G");
    reveal_with_fuel(any_fold_eq, 10);
    reveal_with_fuel(fold_eq, 4);
    reveal_with_fuel(decimal, 3);
    match u {
        StageVariant::SoL => {},
        StageVariant::Event => {},
        StageVariant::Collab => {},
        StageVariant::MainChapters => {},
        StageVariant::Extra => {},
        StageVariant::Dojo => {},
        StageVariant::Tower => {},
        StageVariant::RankingDojo => {},
        StageVariant::Challenge => {},
        StageVariant::UL => {},
        StageVariant::Catamin => {},
        StageVariant::EocOutbreak => {},
        StageVariant::ItfOutbreak => {},
        StageVariant::CotcOutbreak => {},
        StageVariant::Filibuster => {},
        StageVariant::Gauntlet => {},
        StageVariant::Enigma => {},
        StageVariant::CollabGauntlet => {},
        StageVariant::AkuRealms => {},
        StageVariant::Behemoth => {},
        StageVariant::Labyrinth => {},
        StageVariant::ZL => {},
        StageVariant::Colosseum => {},
        StageVariant::Championships => {},
    }
}

/// Lemma: no variant but Catamin matches its file code.
proof fn lemma_code_unique_catamin(u: StageVariantID)
    requires
        u != StageVariant::Catamin,
    ensures
        !spec_matches(spec_stage_type(u), file_code(StageVariant::Catamin)),
{
    reveal_strlit("N");
    reveal_strlit("S");
    reveal_strlit("C");
    reveal_strlit("RE");
    reveal_strlit("EX");
    reveal_strlit("T");
    reveal_strlit("V");
    reveal_strlit("R");
    reveal_strlit("M");
    reveal_strlit("NA");
    reveal_strlit("B");
    reveal_strlit("A");
    reveal_strlit("H");
    reveal_strlit("CA");
    reveal_strlit("DM");
    reveal_strlit("Q");
    reveal_strlit("L");
    reveal_strlit("ND");
    reveal_strlit("SR");
    reveal_strlit("G");
    reveal_with_fuel(any_fold_eq, 10);
    reveal_with_fuel(fold_eq, 4);
    reveal_with_fuel(decimal, 3);
    match u {
        StageVariant::SoL => {},
        StageVariant::Event => {},
        StageVariant::Collab => {},
        StageVariant::MainChapters => {},
        StageVariant::Extra => {},
        StageVariant::Dojo => {},
        StageVariant::Tower => {},
        StageVariant::RankingDojo => {},
        StageVariant::Challenge => {},
        StageVariant::UL => {},
        StageVariant::Catamin => {},
        StageVariant::EocOutbreak => {},
        StageVariant::ItfOutbreak => {},
        StageVariant::CotcOutbreak => {},
        StageVariant::Filibuster => {},
        StageVariant::Gauntlet => {},
        StageVariant::Enigma => {},
        StageVariant::CollabGauntlet => {},
        StageVariant::AkuRealms => {},
        StageVariant::Behemoth => {},
        StageVariant::Labyrinth => {},
        StageVariant::ZL => {},
        StageVariant::Colosseum => {},
        StageVariant::Championships => {},
    }
}

/// Lemma: no variant but Gauntlet matches its file code.
proof fn lemma_code_unique_gauntlet(u: StageVariantID)
    requires
        u != StageVariant::Gauntlet,
    ensures
        !spec_matches(spec_stage_type(u), file_code(StageVariant::Gauntlet)),
{
    reveal_strlit("N");
    reveal_strlit("S");
    reveal_strlit("C");
    reveal_strlit("RE");
    reveal_strlit("EX");
    reveal_strlit("T");
    reveal_strlit("V");
    reveal_strlit("R");
    reveal_strlit("M");
    reveal_strlit("NA");
    reveal_strlit("B");
    reveal_strlit("A");
    reveal_strlit("H");
    reveal_strlit("CA");
    reveal_strlit("DM");
    reveal_strlit("Q");
    reveal_strlit("L");
    reveal_strlit("ND");
    reveal_strlit("SR");
    reveal_strlit("G");
    reveal_with_fuel(any_fold_eq, 10);
    reveal_with_fuel(fold_eq, 4);
    reveal_with_fuel(decimal, 3);
    match u {
        StageVariant::SoL => {},
        StageVariant::Event => {},
        StageVariant::Collab => {},
        StageVariant::MainChapters => {},
        StageVariant::Extra => {},
        StageVariant::Dojo => {},
        StageVariant::Tower => {},
        StageVariant::RankingDojo => {},
        StageVariant::Challenge => {},
        StageVariant::UL => {},
        StageVariant::Catamin => {},
        StageVariant::EocOutbreak => {},
        StageVariant::ItfOutbreak => {},
        StageVariant::CotcOutbreak => {},
        StageVariant::Filibuster => {},
        StageVariant::Gauntlet => {},
        StageVariant::Enigma => {},
        StageVariant::CollabGauntlet => {},
        StageVariant::AkuRealms => {},
        StageVariant::Behemoth => {},
        StageVariant::Labyrinth => {},
        StageVariant::ZL => {},
        StageVariant::Colosseum => {},
        StageVariant::Championships => {},
    }
}

/// Lemma: no variant but Enigma matches its file code.
proof fn lemma_code_unique_enigma(u: StageVariantID)
    requires
        u != StageVariant::Enigma,
    ensures
        !spec_matches(spec_stage_type(u), file_code(StageVariant::Enigma)),
{
    reveal_strlit("N");
    reveal_strlit("S");
    reveal_strlit("C");
    reveal_strlit("RE");
    reveal_strlit("EX");
    reveal_strlit("T");
    reveal_strlit("V");
    reveal_strlit("R");
    reveal_strlit("M");
    reveal_strlit("NA");
    reveal_strlit("B");
    reveal_strlit("A");
    reveal_strlit("H");
    reveal_strlit("CA");
    reveal_strlit("DM");
    reveal_strlit("Q");
    reveal_strlit("L");
    reveal_strlit("ND");
    reveal_strlit("SR");
    reveal_strlit("G");
    reveal_with_fuel(any_fold_eq, 10);
    reveal_with_fuel(fold_eq, 4);
    reveal_with_fuel(decimal, 3);
    match u {
        StageVariant::SoL => {},
        StageVariant::Event => {},
        StageVariant::Collab => {},
        StageVariant::MainChapters => {},
        StageVariant::Extra => {},
        StageVariant::Dojo => {},
        StageVariant::Tower => {},
        StageVariant::RankingDojo => {},
        StageVariant::Challenge => {},
        StageVariant::UL => {},
        StageVariant::Catamin => {},
        StageVariant::EocOutbreak => {},
        StageVariant::ItfOutbreak => {},
        StageVariant::CotcOutbreak => {},
        StageVariant::Filibuster => {},
        StageVariant::Gauntlet => {},
        StageVariant::Enigma => {},
        StageVariant::CollabGauntlet => {},
        StageVariant::AkuRealms => {},
        StageVariant::Behemoth => {},
        StageVariant::Labyrinth => {},
        StageVariant::ZL => {},
        StageVariant::Colosseum => {},
        StageVariant::Championships => {},
    }
}

/// Lemma: no variant but CollabGauntlet matches its file code.
proof fn lemma_code_unique_collab_gauntlet(u: StageVariantID)
    requires
        u != StageVariant::CollabGauntlet,
    ensures
        !spec_matches(spec_stage_type(u), file_code(StageVariant::CollabGauntlet)),
{
    reveal_strlit("N");
    reveal_strlit("S");
    reveal_strlit("C");
    reveal_strlit("RE");
    reveal_strlit("EX");
    reveal_strlit("T");
    reveal_strlit("V");
    reveal_strlit("R");
    reveal_strlit("M");
    reveal_strlit("NA");
    reveal_strlit("B");
    reveal_strlit("A");
    reveal_strlit("H");
    reveal_strlit("CA");
    reveal_strlit("DM");
    reveal_strlit("Q");
    reveal_strlit("L");
    reveal_strlit("ND");
    reveal_strlit("SR");
    reveal_strlit("G");
    reveal_with_fuel(any_fold_eq, 10);
    reveal_with_fuel(fold_eq, 4);
    reveal_with_fuel(decimal, 3);
    match u {
        StageVariant::SoL => {},
        StageVariant::Event => {},
        StageVariant::Collab => {},
        StageVariant::MainChapters => {},
        StageVariant::Extra => {},
        StageVariant::Dojo => {},
        StageVariant::Tower => {},
        StageVariant::RankingDojo => {},
        StageVariant::Challenge => {},
        StageVariant::UL => {},
        StageVariant::Catamin => {},
        StageVariant::EocOutbreak => {},
        StageVariant::ItfOutbreak => {},
        StageVariant::CotcOutbreak => {},
        StageVariant::Filibuster => {},
        StageVariant::Gauntlet => {},
        StageVariant::Enigma => {},
        StageVariant::CollabGauntlet => {},
        StageVariant::AkuRealms => {},
        StageVariant::Behemoth => {},
        StageVariant::Labyrinth => {},
        StageVariant::ZL => {},
        StageVariant::Colosseum => {},
        StageVariant::Championships => {},
    }
}

/// Lemma: no variant but AkuRealms matches its file code.
proof fn lemma_code_unique_aku_realms(u: StageVariantID)
    requires
        u != StageVariant::AkuRealms,
    ensures
        !spec_matches(spec_stage_type(u), file_code(StageVariant::AkuRealms)),
{
    reveal_strlit("N");
    reveal_strlit("S");
    reveal_strlit("C");
    reveal_strlit("RE");
    reveal_strlit("EX");
    reveal_strlit("T");
    reveal_strlit("V");
    reveal_strlit("R");
    reveal_strlit("M");
    reveal_strlit("NA");
    reveal_strlit("B");
    reveal_strlit("A");
    reveal_strlit("H");
    reveal_strlit("CA");
    reveal_strlit("DM");
    reveal_strlit("Q");
    reveal_strlit("L");
    reveal_strlit("ND");
    reveal_strlit("SR");
    reveal_strlit("G");
    reveal_with_fuel(any_fold_eq, 10);
    reveal_with_fuel(fold_eq, 4);
    reveal_with_fuel(decimal, 3);
    match u {
        StageVariant::SoL => {},
        StageVariant::Event => {},
        StageVariant::Collab => {},
        StageVariant::MainChapters => {},
        StageVariant::Extra => {},
        StageVariant::Dojo => {},
        StageVariant::Tower => {},
        StageVariant::RankingDojo => {},
        StageVariant::Challenge => {},
        StageVariant::UL => {},
        StageVariant::Catamin => {},
        StageVariant::EocOutbreak => {},
        StageVariant::ItfOutbreak => {},
        StageVariant::CotcOutbreak => {},
        StageVariant::Filibuster => {},
        StageVariant::Gauntlet => {},
        StageVariant::Enigma => {},
        StageVariant::CollabGauntlet => {},
        StageVariant::AkuRealms => {},
        StageVariant::Behemoth => {},
        StageVariant::Labyrinth => {},
        StageVariant::ZL => {},
        StageVariant::Colosseum => {},
        StageVariant::Championships => {},
    }
}

/// Lemma: no variant but Behemoth matches its file code.
proof fn lemma_code_unique_behemoth(u: StageVariantID)
    requires
        u != StageVariant::Behemoth,
    ensures
        !spec_matches(spec_stage_type(u), file_code(StageVariant::Behemoth)),
{
    reveal_strlit("N");
    reveal_strlit("S");
    reveal_strlit("C");
    reveal_strlit("RE");
    reveal_strlit("EX");
    reveal_strlit("T");
    reveal_strlit("V");
    reveal_strlit("R");
    reveal_strlit("M");
    reveal_strlit("NA");
    reveal_strlit("B");
    reveal_strlit("A");
    reveal_strlit("H");
    reveal_strlit("CA");
    reveal_strlit("DM");
    reveal_strlit("Q");
    reveal_strlit("L");
    reveal_strlit("ND");
    reveal_strlit("SR");
    reveal_strlit("G");
    reveal_with_fuel(any_fold_eq, 10);
    reveal_with_fuel(fold_eq, 4);
    reveal_with_fuel(decimal, 3);
    match u {
        StageVariant::SoL => {},
        StageVariant::Event => {},
        StageVariant::Collab => {},
        StageVariant::MainChapters => {},
        StageVariant::Extra => {},
        StageVariant::Dojo => {},
        StageVariant::Tower => {},
        StageVariant::RankingDojo => {},
        StageVariant::Challenge => {},
        StageVariant::UL => {},
        StageVariant::Catamin => {},
        StageVariant::EocOutbreak => {},
        StageVariant::ItfOutbreak => {},
        StageVariant::CotcOutbreak => {},
        StageVariant::Filibuster => {},
        StageVariant::Gauntlet => {},
        StageVariant::Enigma => {},
        StageVariant::CollabGauntlet => {},
        StageVariant::AkuRealms => {},
        StageVariant::Behemoth => {},
        StageVariant::Labyrinth => {},
        StageVariant::ZL => {},
        StageVariant::Colosseum => {},
        StageVariant::Championships => {},
    }
}

/// Lemma: no variant but Labyrinth matches its file code.
proof fn lemma_code_unique_labyrinth(u: StageVariantID)
    requires
        u != StageVariant::Labyrinth,
    ensures
        !spec_matches(spec_stage_type(u), file_code(StageVariant::Labyrinth)),
{
    reveal_strlit("N");
    reveal_strlit("S");
    reveal_strlit("C");
    reveal_strlit("RE");
    reveal_strlit("EX");
    reveal_strlit("T");
    reveal_strlit("V");
    reveal_strlit("R");
    reveal_strlit("M");
    reveal_strlit("NA");
    reveal_strlit("B");
    reveal_strlit("A");
    reveal_strlit("H");
    reveal_strlit("CA");
    reveal_strlit("DM");
    reveal_strlit("Q");
    reveal_strlit("L");
    reveal_strlit("ND");
    reveal_strlit("SR");
    reveal_strlit("G");
    reveal_with_fuel(any_fold_eq, 10);
    reveal_with_fuel(fold_eq, 4);
    reveal_with_fuel(decimal, 3);
    match u {
        StageVariant::SoL => {},
        StageVariant::Event => {},
        StageVariant::Collab => {},
        StageVariant::MainChapters => {},
        StageVariant::Extra => {},
        StageVariant::Dojo => {},
        StageVariant::Tower => {},
        StageVariant::RankingDojo => {},
        StageVariant::Challenge => {},
        StageVariant::UL => {},
        StageVariant::Catamin => {},
        StageVariant::EocOutbreak => {},
        StageVariant::ItfOutbreak => {},
        StageVariant::CotcOutbreak => {},
        StageVariant::Filibuster => {},
        StageVariant::Gauntlet => {},
        StageVariant::Enigma => {},
        StageVariant::CollabGauntlet => {},
        StageVariant::AkuRealms => {},
        StageVariant::Behemoth => {},
        StageVariant::Labyrinth => {},
        StageVariant::ZL => {},
        StageVariant::Colosseum => {},
        StageVariant::Championships => {},
    }
}

/// Lemma: no variant but ZL matches its file code.
proof fn lemma_code_unique_z_l(u: StageVariantID)
    requires
        u != StageVariant::ZL,
    ensures
        !spec_matches(spec_stage_type(u), file_code(StageVariant::ZL)),
{
    reveal_strlit("N");
    reveal_strlit("S");
    reveal_strlit("C");
    reveal_strlit("RE");
    reveal_strlit("EX");
    reveal_strlit("T");
    reveal_strlit("V");
    reveal_strlit("R");
    reveal_strlit("M");
    reveal_strlit("NA");
    reveal_strlit("B");
    reveal_strlit("A");
    reveal_strlit("H");
    reveal_strlit("CA");
    reveal_strlit("DM");
    reveal_strlit("Q");
    reveal_strlit("L");
    reveal_strlit("ND");
    reveal_strlit("SR");
    reveal_strlit("G");
    reveal_with_fuel(any_fold_eq, 10);
    reveal_with_fuel(fold_eq, 4);
    reveal_with_fuel(decimal, 3);
    match u {
        StageVariant::SoL => {},
        StageVariant::Event => {},
        StageVariant::Collab => {},
        StageVariant::MainChapters => {},
        StageVariant::Extra => {},
        StageVariant::Dojo => {},
        StageVariant::Tower => {},
        StageVariant::RankingDojo => {},
        StageVariant::Challenge => {},
        StageVariant::UL => {},
        StageVariant::Catamin => {},
        StageVariant::EocOutbreak => {},
        StageVariant::ItfOutbreak => {},
        StageVariant::CotcOutbreak => {},
        StageVariant::Filibuster => {},
        StageVariant::Gauntlet => {},
        StageVariant::Enigma => {},
        StageVariant::CollabGauntlet => {},
        StageVariant::AkuRealms => {},
        StageVariant::Behemoth => {},
        StageVariant::Labyrinth => {},
        StageVariant::ZL => {},
        StageVariant::Colosseum => {},
        StageVariant::Championships => {},
    }
}

/// Lemma: no variant but Colosseum matches its file code.
proof fn lemma_code_unique_colosseum(u: StageVariantID)
    requires
        u != StageVariant::Colosseum,
    ensures
        !spec_matches(spec_stage_type(u), file_code(StageVariant::Colosseum)),
{
    reveal_strlit("N");
    reveal_strlit("S");
    reveal_strlit("C");
    reveal_strlit("RE");
    reveal_strlit("EX");
    reveal_strlit("T");
    reveal_strlit("V");
    reveal_strlit("R");
    reveal_strlit("M");
    reveal_strlit("NA");
    reveal_strlit("B");
    reveal_strlit("A");
    reveal_strlit("H");
    reveal_strlit("CA");
    reveal_strlit("DM");
    reveal_strlit("Q");
    reveal_strlit("L");
    reveal_strlit("ND");
    reveal_strlit("SR");
    reveal_strlit("G");
    reveal_with_fuel(any_fold_eq, 10);
    reveal_with_fuel(fold_eq, 4);
    reveal_with_fuel(decimal, 3);
    match u {
        StageVariant::SoL => {},
        StageVariant::Event => {},
        StageVariant::Collab => {},
        StageVariant::MainChapters => {},
        StageVariant::Extra => {},
        StageVariant::Dojo => {},
        StageVariant::Tower => {},
        StageVariant::RankingDojo => {},
        StageVariant::Challenge => {},
        StageVariant::UL => {},
        StageVariant::Catamin => {},
        StageVariant::EocOutbreak => {},
        StageVariant::ItfOutbreak => {},
        StageVariant::CotcOutbreak => {},
        StageVariant::Filibuster => {},
        StageVariant::Gauntlet => {},
        StageVariant::Enigma => {},
        StageVariant::CollabGauntlet => {},
        StageVariant::AkuRealms => {},
        StageVariant::Behemoth => {},
        StageVariant::Labyrinth => {},
        StageVariant::ZL => {},
        StageVariant::Colosseum => {},
        StageVariant::Championships => {},
    }
}

/// Lemma: no variant but Championships matches its file code.
proof fn lemma_code_unique_championships(u: StageVariantID)
    requires
        u != StageVariant::Championships,
    ensures
        !spec_matches(spec_stage_type(u), file_code(StageVariant::Championships)),
{
    reveal_strlit("N");
    reveal_strlit("S");
    reveal_strlit("C");
    reveal_strlit("RE");
    reveal_strlit("EX");
    reveal_strlit("T");
    reveal_strlit("V");
    reveal_strlit("R");
    reveal_strlit("M");
    reveal_strlit("NA");
    reveal_strlit("B");
    reveal_strlit("A");
    reveal_strlit("H");
    reveal_strlit("CA");
    reveal_strlit("DM");
    reveal_strlit("Q");
    reveal_strlit("L");
    reveal_strlit("ND");
    reveal_strlit("SR");
    reveal_strlit("G");
    reveal_with_fuel(any_fold_eq, 10);
    reveal_with_fuel(fold_eq, 4);
    reveal_with_fuel(decimal, 3);
    match u {
        StageVariant::SoL => {},
        StageVariant::Event => {},
        StageVariant::Collab => {},
        StageVariant::MainChapters => {},
        StageVariant::Extra => {},
        StageVariant::Dojo => {},
        StageVariant::Tower => {},
        StageVariant::RankingDojo => {},
        StageVariant::Challenge => {},
        StageVariant::UL => {},
        StageVariant::Catamin => {},
        StageVariant::EocOutbreak => {},
        StageVariant::ItfOutbreak => {},
        StageVariant::CotcOutbreak => {},
        StageVariant::Filibuster => {},
        StageVariant::Gauntlet => {},
        StageVariant::Enigma => {},
        StageVariant::CollabGauntlet => {},
        StageVariant::AkuRealms => {},
        StageVariant::Behemoth => {},
        StageVariant::Labyrinth => {},
        StageVariant::ZL => {},
        StageVariant::Colosseum => {},
        StageVariant::Championships => {},
    }
}

/// Lemma: a variant with a file code is the only one that matches it.
proof fn lemma_code_unique(v: StageVariantID, u: StageVariantID)
    requires
        u != v,
        spec_stage_type(v).stage_code != StageCodeType::Custom,
    ensures
        !spec_matches(spec_stage_type(u), file_code(v)),
{
    match v {
        StageVariant::SoL => lemma_code_unique_so_l(u),
        StageVariant::Event => lemma_code_unique_event(u),
        StageVariant::Collab => lemma_code_unique_collab(u),
        StageVariant::MainChapters => {},
        StageVariant::Extra => lemma_code_unique_extra(u),
        StageVariant::Dojo => lemma_code_unique_dojo(u),
        StageVariant::Tower => lemma_code_unique_tower(u),
        StageVariant::RankingDojo => lemma_code_unique_ranking_dojo(u),
        StageVariant::Challenge => lemma_code_unique_challenge(u),
        StageVariant::UL => lemma_code_unique_u_l(u),
        StageVariant::Catamin => lemma_code_unique_catamin(u),
        StageVariant::EocOutbreak => {},
        StageVariant::ItfOutbreak => {},
        StageVariant::CotcOutbreak => {},
        StageVariant::Filibuster => {},
        StageVariant::Gauntlet => lemma_code_unique_gauntlet(u),
        StageVariant::Enigma => lemma_code_unique_enigma(u),
        StageVariant::CollabGauntlet => lemma_code_unique_collab_gauntlet(u),
        StageVariant::AkuRealms => lemma_code_unique_aku_realms(u),
        StageVariant::Behemoth => lemma_code_unique_behemoth(u),
        StageVariant::Labyrinth => lemma_code_unique_labyrinth(u),
        StageVariant::ZL => lemma_code_unique_z_l(u),
        StageVariant::Colosseum => lemma_code_unique_colosseum(u),
        StageVariant::Championships => lemma_code_unique_championships(u),
    }
}

/// Lemma: the file code of a variant with one is a nonempty run of ASCII
/// capitals, none of the codes with their own file formats, and one of the
/// variant's aliases.
proof fn lemma_code_facts(v: StageVariantID)
    requires
        spec_stage_type(v).stage_code != StageCodeType::Custom,
    ensures
        file_code(v).len() >= 1,
        forall|i: int| 0 <= i < file_code(v).len() ==> 'A' <= #[trigger] file_code(v)[i] && file_code(v)[i] <= 'Z',
        file_code(v)[0] != 'S',
        file_code(v).len() != 1 || (file_code(v)[0] != 'W' && file_code(v)[0] != 'Z'),
        spec_matches(spec_stage_type(v), file_code(v)),
{
    reveal_strlit("N");
    reveal_strlit("S");
    reveal_strlit("C");
    reveal_strlit("RE");
    reveal_strlit("EX");
    reveal_strlit("T");
    reveal_strlit("V");
    reveal_strlit("R");
    reveal_strlit("M");
    reveal_strlit("NA");
    reveal_strlit("B");
    reveal_strlit("A");
    reveal_strlit("H");
    reveal_strlit("CA");
    reveal_strlit("DM");
    reveal_strlit("Q");
    reveal_strlit("L");
    reveal_strlit("ND");
    reveal_strlit("SR");
    reveal_strlit("G");
    reveal_with_fuel(any_fold_eq, 10);
    reveal_with_fuel(fold_eq, 4);
    match v {
        StageVariant::SoL => {},
        StageVariant::Event => {},
        StageVariant::Collab => {},
        StageVariant::MainChapters => {},
        StageVariant::Extra => {},
        StageVariant::Dojo => {},
        StageVariant::Tower => {},
        StageVariant::RankingDojo => {},
        StageVariant::Challenge => {},
        StageVariant::UL => {},
        StageVariant::Catamin => {},
        StageVariant::EocOutbreak => {},
        StageVariant::ItfOutbreak => {},
        StageVariant::CotcOutbreak => {},
        StageVariant::Filibuster => {},
        StageVariant::Gauntlet => {},
        StageVariant::Enigma => {},
        StageVariant::CollabGauntlet => {},
        StageVariant::AkuRealms => {},
        StageVariant::Behemoth => {},
        StageVariant::Labyrinth => {},
        StageVariant::ZL => {},
        StageVariant::Colosseum => {},
        StageVariant::Championships => {},
    }
}

/// Data file name made of the given code, map digits and stage digits.
pub open spec fn file_of(a: Seq<char>, b: Seq<char>, c: Seq<char>) -> Seq<char> {
    file_begin() + a + b + seq!['_'] + c + csv_end()
}

/// Lemma: a file name made of a digit-free code without underscores and two
/// digit strings splits back into them.
pub proof fn lemma_file_parts(a: Seq<char>, b: Seq<char>, c: Seq<char>)
    requires
        a.len() >= 1,
        forall|i: int| 0 <= i < a.len() ==> !is_digit(#[trigger] a[i]) && a[i] != '_' && is_ascii(a[i]),
        b.len() >= 1,
        all_digits(b),
        all_digits(c),
    ensures
        starts_with(file_of(a, b, c), file_begin()),
        byte_skip(file_of(a, b, c), 5) == Some(file_of(a, b, c).skip(5)),
        file_of(a, b, c).skip(5)[0] == a[0],
        file_of(a, b, c).len() > 5,
        stage_file_parts(file_of(a, b, c)) == Some((a, b, c)),
{
    let f = file_of(a, b, c);
    let rest = a + b + seq!['_'] + c + csv_end();
    assert(f =~= file_begin() + rest);
    assert(f.subrange(0, 5) =~= file_begin());
    assert forall|i: int| 0 <= i < file_begin().len() implies is_ascii(#[trigger] file_begin()[i]) by {}
    lemma_byte_skip_ascii(file_begin(), rest);
    assert(f.skip(5) =~= rest);
    assert(f.subrange(f.len() - 4, f.len() as int) =~= csv_end());
    let x = f.subrange(5, f.len() - 4);
    assert(x =~= (a + b) + seq!['_'] + c);
    assert(!has_char(c, '_')) by {
        if has_char(c, '_') {
            let k = choose|k: int| 0 <= k < c.len() && c[k] == '_';
            assert(is_digit(c[k]));
        }
    }
    lemma_index_of_last_append(a + b, '_', c);
    let k = (a + b).len() as int;
    assert(x.subrange(0, k) =~= a + b);
    assert(x.subrange(k + 1, x.len() as int) =~= c);
    assert(is_digit(b[0]));
    assert forall|i: int| 0 <= i < a.len() implies !is_decimal_number(#[trigger] a[i]) by {
        assert(is_ascii(a[i]));
        lemma_ascii_decimal(a[i]);
    }
    lemma_non_decimal_prefix_append(a, b);
    assert((a + b).subrange(0, a.len() as int) =~= a);
    assert((a + b).subrange(a.len() as int, (a + b).len() as int) =~= b);
}

/// Stages whose data file name parses back to them: valid stages, where
/// main chapters are the first chapter (stages below 100, the file holding
/// two digits) or the chapters of maps 3 to 8, outbreaks have maps 0 to 2,
/// and the Empire of Cats moon stages stored as 49 and 50 are left out
/// (their files name stage 47 as well).
pub open spec fn file_roundtrip_stage(v: StageVariantID, map: u32, stage: u32) -> bool {
    &&& is_valid_stage(v, map, stage)
    &&& v == StageVariant::MainChapters ==> ((map == 0 && stage < 100) || (3 <= map && map <= 8))
    &&& v.spec_is_outbreak() ==> map < 3
    &&& v == StageVariant::EocOutbreak ==> !((map == 1 && stage == 49) || (map == 2 && stage == 50))
}

/// The selector made from the parts of the data file name of a stage of a
/// variant with a file code names the stage.
proof fn lemma_coded_selector(v: StageVariantID, map: u32, stage: u32)
    requires
        file_roundtrip_stage(v, map, stage),
        spec_stage_type(v).stage_code != StageCodeType::Custom,
    ensures
        map_selector_ok(parts_selector(file_code(v), padded(map as nat, 3), padded(stage as nat, 2))),
        spec_parse_stage_selector(parts_selector(file_code(v), padded(map as nat, 3), padded(stage as nat, 2)))
            == Ok::<(StageVariantID, int, int), super::parse::StageTypeParseError>((v, map as int, stage as int)),
{
    let a = file_code(v);
    let b = padded(map as nat, 3);
    let c = padded(stage as nat, 2);
    lemma_code_facts(v);
    lemma_padded_digits(map as nat, 3);
    lemma_padded_digits(stage as nat, 2);
    let sel = parts_selector(a, b, c);
    assert(!has_char(a, ' ')) by {
        if has_char(a, ' ') {
            let k = choose|k: int| 0 <= k < a.len() && a[k] == ' ';
            assert('A' <= a[k]);
        }
    }
    lemma_digits_no_space(b);
    lemma_digits_no_space(c);
    lemma_split_single(a, ' ');
    lemma_split_append(a, ' ', b);
    lemma_split_append(a + seq![' '] + b, ' ', c);
    assert(split_on(sel, ' ') =~= seq![a, b, c]);
    crate::meta::stage::variant::lemma_all_contains(v);
    assert forall|u: StageVariantID| #[trigger] raw_order().contains(u) && u != v implies !spec_matches(
        spec_stage_type(u),
        a,
    ) by {
        lemma_code_unique(v, u);
    }
    lemma_first_match(raw_order(), a, v);
    assert(spec_variant_from_code(a) == Some(v));
    lemma_parse_padded(map as nat, 3);
    lemma_parse_padded(stage as nat, 2);
    assert(split_on(sel, ' ').last() == c);
}

/// The data file name of a stage of a variant with a file code is made of
/// the file code, the map and the stage, and splits back into them.
#[verifier::rlimit(40)]
proof fn lemma_coded_file(v: StageVariantID, map: u32, stage: u32)
    requires
        spec_stage_type(v).stage_code != StageCodeType::Custom,
    ensures
        spec_stage_data_file(v, map, stage) == file_of(file_code(v), padded(map as nat, 3), padded(stage as nat, 2)),
        stage_file_parts(spec_stage_data_file(v, map, stage)) == Some((file_code(v), padded(map as nat, 3), padded(stage as nat, 2))),
        starts_with(spec_stage_data_file(v, map, stage), file_begin()),
        byte_skip(spec_stage_data_file(v, map, stage), 5) == Some(spec_stage_data_file(v, map, stage).skip(5)),
        spec_stage_data_file(v, map, stage).len() > 5,
        !is_digit(spec_stage_data_file(v, map, stage).skip(5)[0]),
        spec_stage_data_file(v, map, stage) != filibuster_file(),
        file_code(v) != seq!['W'],
        file_code(v) != seq!['Z'],
        file_code(v) != seq!['S', 'p', 'a', 'c', 'e'],
{
    reveal_strlit("stage");
    reveal_strlit(".csv");
    assert("stage"@ =~= file_begin());
    assert(".csv"@ =~= csv_end());
    let f = spec_stage_data_file(v, map, stage);
    lemma_stage_type_codes(v);
    let a = file_code(v);
    let b = padded(map as nat, 3);
    let c = padded(stage as nat, 2);
    lemma_code_facts(v);
    lemma_padded_digits(map as nat, 3);
    lemma_padded_digits(stage as nat, 2);
    assert forall|i: int| 0 <= i < a.len() implies !is_digit(#[trigger] a[i]) && a[i] != '_' && is_ascii(a[i]) by {
        assert('A' <= a[i] && a[i] <= 'Z');
    }
    assert(f =~= file_of(a, b, c));
    lemma_file_parts(a, b, c);
    assert(f[5] == a[0]);
    assert(f != filibuster_file()) by {
        assert(filibuster_file()[5] == 'S');
    }
    assert(!is_digit(a[0])) by {
        assert('A' <= a[0] && a[0] <= 'Z');
    }
    assert(a != seq!['W'] && a != seq!['Z'] && a != seq!['S', 'p', 'a', 'c', 'e']) by {
        if a == seq!['W'] || a == seq!['Z'] || a == seq!['S', 'p', 'a', 'c', 'e'] {
            assert(a[0] == 'W' || a[0] == 'Z' || a[0] == 'S');
        }
    }
}

/// The data file name of a stage of a variant with a file code parses back
/// to the stage.
proof fn lemma_file_roundtrip_coded(v: StageVariantID, map: u32, stage: u32)
    requires
        file_roundtrip_stage(v, map, stage),
        spec_stage_type(v).stage_code != StageCodeType::Custom,
    ensures
        stage_file_ok(spec_stage_data_file(v, map, stage)),
        spec_parse_stage_file(spec_stage_data_file(v, map, stage)) == Ok::<(StageVariantID, int, int), super::parse::StageTypeParseError>((v, map as int, stage as int)),
{
    lemma_coded_file(v, map, stage);
    lemma_coded_selector(v, map, stage);
}

/// The data file name of a stage of the first main chapter parses back to
/// the stage.
proof fn lemma_file_roundtrip_main_first(stage: u32)
    requires
        stage < 100,
    ensures
        stage_file_ok(spec_stage_data_file(StageVariant::MainChapters, 0, stage)),
        spec_parse_stage_file(spec_stage_data_file(StageVariant::MainChapters, 0, stage)) == Ok::<(StageVariantID, int, int), super::parse::StageTypeParseError>((StageVariant::MainChapters, 0, stage as int)),
{
    reveal_strlit("stage");
    reveal_strlit(".csv");
    reveal_strlit("stageSpace09_Invasion_00.csv");
    assert("stage"@ =~= file_begin());
    assert(".csv"@ =~= csv_end());
    assert("stageSpace09_Invasion_00.csv"@ =~= filibuster_file());
    let f = spec_stage_data_file(StageVariant::MainChapters, 0, stage);
    lemma_padded_digits(stage as nat, 2);
    lemma_decimal_len(stage as nat);
    lemma_padded_shape(stage as nat, 2);
    let c = padded(stage as nat, 2);
    assert(c.len() == 2);
    assert(f =~= file_begin() + (c + csv_end()));
    assert forall|i: int| 0 <= i < file_begin().len() implies is_ascii(#[trigger] file_begin()[i]) by {}
    lemma_byte_skip_ascii(file_begin(), c + csv_end());
    let rem = c + csv_end();
    assert(rem.subrange(0, 2) =~= c);
    assert(is_digit(rem[0]));
    assert(is_digit(rem[1]));
    lemma_parse_padded(stage as nat, 2);
    assert(f.subrange(0, 5) =~= file_begin());
    assert(f.subrange(f.len() - 4, f.len() as int) =~= csv_end());
    assert(f != filibuster_file()) by {
        assert(f[5] == c[0]);
        assert(filibuster_file()[5] == 'S');
    }
}

/// The data file name of a stage of a later main chapter parses back to
/// the stage.
proof fn lemma_file_roundtrip_main_later(map: u32, stage: u32)
    requires
        3 <= map <= 8,
    ensures
        stage_file_ok(spec_stage_data_file(StageVariant::MainChapters, map, stage)),
        spec_parse_stage_file(spec_stage_data_file(StageVariant::MainChapters, map, stage)) == Ok::<(StageVariantID, int, int), super::parse::StageTypeParseError>((StageVariant::MainChapters, map as int, stage as int)),
{
    reveal_strlit("stage");
    reveal_strlit(".csv");
    reveal_strlit("stageSpace09_Invasion_00.csv");
    assert("stage"@ =~= file_begin());
    assert(".csv"@ =~= csv_end());
    assert("stageSpace09_Invasion_00.csv"@ =~= filibuster_file());
    reveal_strlit("stageW");
    reveal_strlit("stageSpace");
    let f = spec_stage_data_file(StageVariant::MainChapters, map, stage);
    lemma_padded_digits(stage as nat, 2);
    let b = padded((map + 1) as nat, 2);
    let c = padded(stage as nat, 2);
    lemma_padded_digits((map + 1) as nat, 2);
    lemma_parse_padded((map + 1) as nat, 2);
    lemma_parse_padded(stage as nat, 2);
    if map <= 5 {
        let a = seq!['W'];
        assert("stageW"@ =~= file_begin() + a);
        assert(f =~= file_of(a, b, c));
        lemma_file_parts(a, b, c);
        assert(f != filibuster_file()) by {
            assert(f[5] == 'W');
            assert(filibuster_file()[5] == 'S');
        }
    } else {
        let a = seq!['S', 'p', 'a', 'c', 'e'];
        assert("stageSpace"@ =~= file_begin() + a);
        assert(f =~= file_of(a, b, c));
        lemma_file_parts(a, b, c);
        assert(f != filibuster_file()) by {
            lemma_decimal_len((map + 1) as nat);
            lemma_padded_shape((map + 1) as nat, 2);
            lemma_decimal_len_u32(stage as nat);
            lemma_padded_shape(stage as nat, 2);
            assert(f.len() <= 27);
        }
    }
}

/// The data file name of an outbreak stage parses back to the stage.
proof fn lemma_file_roundtrip_outbreak(v: StageVariantID, map: u32, stage: u32)
    requires
        file_roundtrip_stage(v, map, stage),
        v.spec_is_outbreak(),
    ensures
        stage_data_file_ok(v, map),
        stage_file_ok(spec_stage_data_file(v, map, stage)),
        spec_parse_stage_file(spec_stage_data_file(v, map, stage)) == Ok::<(StageVariantID, int, int), super::parse::StageTypeParseError>((v, map as int, stage as int)),
{
    reveal_strlit("stage");
    reveal_strlit(".csv");
    reveal_strlit("stageSpace09_Invasion_00.csv");
    assert("stage"@ =~= file_begin());
    assert(".csv"@ =~= csv_end());
    assert("stageSpace09_Invasion_00.csv"@ =~= filibuster_file());
    reveal_strlit("stageZ");
    let f = spec_stage_data_file(v, map, stage);
    lemma_padded_digits(stage as nat, 2);
    let zmap: int = if v == StageVariant::EocOutbreak { map as int } else if v == StageVariant::ItfOutbreak { map + 4 } else { map + 7 };
    let zstage: int = if v == StageVariant::EocOutbreak { outbreak_file_stage(map as int, stage as int) } else { stage as int };
    let a = seq!['Z'];
    let b = padded(zmap as nat, 2);
    let c = padded(zstage as nat, 2);
    lemma_padded_digits(zmap as nat, 2);
    lemma_padded_digits(zstage as nat, 2);
    lemma_parse_padded(zmap as nat, 2);
    lemma_parse_padded(zstage as nat, 2);
    assert("stageZ"@ =~= file_begin() + a);
    assert(f =~= file_of(a, b, c));
    lemma_file_parts(a, b, c);
    assert(f != filibuster_file()) by {
        assert(f[5] == 'Z');
        assert(filibuster_file()[5] == 'S');
    }
}

/// Law: the data file name of a stage parses back to that stage.
pub proof fn law_file_roundtrip(v: StageVariantID, map: u32, stage: u32)
    requires
        file_roundtrip_stage(v, map, stage),
    ensures
        stage_data_file_ok(v, map),
        stage_file_ok(spec_stage_data_file(v, map, stage)),
        spec_parse_stage_file(spec_stage_data_file(v, map, stage)) == Ok::<(StageVariantID, int, int), super::parse::StageTypeParseError>((v, map as int, stage as int)),
{
    lemma_stage_type_codes(v);
    if spec_stage_type(v).stage_code != StageCodeType::Custom {
        lemma_file_roundtrip_coded(v, map, stage);
    } else if v == StageVariant::Filibuster {
        reveal_strlit("stageSpace09_Invasion_00.csv");
        assert("stageSpace09_Invasion_00.csv"@ =~= filibuster_file());
        assert(filibuster_file().subrange(0, 5) =~= file_begin());
        assert(filibuster_file().subrange(filibuster_file().len() - 4, filibuster_file().len() as int) =~= csv_end());
    } else if v == StageVariant::MainChapters {
        if map == 0 {
            lemma_file_roundtrip_main_first(stage);
        } else {
            lemma_file_roundtrip_main_later(map, stage);
        }
    } else {
        lemma_file_roundtrip_outbreak(v, map, stage);
    }
}

/// Stages whose data file name parses to a stage with the same data file
/// name: valid stages, where main chapters are the first three chapters
/// (stages below 100) or the chapters of maps 3 to 8, and outbreaks have
/// maps 0 to 2.
pub open spec fn file_name_roundtrip_stage(v: StageVariantID, map: u32, stage: u32) -> bool {
    &&& is_valid_stage(v, map, stage)
    &&& v == StageVariant::MainChapters ==> ((map <= 2 && stage < 100) || (3 <= map && map <= 8))
    &&& v.spec_is_outbreak() ==> map < 3
}

/// Law: the data file name of a stage parses to a stage whose data file
/// name is the same. The first three main chapters share their files, and
/// the moon stages of the second and third Empire of Cats outbreaks are
/// stored under two numbers, so the stage parsed back is not always the
/// one the name was made from, but it always names the same file.
pub proof fn law_file_name_roundtrip(v: StageVariantID, map: u32, stage: u32)
    requires
        file_name_roundtrip_stage(v, map, stage),
    ensures
        stage_file_ok(spec_stage_data_file(v, map, stage)),
        spec_parse_stage_file(spec_stage_data_file(v, map, stage)) matches Ok((v2, m2, s2))
            && 0 <= m2 <= u32::MAX && 0 <= s2 <= u32::MAX
            && spec_stage_data_file(v2, m2 as u32, s2 as u32) == spec_stage_data_file(v, map, stage),
{
    if file_roundtrip_stage(v, map, stage) {
        law_file_roundtrip(v, map, stage);
    } else if v == StageVariant::MainChapters {
        lemma_stage_type_codes(v);
        assert(spec_stage_data_file(v, map, stage) == spec_stage_data_file(v, 0, stage));
        law_file_roundtrip(v, 0, stage);
    } else {
        lemma_stage_type_codes(v);
        assert(v == StageVariant::EocOutbreak);
        assert(spec_stage_data_file(v, map, stage) == spec_stage_data_file(v, map, 47));
        law_file_roundtrip(v, map, 47);
    }
}

/// Lemma: two ASCII digits read as a number below 100.
pub proof fn lemma_parse_two_digits(d: Seq<char>)
    requires
        d.len() == 2,
        all_digits(d),
    ensures
        parse_usize(d) == Some(digits_value(d) as usize),
        digits_value(d) < 100,
{
    reveal_with_fuel(digits_value, 3);
    assert(is_digit(d[0]));
}

} // verus!
