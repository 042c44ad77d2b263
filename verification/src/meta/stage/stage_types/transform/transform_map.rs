//! Transform [`MapID`] data into various formats.

use crate::meta::stage::map_id::{MainType, MapID};
use crate::meta::stage::stage_types::data::{get_stage_type, spec_stage_type};
use crate::meta::stage::stage_types::types::StageCodeType;
use crate::meta::stage::variant::{StageVariant, StageVariantID};
use crate::text::{chars_of, decimal, lower_char, lower_char_exec, padded, push_decimal, push_padded, push_str, string_from};
use vstd::prelude::*;

verus! {

/// Name of the data file of map `num` of variant `v`.
pub open spec fn spec_map_data_file(v: StageVariantID, num: u32) -> Seq<char> {
    let stype = spec_stage_type(v);
    match stype.map_code {
        Some(code) => "MapStageData"@ + code@ + seq!['_'] + padded(num as nat, 3) + ".csv"@,
        None => if v == StageVariant::Filibuster {
            "stageNormal2_2_Invasion.csv"@
        } else if v == StageVariant::MainChapters {
            if num <= 2 {
                "stageNormal0.csv"@
            } else if num <= 5 {
                "stageNormal1_"@ + decimal((num - 3) as nat) + ".csv"@
            } else {
                "stageNormal2_"@ + decimal((num - 6) as nat) + ".csv"@
            }
        } else {
            "stageNormal"@ + decimal((v.spec_num() - 20) as nat) + seq!['_'] + decimal(num as nat)
                + "_Z.csv"@
        },
    }
}

/// A map for which a data file name exists: main chapter maps go up to 8.
pub open spec fn map_data_file_ok(v: StageVariantID, num: u32) -> bool {
    v == StageVariant::MainChapters ==> num <= 8
}

/// Get map's data file name.
pub fn map_data_file(map_id: &MapID) -> (s: String)
    requires
        map_data_file_ok(map_id.spec_variant(), map_id.spec_num()),
    ensures
        s@ == spec_map_data_file(map_id.spec_variant(), map_id.spec_num()),
{
    let stype = get_stage_type(map_id.variant());
    let mut out: Vec<char> = Vec::new();
    if let Some(code) = stype.map_code {
        push_str(&mut out, "MapStageData");
        push_str(&mut out, code);
        out.push('_');
        push_padded(&mut out, map_id.num() as u64, 3);
        push_str(&mut out, ".csv");
        assert(out@ =~= spec_map_data_file(map_id.spec_variant(), map_id.spec_num()));
        return string_from(&out);
    }
    match map_id.variant() {
        StageVariant::Filibuster => {
            return "stageNormal2_2_Invasion.csv".to_string();
        },
        StageVariant::MainChapters => {
            match map_id.main_type().unwrap() {
                MainType::EoC => {
                    return "stageNormal0.csv".to_string();
                },
                MainType::ItF => {
                    push_str(&mut out, "stageNormal1_");
                    push_decimal(&mut out, (map_id.num() - 3) as u64);
                },
                MainType::CotC => {
                    push_str(&mut out, "stageNormal2_");
                    push_decimal(&mut out, (map_id.num() - 6) as u64);
                },
            }
            push_str(&mut out, ".csv");
        },
        _ => {
            push_str(&mut out, "stageNormal");
            push_decimal(&mut out, (map_id.variant().num() - 20) as u64);
            out.push('_');
            push_decimal(&mut out, map_id.num() as u64);
            push_str(&mut out, "_Z.csv");
        },
    }
    assert(out@ =~= spec_map_data_file(map_id.spec_variant(), map_id.spec_num()));
    string_from(&out)
}

/// `s` with every ASCII capital made lowercase.
pub open spec fn ascii_lower(s: Seq<char>) -> Seq<char> {
    s.map_values(|c: char| lower_char(c))
}

/// Image code of a variant: its map code (or its own stage code, where it
/// has one) in lowercase, or `main` for the variants without codes.
pub open spec fn spec_map_img_code(v: StageVariantID) -> Seq<char> {
    let stype = spec_stage_type(v);
    match stype.stage_code {
        StageCodeType::SameAsMap | StageCodeType::RPrefix => ascii_lower(stype.map_code->0@),
        StageCodeType::Other(code) => ascii_lower(code@),
        StageCodeType::Custom => "main"@,
    }
}

/// Lowercase copy of the ASCII string `s`.
fn lower_string(s: &str) -> (r: String)
    ensures
        r@ == ascii_lower(s@),
{
    let cs = chars_of(s);
    let mut out: Vec<char> = Vec::new();
    let mut i: usize = 0;
    while i < cs.len()
        invariant
            0 <= i <= cs.len(),
            cs@ == s@,
            out@ == ascii_lower(cs@.subrange(0, i as int)),
        decreases cs.len() - i,
    {
        out.push(lower_char_exec(cs[i]));
        assert(out@ =~= ascii_lower(cs@.subrange(0, i as int + 1)));
        i = i + 1;
    }
    assert(cs@.subrange(0, cs@.len() as int) =~= cs@);
    string_from(&out)
}

/// Get the image code used in map and stage name files.
pub fn map_img_code(map: &MapID) -> (s: String)
    ensures
        s@ == spec_map_img_code(map.spec_variant()),
{
    let stype = get_stage_type(map.variant());
    proof {
        crate::meta::stage::stage_types::data::lemma_stage_type_codes(map.spec_variant());
    }
    match stype.stage_code {
        StageCodeType::SameAsMap | StageCodeType::RPrefix => lower_string(stype.map_code.unwrap()),
        StageCodeType::Other(code) => lower_string(code),
        StageCodeType::Custom => "main".to_string(),
    }
}

} // verus!
