//! Transform [`StageID`] data into various formats.

use crate::meta::stage::map_id::MainType;
use crate::meta::stage::stage_id::StageID;
use crate::meta::stage::stage_types::data::{get_stage_type, spec_stage_type};
use crate::meta::stage::stage_types::types::StageCodeType;
use crate::meta::stage::variant::{StageVariant, StageVariantID};
use crate::text::{padded, push_padded, push_str, string_from};
use vstd::prelude::*;

verus! {

/// Type.
type T = StageVariantID;

/// Stage number in the file of an Empire of Cats outbreak stage: the moon
/// stages of chapters 2 and 3 are stored as stages 49 and 50.
pub open spec fn outbreak_file_stage(map: int, stage: int) -> int {
    if map == 1 && stage == 47 {
        49
    } else if map == 2 && stage == 47 {
        50
    } else {
        stage
    }
}

/// Name of the data file of a stage whose variant needs custom logic.
pub open spec fn spec_custom_stage_data_file(v: StageVariantID, map: u32, stage: u32) -> Seq<char> {
    if v == StageVariant::Filibuster {
        "stageSpace09_Invasion_00.csv"@
    } else if v == StageVariant::MainChapters {
        if map <= 2 {
            "stage"@ + padded(stage as nat, 2) + ".csv"@
        } else if map <= 5 {
            "stageW"@ + padded((map + 1) as nat, 2) + seq!['_'] + padded(stage as nat, 2) + ".csv"@
        } else {
            "stageSpace"@ + padded((map + 1) as nat, 2) + seq!['_'] + padded(stage as nat, 2) + ".csv"@
        }
    } else {
        let zmap: int = if v == StageVariant::EocOutbreak {
            map as int
        } else if v == StageVariant::ItfOutbreak {
            map + 4
        } else {
            map + 7
        };
        let zstage: int = if v == StageVariant::EocOutbreak {
            outbreak_file_stage(map as int, stage as int)
        } else {
            stage as int
        };
        "stageZ"@ + padded(zmap as nat, 2) + seq!['_'] + padded(zstage as nat, 2) + ".csv"@
    }
}

/// Name of the data file of a stage: `stage`, the variant's stage code,
/// the map number in three digits, `_`, the stage number in two digits and
/// `.csv`; variants without codes have names of their own.
pub open spec fn spec_stage_data_file(v: StageVariantID, map: u32, stage: u32) -> Seq<char> {
    let stype = spec_stage_type(v);
    let tail = padded(map as nat, 3) + seq!['_'] + padded(stage as nat, 2) + ".csv"@;
    match stype.stage_code {
        StageCodeType::SameAsMap => "stage"@ + stype.map_code->0@ + tail,
        StageCodeType::RPrefix => "stage"@ + seq!['R'] + stype.map_code->0@ + tail,
        StageCodeType::Other(o) => "stage"@ + o@ + tail,
        StageCodeType::Custom => spec_custom_stage_data_file(v, map, stage),
    }
}

/// A stage for which a data file name exists: main chapter maps go up to 8,
/// and outbreak map numbers leave room for their offset.
pub open spec fn stage_data_file_ok(v: StageVariantID, map: u32) -> bool {
    &&& v == StageVariant::MainChapters ==> map <= 8
    &&& (v == StageVariant::ItfOutbreak || v == StageVariant::CotcOutbreak) ==> map + 7 <= u32::MAX
}

/// Get stage's data file name when stype is custom.
fn custom_stage_data_file(stage_id: &StageID) -> (s: Vec<char>)
    requires
        stage_data_file_ok(stage_id.spec_map().spec_variant(), stage_id.spec_map().spec_num()),
        spec_stage_type(stage_id.spec_map().spec_variant()).stage_code == StageCodeType::Custom,
    ensures
        s@ == spec_custom_stage_data_file(
            stage_id.spec_map().spec_variant(),
            stage_id.spec_map().spec_num(),
            stage_id.spec_num(),
        ),
{
    let variant = stage_id.variant();
    let mut out: Vec<char> = Vec::new();
    match variant {
        T::Filibuster => {
            push_str(&mut out, "stageSpace09_Invasion_00.csv");
        },
        T::EocOutbreak | T::ItfOutbreak | T::CotcOutbreak => {
            let map: u32 = match variant {
                T::EocOutbreak => stage_id.map().num(),
                T::ItfOutbreak => stage_id.map().num() + 4,
                _ => stage_id.map().num() + 7,
            };
            let mut stage = stage_id.num();
            if variant == T::EocOutbreak {
                stage = if map == 1 && stage == 47 {
                    49
                } else if map == 2 && stage == 47 {
                    50
                } else {
                    stage
                };
            }
            push_str(&mut out, "stageZ");
            push_padded(&mut out, map as u64, 2);
            out.push('_');
            push_padded(&mut out, stage as u64, 2);
            push_str(&mut out, ".csv");
        },
        _ => {
            match stage_id.map().main_type().unwrap() {
                MainType::EoC => {
                    push_str(&mut out, "stage");
                },
                MainType::ItF => {
                    push_str(&mut out, "stageW");
                    push_padded(&mut out, (stage_id.map().num() + 1) as u64, 2);
                    out.push('_');
                },
                MainType::CotC => {
                    push_str(&mut out, "stageSpace");
                    push_padded(&mut out, (stage_id.map().num() + 1) as u64, 2);
                    out.push('_');
                },
            }
            push_padded(&mut out, stage_id.num() as u64, 2);
            push_str(&mut out, ".csv");
        },
    }
    assert(out@ =~= spec_custom_stage_data_file(
        stage_id.spec_map().spec_variant(),
        stage_id.spec_map().spec_num(),
        stage_id.spec_num(),
    ));
    out
}

/// Get stage's data file name.
pub fn stage_data_file(stage_id: &StageID) -> (s: String)
    requires
        stage_data_file_ok(stage_id.spec_map().spec_variant(), stage_id.spec_map().spec_num()),
    ensures
        s@ == spec_stage_data_file(
            stage_id.spec_map().spec_variant(),
            stage_id.spec_map().spec_num(),
            stage_id.spec_num(),
        ),
{
    let stype = get_stage_type(stage_id.variant());
    proof {
        crate::meta::stage::stage_types::data::lemma_stage_type_codes(stage_id.spec_map().spec_variant());
    }
    let mut out: Vec<char> = Vec::new();
    push_str(&mut out, "stage");
    match stype.stage_code {
        StageCodeType::SameAsMap => push_str(&mut out, stype.map_code.unwrap()),
        StageCodeType::RPrefix => {
            out.push('R');
            push_str(&mut out, stype.map_code.unwrap());
        },
        StageCodeType::Other(o) => push_str(&mut out, o),
        StageCodeType::Custom => {
            let s = custom_stage_data_file(stage_id);
            return string_from(&s);
        },
    }
    push_padded(&mut out, stage_id.map().num() as u64, 3);
    out.push('_');
    push_padded(&mut out, stage_id.num() as u64, 2);
    push_str(&mut out, ".csv");
    assert(out@ =~= spec_stage_data_file(
        stage_id.spec_map().spec_variant(),
        stage_id.spec_map().spec_num(),
        stage_id.spec_num(),
    ));
    string_from(&out)
}

} // verus!
