//! Parse ID from various formats.

pub mod parse_map;
pub mod parse_stage;

use super::data::{first_match, raw_order, raw_stage_types, get_data_matcher, spec_stage_type};
use crate::meta::stage::variant::{StageVariant, StageVariantID};
use vstd::prelude::*;

verus! {

/// Error when parsing the stage type.
#[derive(Debug, Clone, Copy, PartialEq, Eq, Structural)]
pub enum StageTypeParseError {
    /// Invalid "matcher" (variant code, e.g. `"main"`).
    UnknownMatcher,
    /// No map number provided when necessary.
    NoMapNumber,
    /// No stage number provided when necessary.
    NoStageNumber,
    /// Map or stage number is invalid (e.g. negative, contains letters).
    InvalidNumber,
    /// Selector is not in a valid format for the given function (e.g. is a file
    /// name when the function is db refs).
    InvalidFormat,
}

/// The variant that `code` names: the first stage type, in order of variant
/// number, one of whose aliases equals `code` ignoring case.
pub open spec fn spec_variant_from_code(code: Seq<char>) -> Option<StageVariantID> {
    first_match(raw_order(), code)
}

/// Get the [`StageVariantID`] the code corresponds to.
pub fn get_variant_from_code(code: &Vec<char>) -> (v: Option<StageVariantID>)
    ensures
        v == spec_variant_from_code(code@),
{
    let stypes = raw_stage_types();
    let mut i: usize = 0;
    proof {
        assert(raw_order().skip(0) =~= raw_order());
    }
    while i < stypes.len()
        invariant
            0 <= i <= stypes.len(),
            stypes@.len() == 24,
            raw_order().len() == 24,
            forall|k: int| 0 <= k < 24 ==> #[trigger] stypes@[k] == spec_stage_type(raw_order()[k]),
            first_match(raw_order(), code@) == first_match(raw_order().skip(i as int), code@),
        decreases stypes.len() - i,
    {
        let ghost rest = raw_order().skip(i as int);
        proof {
            assert(rest[0] == raw_order()[i as int]);
            assert(rest.drop_first() =~= raw_order().skip(i as int + 1));
        }
        let stype = stypes[i];
        proof {
            crate::meta::stage::stage_types::data::lemma_stage_type_codes(stype.variant_id);
        }
        let matcher = get_data_matcher(&stype);
        if matcher.is_match(code) {
            return Some(stype.variant_id);
        }
        i = i + 1;
    }
    proof {
        assert(raw_order().skip(24) =~= Seq::<StageVariantID>::empty());
    }
    None
}

/// Variant only has a single stage.
pub open spec fn spec_is_single_stage(v: StageVariantID) -> bool {
    v == StageVariant::Challenge || v == StageVariant::Filibuster
}

/// Variant only has a single map but multiple stages.
pub open spec fn spec_is_single_map(v: StageVariantID) -> bool {
    v == StageVariant::AkuRealms || v == StageVariant::Labyrinth
}

/// Variant only has a single stage.
pub fn is_single_stage(v: StageVariantID) -> (b: bool)
    ensures
        b == spec_is_single_stage(v),
{
    matches!(v, StageVariant::Challenge | StageVariant::Filibuster)
}

/// Variant only has a single map but multiple stages.
pub fn is_single_map(v: StageVariantID) -> (b: bool)
    ensures
        b == spec_is_single_map(v),
{
    matches!(v, StageVariant::AkuRealms | StageVariant::Labyrinth)
}

} // verus!
