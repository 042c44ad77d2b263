//! Parsing and storing the type and files of a stage (the older form of
//! [`StageMeta`](super::stage_metadata::StageMeta), whose references take
//! stage numbers of two digits).

use super::stage_metadata::consts::{
    get_selector_code, spec_type_map_code, stage_type_code_index_from,
    type_map_index,
};
use super::stage_metadata::{
    from_file_ok, from_selector_ok, main_selector_ok, new_ok, spec_from_file,
    spec_from_selector, spec_from_selector_main, spec_from_split_parsed, spec_new, strs_view,
    MetaView, StageMeta, StageMetaParseError,
};
use crate::text::chars_of;
use vstd::prelude::*;

verus! {

/// Information about each stage type.
#[derive(Debug, Clone, Copy, PartialEq, Eq)]
pub struct StageCode {
    /// E.g. `"Stories of Legend"`.
    pub name: &'static str,
    /// Numerical value of stage type.
    pub number: usize,
    /// E.g. `"N"` for Stories of Legend, `"RE|EX"` for Extra Stages.
    pub code: &'static str,
    /// Are stage files of the type `stageR{code}` or `stage{code}`?
    pub has_r_prefix: bool,
}

/// Type, map and stage of a stage, with its data files.
#[derive(Debug, PartialEq)]
pub struct StageType {
    /// Long-form name of the stage type.
    pub type_full_name: &'static str,
    /// Short-form name of the stage type.
    pub type_code: &'static str,
    /// Numerical value of the stage type.
    pub type_num: usize,
    /// Map number of the stage.
    pub map_num: usize,
    /// Stage number of the stage.
    pub stage_num: usize,
    /// DataLocal file that contains information about the map the stage is in.
    pub map_file_name: String,
    /// DataLocal file that contains information about the stage.
    pub stage_file_name: String,
}

impl View for StageType {
    type V = MetaView;

    open spec fn view(&self) -> MetaView {
        MetaView {
            type_full_name: self.type_full_name@,
            type_code: self.type_code@,
            type_num: self.type_num as nat,
            map_num: self.map_num as nat,
            stage_num: self.stage_num as nat,
            map_file_name: self.map_file_name@,
            stage_file_name: self.stage_file_name@,
        }
    }
}

/// Error when parsing a [`StageType`].
#[derive(Debug, Clone, Copy, PartialEq, Eq, Structural)]
pub enum StageTypeError {
    /// Not the correct function to use.
    Rejected,
    /// Either selector doesn't exist or numbers are not given.
    Invalid,
}

/// The [`StageMetaParseError`] that an error stands for.
pub open spec fn meta_error(e: StageTypeError) -> StageMetaParseError {
    match e {
        StageTypeError::Rejected => StageMetaParseError::Rejected,
        StageTypeError::Invalid => StageMetaParseError::Invalid,
    }
}

/// A parse result with the fields as plain values.
pub open spec fn type_result(r: Result<StageType, StageTypeError>) -> Result<MetaView, StageMetaParseError> {
    match r {
        Ok(t) => Ok(t@),
        Err(e) => Err(meta_error(e)),
    }
}

/// Convert a parse result of [`StageMeta`].
fn convert(r: Result<StageMeta, StageMetaParseError>) -> (t: Result<StageType, StageTypeError>)
    ensures
        type_result(t) == crate::stage::stage_metadata::meta_result(r),
{
    match r {
        Ok(m) => Ok(StageType {
            type_full_name: m.type_full_name,
            type_code: m.type_code,
            type_num: m.type_num,
            map_num: m.map_num,
            stage_num: m.stage_num,
            map_file_name: m.map_file_name,
            stage_file_name: m.stage_file_name,
        }),
        Err(StageMetaParseError::Rejected) => Err(StageTypeError::Rejected),
        Err(StageMetaParseError::Invalid) => Err(StageTypeError::Invalid),
    }
}

impl StageType {
    /// Catch-all method for parsing a selector.
    pub fn new(selector: &str) -> (r: Result<StageType, StageTypeError>)
        requires
            new_ok(selector@, true),
        ensures
            type_result(r) == spec_new(selector@, true),
    {
        convert(StageMeta::new_digits(selector, true))
    }

    /// Parse space-delimited selector into [`StageType`].
    pub fn from_selector(selector: &str) -> (r: Result<StageType, StageTypeError>)
        requires
            from_selector_ok(selector@),
        ensures
            type_result(r) == spec_from_selector(selector@),
    {
        convert(StageMeta::from_selector(selector))
    }

    /// Parse file name into [`StageType`].
    pub fn from_file(file_name: &str) -> (r: Result<StageType, StageTypeError>)
        requires
            from_file_ok(file_name@),
        ensures
            type_result(r) == spec_from_file(file_name@),
    {
        convert(StageMeta::from_file(file_name))
    }

    /// Parse battle-cats.db reference into [`StageType`]; the stage number
    /// has exactly two digits.
    pub fn from_ref(selector: &str) -> (r: Result<StageType, StageTypeError>)
        requires
            crate::stage::stage_metadata::from_ref_ok(selector@, true),
        ensures
            type_result(r) == crate::stage::stage_metadata::spec_from_ref(selector@, true),
    {
        convert(StageMeta::from_ref_digits(selector, true))
    }

    /// Get `StageCode.code` from `selector_type`.
    pub fn get_selector_type(selector_type: &str) -> (r: Result<&'static str, StageTypeError>)
        ensures
            r == match type_map_index(selector_type@) {
                Some(i) => Ok::<&'static str, StageTypeError>(spec_type_map_code(i)),
                None => Err(StageTypeError::Invalid),
            },
    {
        let cs = chars_of(selector_type);
        match get_selector_code(&cs) {
            Some(c) => Ok(c),
            None => Err(StageTypeError::Invalid),
        }
    }

    /// Get the [`StageCode`] with code `stage_type`.
    pub fn get_stage_code(stage_type: &str) -> (c: StageCode)
        requires
            stage_type_code_index_from(stage_type@, 0) is Some,
        ensures
            c.name == crate::stage::stage_metadata::consts::spec_get_stage_type_code(stage_type@).name,
            c.number == crate::stage::stage_metadata::consts::spec_get_stage_type_code(stage_type@).number,
            c.code == crate::stage::stage_metadata::consts::spec_get_stage_type_code(stage_type@).code,
            c.has_r_prefix == crate::stage::stage_metadata::consts::spec_get_stage_type_code(stage_type@).has_r_prefix,
    {
        let st = crate::stage::stage_metadata::consts::get_stage_type_code(stage_type);
        StageCode { name: st.name, number: st.number, code: st.code, has_r_prefix: st.has_r_prefix }
    }

    /// Get [`StageType`] from selectors split into variables.
    pub fn from_split(stage_type: &str, map_num: usize, stage_num: usize) -> (r: Result<StageType, StageTypeError>)
        requires
            match type_map_index(stage_type@) {
                Some(i) => stage_type_code_index_from(spec_type_map_code(i)@, 0) is Some,
                None => true,
            },
        ensures
            type_result(r) == match type_map_index(stage_type@) {
                None => Err(StageMetaParseError::Invalid),
                Some(i) => Ok(spec_from_split_parsed(
                    crate::stage::stage_metadata::consts::spec_get_stage_type_code(spec_type_map_code(i)@),
                    map_num as nat,
                    stage_num as nat,
                )),
            },
    {
        let code = match Self::get_selector_type(stage_type) {
            Ok(c) => c,
            Err(e) => return Err(e),
        };
        Self::from_split_parsed(code, map_num, stage_num)
    }

    /// [`StageType::from_split`] but with `stage_type` being the code of one
    /// of the stage types.
    pub fn from_split_parsed(stage_type: &str, map_num: usize, stage_num: usize) -> (r: Result<StageType, StageTypeError>)
        requires
            stage_type_code_index_from(stage_type@, 0) is Some,
        ensures
            type_result(r) == Ok::<MetaView, StageMetaParseError>(spec_from_split_parsed(
                crate::stage::stage_metadata::consts::spec_get_stage_type_code(stage_type@),
                map_num as nat,
                stage_num as nat,
            )),
    {
        let st = crate::stage::stage_metadata::consts::get_stage_type_code(stage_type);
        proof {
            let i = stage_type_code_index_from(stage_type@, 0)->0;
            lemma_code_index_range(stage_type@, 0);
            crate::stage::stage_metadata::lemma_stage_types_codes(i);
        }
        convert(Ok(StageMeta::from_split_parsed(&st, map_num, stage_num)))
    }

    /// Parse a main chapter selector.
    pub fn from_selector_main(selector: Vec<&str>) -> (r: Result<StageType, StageTypeError>)
        requires
            main_selector_ok(strs_view(selector@)),
        ensures
            type_result(r) == spec_from_selector_main(strs_view(selector@)),
    {
        convert(StageMeta::from_selector_main(&selector))
    }
}

/// Lemma: the index found by a code lookup is that of a stage type.
proof fn lemma_code_index_range(code: Seq<char>, i: int)
    ensures
        stage_type_code_index_from(code, i) matches Some(j) ==> 0 <= j < 18
            && crate::stage::stage_metadata::consts::spec_stage_types()[j].code@ == code,
    decreases 18 - i,
{
    if 0 <= i < 18 {
        lemma_code_index_range(code, i + 1);
    }
}

/// Law: the stage file name of the stage type that a code (any but that of
/// the main chapters), a map number and a stage number give is parsed back
/// by [`StageType::from_file`] to the same stage type.
pub proof fn law_type_file_roundtrip(code: Seq<char>, map: nat, stage: nat)
    requires
        stage_type_code_index_from(code, 0) is Some,
        code != "main"@,
        map <= usize::MAX,
        stage <= usize::MAX,
    ensures
        from_file_ok(spec_from_split_parsed(
            crate::stage::stage_metadata::consts::spec_get_stage_type_code(code), map, stage,
        ).stage_file_name),
        spec_from_file(spec_from_split_parsed(
            crate::stage::stage_metadata::consts::spec_get_stage_type_code(code), map, stage,
        ).stage_file_name) == Ok::<MetaView, StageMetaParseError>(spec_from_split_parsed(
            crate::stage::stage_metadata::consts::spec_get_stage_type_code(code), map, stage,
        )),
{
    let i = stage_type_code_index_from(code, 0)->0;
    lemma_code_index_range(code, 0);
    assert(i != 3) by {
        reveal_strlit("main");
    }
    crate::stage::stage_metadata::laws::law_meta_file_roundtrip(i, map, stage);
}

/// The selector itself.
pub fn get_st_obj(selector: &str) -> (r: &str)
    ensures
        r == selector,
{
    selector
}

} // verus!
