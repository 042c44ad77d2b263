//! Parse [`MapID`] from various formats.

use super::{
    get_variant_from_code, is_single_map, is_single_stage, spec_is_single_map,
    spec_is_single_stage, spec_variant_from_code, StageTypeParseError,
};
use crate::meta::stage::map_id::{MapID, MapSize};
use crate::meta::stage::stage_types::data::SELECTOR_SEPARATOR;
use crate::meta::stage::variant::{StageVariant, StageVariantID};
use crate::decimal_digits::all_decimal;
use crate::text::{
    chars_of, find_first, has_prefix, index_of_first, lower_eq, lower_eq_str,
    parse_u32, parse_u32_chars, split_chars, split_on, starts_with, subvec,
};
use vstd::prelude::*;

verus! {

/// A parsed map as its variant and (unbounded) map number.
pub open spec fn map_result(r: Result<MapID, StageTypeParseError>) -> Result<(StageVariantID, int), StageTypeParseError> {
    match r {
        Ok(m) => Ok((m.spec_variant(), m.spec_num() as int)),
        Err(e) => Err(e),
    }
}

/// Map number that a main chapter selector names: `EoC` always names map 0,
/// `ItF`/`W` number their chapters from map 3 and `CotC`/`Space` from map 6;
/// any other name (`main`, `3`) gives the map number as it is.
pub open spec fn main_selector_map(compare: Seq<char>, m: int) -> int {
    if lower_eq(compare, seq!['e', 'o', 'c']) {
        0
    } else if lower_eq(compare, seq!['i', 't', 'f']) || lower_eq(compare, seq!['w']) {
        m + 2
    } else if lower_eq(compare, seq!['c', 'o', 't', 'c']) || lower_eq(compare, seq!['s', 'p', 'a', 'c', 'e']) {
        m + 5
    } else {
        m
    }
}

/// Result of parsing a map selector `"{code} {map}"`: the code names the
/// variant; single-stage and single-map variants always give map 0; other
/// variants need a map number, read as a `u32`.
pub open spec fn spec_parse_map_selector(s: Seq<char>) -> Result<(StageVariantID, int), StageTypeParseError> {
    let pieces = split_on(s, SELECTOR_SEPARATOR);
    let compare = pieces[0];
    match spec_variant_from_code(compare) {
        None => Err(StageTypeParseError::UnknownMatcher),
        Some(v) => if spec_is_single_stage(v) || spec_is_single_map(v) {
            Ok((v, 0))
        } else if pieces.len() < 2 {
            Err(StageTypeParseError::NoMapNumber)
        } else {
            match parse_u32(pieces[1]) {
                None => Err(StageTypeParseError::InvalidNumber),
                Some(m) => if v == StageVariant::MainChapters {
                    Ok((v, main_selector_map(compare, m as int)))
                } else {
                    Ok((v, m as int))
                },
            }
        },
    }
}

/// A map selector whose map number fits in a `u32` once chapter offsets are
/// added (otherwise the addition overflows).
pub open spec fn map_selector_ok(s: Seq<char>) -> bool {
    match spec_parse_map_selector(s) {
        Ok((_, m)) => m <= u32::MAX,
        Err(_) => true,
    }
}

/// Parse map selector to [`MapID`].
pub fn parse_map_selector(selector: &str) -> (r: Result<MapID, StageTypeParseError>)
    requires
        map_selector_ok(selector@),
    ensures
        map_result(r) == spec_parse_map_selector(selector@),
{
    let cs = chars_of(selector);
    parse_map_selector_chars(&cs)
}

/// [`parse_map_selector`] on the characters of the selector.
pub fn parse_map_selector_chars(selector: &Vec<char>) -> (r: Result<MapID, StageTypeParseError>)
    requires
        map_selector_ok(selector@),
    ensures
        map_result(r) == spec_parse_map_selector(selector@),
{
    let pieces = split_chars(selector, SELECTOR_SEPARATOR);
    proof {
        crate::text::lemma_split_pieces(selector@, SELECTOR_SEPARATOR);
        assert(pieces@.len() == split_on(selector@, SELECTOR_SEPARATOR).len());
        assert(pieces@[0]@ == split_on(selector@, SELECTOR_SEPARATOR)[0]);
    }
    let compare = &pieces[0];
    let variant = match get_variant_from_code(compare) {
        None => return Err(StageTypeParseError::UnknownMatcher),
        Some(v) => v,
    };

    if is_single_stage(variant) || is_single_map(variant) {
        return Ok(MapID::from_components(variant, 0));
    }

    if pieces.len() < 2 {
        return Err(StageTypeParseError::NoMapNumber);
    }
    proof {
        assert(pieces@[1]@ == split_on(selector@, SELECTOR_SEPARATOR)[1]);
    }
    let map_num: MapSize = match parse_u32_chars(&pieces[1]) {
        None => return Err(StageTypeParseError::InvalidNumber),
        Some(m) => m,
    };

    if variant == StageVariant::MainChapters {
        if lower_eq_str(compare, "eoc") {
            proof { reveal_strlit("eoc"); }
            return Ok(MapID::from_components(variant, 0));
        }
        proof { reveal_strlit("eoc"); reveal_strlit("itf"); reveal_strlit("w"); }
        if lower_eq_str(compare, "itf") || lower_eq_str(compare, "w") {
            return Ok(MapID::from_components(variant, map_num + 2));
        }
        proof { reveal_strlit("cotc"); reveal_strlit("space"); }
        if lower_eq_str(compare, "cotc") || lower_eq_str(compare, "space") {
            return Ok(MapID::from_components(variant, map_num + 5));
        }
    }

    Ok(MapID::from_components(variant, map_num))
}

/// Parts `(code, map)` of a map data file name
/// `"MapStageData{code}_{map}?csv"`: the code runs to the first underscore,
/// decimal digits (in the Unicode sense) fill all but the last four characters after it, and those
/// are any character but a newline followed by `csv`.
pub open spec fn map_file_parts(f: Seq<char>) -> Option<(Seq<char>, Seq<char>)> {
    let prefix = seq!['M', 'a', 'p', 'S', 't', 'a', 'g', 'e', 'D', 'a', 't', 'a'];
    if !starts_with(f, prefix) {
        None
    } else {
        let t = f.skip(12);
        match index_of_first(t, '_') {
            None => None,
            Some(k) => {
                let u = t.skip(k + 1);
                if u.len() >= 4 && u.subrange(u.len() - 3, u.len() as int) == seq!['c', 's', 'v']
                    && u[u.len() - 4] != '\n' && all_decimal(u.subrange(0, u.len() - 4)) {
                    Some((t.subrange(0, k), u.subrange(0, u.len() - 4)))
                } else {
                    None
                }
            },
        }
    }
}

/// The map selector that a map file name gives: its code and its number
/// with the selector separator between them.
pub open spec fn map_file_selector(code: Seq<char>, num: Seq<char>) -> Seq<char> {
    code + seq![SELECTOR_SEPARATOR] + num
}

/// A map file name that the parser handles: a `MapStageData` name whose
/// code and number form a valid selector.
pub open spec fn map_file_ok(f: Seq<char>) -> bool {
    match map_file_parts(f) {
        Some((code, num)) => map_selector_ok(map_file_selector(code, num)),
        None => false,
    }
}

/// Result of parsing a map data file name: the code and the number are
/// parsed as the map selector `"{code} {num}"`.
pub open spec fn spec_parse_map_file(f: Seq<char>) -> Result<(StageVariantID, int), StageTypeParseError> {
    let (code, num) = map_file_parts(f)->0;
    spec_parse_map_selector(map_file_selector(code, num))
}

/// Parse map file name into a [`MapID`].
pub fn parse_map_file(file_name: &str) -> (r: Result<MapID, StageTypeParseError>)
    requires
        map_file_ok(file_name@),
    ensures
        map_result(r) == spec_parse_map_file(file_name@),
{
    let f = chars_of(file_name);
    let is_map_stage_data = has_prefix(&f, "MapStageData");
    proof {
        reveal_strlit("MapStageData");
        assert("MapStageData"@ =~= seq!['M', 'a', 'p', 'S', 't', 'a', 'g', 'e', 'D', 'a', 't', 'a']);
    }
    assert(is_map_stage_data);
    let t = subvec(&f, 12, f.len());
    assert(t@ =~= f@.skip(12));
    let k = find_first(&t, '_').unwrap();
    let u = subvec(&t, k + 1, t.len());
    assert(u@ =~= t@.skip(k + 1));
    let mut sel = subvec(&t, 0, k);
    let num = subvec(&u, 0, u.len() - 4);
    sel.push(SELECTOR_SEPARATOR);
    crate::text::push_chars(&mut sel, &num);
    assert(sel@ =~= map_file_selector(t@.subrange(0, k as int), u@.subrange(0, u@.len() - 4)));
    parse_map_selector_chars(&sel)
}

/// Parse string of unknown format into a [`MapID`].
///
/// The string is read as a map data file name first, then as a selector.
/// The selector reading never succeeds on a `MapStageData` name, so the
/// result is that of the file name.
pub fn parse_general_map_id(selector: &str) -> (r: Option<MapID>)
    requires
        map_file_ok(selector@),
        spec_parse_map_file(selector@) is Ok,
    ensures
        r matches Some(m) && spec_parse_map_file(selector@) == Ok::<(StageVariantID, int), StageTypeParseError>((m.spec_variant(), m.spec_num() as int)),
{
    match parse_map_file(selector) {
        Ok(st) => Some(st),
        Err(_) => None,
    }
}

} // verus!
