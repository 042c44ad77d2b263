//! Parse [`StageID`] from various formats.

use super::parse_map::{map_selector_ok, parse_map_selector_chars, spec_parse_map_selector};
use super::{is_single_map, is_single_stage, spec_is_single_map, spec_is_single_stage, StageTypeParseError};
use crate::meta::stage::map_id::MapSize;
use crate::meta::stage::stage_id::{StageID, StageSize};
use crate::meta::stage::stage_types::data::SELECTOR_SEPARATOR;
use crate::meta::stage::variant::{StageVariant, StageVariantID};
use crate::decimal_digits::{all_decimal, count_non_decimal_prefix, non_decimal_prefix_len};
use crate::text::{
    all_digits, byte_skip, chars_of, digits_value, ends_with, eq_str,
    find_last, has_prefix, has_suffix, index_of_last, is_ascii, is_digit,
    parse_u32, parse_u32_chars, push_chars, skip_bytes, split_chars, split_on, starts_with, subvec,
};
use vstd::prelude::*;

verus! {

/// Type.
type T = StageVariantID;

/// A parsed stage as its variant, map number and stage number.
pub open spec fn stage_result(r: Result<StageID, StageTypeParseError>) -> Result<(StageVariantID, int, int), StageTypeParseError> {
    match r {
        Ok(s) => Ok((s.spec_map().spec_variant(), s.spec_map().spec_num() as int, s.spec_num() as int)),
        Err(e) => Err(e),
    }
}

/// Result of parsing a stage selector `"{code} {map} {stage}"`: the map part
/// as for a map selector; single-stage variants are always stage 0;
/// single-map variants and the first main chapter take the last number of
/// the selector, others its third piece.
pub open spec fn spec_parse_stage_selector(s: Seq<char>) -> Result<(StageVariantID, int, int), StageTypeParseError> {
    match spec_parse_map_selector(s) {
        Err(e) => Err(e),
        Ok((v, m)) => {
            let pieces = split_on(s, SELECTOR_SEPARATOR);
            if spec_is_single_stage(v) {
                Ok((v, m, 0))
            } else if spec_is_single_map(v) || (v == StageVariant::MainChapters && m == 0) {
                if pieces.len() < 2 {
                    Err(StageTypeParseError::NoStageNumber)
                } else {
                    match parse_u32(pieces.last()) {
                        None => Err(StageTypeParseError::InvalidNumber),
                        Some(n) => Ok((v, m, n as int)),
                    }
                }
            } else if pieces.len() < 3 {
                Err(StageTypeParseError::NoStageNumber)
            } else {
                match parse_u32(pieces[2]) {
                    None => Err(StageTypeParseError::InvalidNumber),
                    Some(n) => Ok((v, m, n as int)),
                }
            }
        },
    }
}

/// Parse a stage selector into a [`StageID`].
pub fn parse_stage_selector(selector: &str) -> (r: Result<StageID, StageTypeParseError>)
    requires
        map_selector_ok(selector@),
    ensures
        stage_result(r) == spec_parse_stage_selector(selector@),
{
    let cs = chars_of(selector);
    parse_stage_selector_chars(&cs)
}

/// [`parse_stage_selector`] on the characters of the selector.
pub fn parse_stage_selector_chars(selector: &Vec<char>) -> (r: Result<StageID, StageTypeParseError>)
    requires
        map_selector_ok(selector@),
    ensures
        stage_result(r) == spec_parse_stage_selector(selector@),
{
    let map = match parse_map_selector_chars(selector) {
        Ok(m) => m,
        Err(e) => return Err(e),
    };

    if is_single_stage(map.variant()) {
        return Ok(StageID::from_map(map, 0));
    }

    let pieces = split_chars(selector, SELECTOR_SEPARATOR);
    proof {
        assert(pieces@.len() == split_on(selector@, SELECTOR_SEPARATOR).len());
    }
    if is_single_map(map.variant()) || (map.variant() == StageVariant::MainChapters && map.num() == 0) {
        if pieces.len() < 2 {
            return Err(StageTypeParseError::NoStageNumber);
        }
        let last = &pieces[pieces.len() - 1];
        proof {
            assert(last@ == split_on(selector@, SELECTOR_SEPARATOR).last());
        }
        return match parse_u32_chars(last) {
            None => Err(StageTypeParseError::InvalidNumber),
            Some(n) => Ok(StageID::from_map(map, n)),
        };
    }

    if pieces.len() < 3 {
        return Err(StageTypeParseError::NoStageNumber);
    }
    proof {
        assert(pieces@[2]@ == split_on(selector@, SELECTOR_SEPARATOR)[2]);
    }
    match parse_u32_chars(&pieces[2]) {
        None => Err(StageTypeParseError::InvalidNumber),
        Some(n) => Ok(StageID::from_map(map, n)),
    }
}

/// `"stage"`.
pub open spec fn file_begin() -> Seq<char> {
    seq!['s', 't', 'a', 'g', 'e']
}

/// `".csv"`.
pub open spec fn csv_end() -> Seq<char> {
    seq!['.', 'c', 's', 'v']
}

/// File of the Filibuster stage.
pub open spec fn filibuster_file() -> Seq<char> {
    seq!['s', 't', 'a', 'g', 'e', 'S', 'p', 'a', 'c', 'e', '0', '9', '_', 'I', 'n', 'v', 'a', 's', 'i', 'o', 'n', '_', '0', '0', '.', 'c', 's', 'v']
}

/// Parts `(code, map, stage)` of a stage data file name
/// `"stage{code}{map}_{stage}.csv"`: the code holds no decimal digit, the map
/// and stage are runs of decimal digits (both in the Unicode sense), and the underscore is the last one of the
/// name.
pub open spec fn stage_file_parts(f: Seq<char>) -> Option<(Seq<char>, Seq<char>, Seq<char>)> {
    if starts_with(f, file_begin()) && ends_with(f, csv_end()) && f.len() >= 9 {
        let x = f.subrange(5, f.len() - 4);
        match index_of_last(x, '_') {
            None => None,
            Some(k) => {
                let p = x.subrange(0, k);
                let c = x.subrange(k + 1, x.len() as int);
                let j = non_decimal_prefix_len(p) as int;
                let a = p.subrange(0, j);
                let b = p.subrange(j, p.len() as int);
                if all_decimal(b) && all_decimal(c) {
                    Some((a, b, c))
                } else {
                    None
                }
            },
        }
    } else {
        None
    }
}

/// Stage number of an Empire of Cats outbreak file: the moon stages of
/// chapters 2 and 3 are stored as stages 49 and 50 but are stage 47.
pub open spec fn outbreak_stage(map: int, stage: int) -> int {
    if (map == 1 && stage == 49) || (map == 2 && stage == 50) {
        47
    } else {
        stage
    }
}

/// Selector made from the parts of a stage file name.
pub open spec fn parts_selector(a: Seq<char>, b: Seq<char>, c: Seq<char>) -> Seq<char> {
    a + seq![' '] + b + seq![' '] + c
}

/// Result of parsing a stage data file name.
///
/// A name that does not both begin with `stage` and end with `.csv` is not a
/// stage file and is refused as being in another format.
/// After the first five bytes a digit means an Empire of Cats stage given by
/// the next two characters. Otherwise the name has the parts
/// `stage{code}{map}_{stage}.csv`: `W` and `Space` name the later main
/// chapters (numbered from one past their map), `Z` the outbreaks (maps 0-2,
/// 4-6 and 7-9), and any other code is read as a selector.
pub open spec fn spec_parse_stage_file(f: Seq<char>) -> Result<(StageVariantID, int, int), StageTypeParseError> {
    if !(starts_with(f, file_begin()) && ends_with(f, csv_end())) {
        Err(StageTypeParseError::InvalidFormat)
    } else if f == filibuster_file() {
        Ok((StageVariant::Filibuster, 0, 0))
    } else {
        let rem = byte_skip(f, 5)->0;
        if is_digit(rem[0]) {
            match parse_u32(rem.subrange(0, 2)) {
                Some(n) => Ok((StageVariant::MainChapters, 0, n as int)),
                None => Err(StageTypeParseError::InvalidNumber),
            }
        } else {
            let (a, b, c) = stage_file_parts(f)->0;
            let bn = parse_u32(b)->0 as int;
            let cn = parse_u32(c)->0 as int;
            if a == seq!['W'] || a == seq!['S', 'p', 'a', 'c', 'e'] {
                Ok((StageVariant::MainChapters, bn - 1, cn))
            } else if a == seq!['Z'] {
                if bn <= 2 {
                    Ok((StageVariant::EocOutbreak, bn, outbreak_stage(bn, cn)))
                } else if bn <= 6 {
                    Ok((StageVariant::ItfOutbreak, bn - 4, cn))
                } else {
                    Ok((StageVariant::CotcOutbreak, bn - 7, cn))
                }
            } else {
                spec_parse_stage_selector(parts_selector(a, b, c))
            }
        }
    }
}

/// A stage file name that the parser handles without failing: the slices it
/// takes exist, the name has the expected parts, the numbers of `W`, `Space`
/// and `Z` names are present and in range, and any selector made from the
/// name is valid.
pub open spec fn stage_file_ok(f: Seq<char>) -> bool {
    if !(starts_with(f, file_begin()) && ends_with(f, csv_end())) || f == filibuster_file() {
        true
    } else {
        match byte_skip(f, 5) {
            None => false,
            Some(rem) => rem.len() > 0 && if is_digit(rem[0]) {
                rem.len() >= 2 && is_ascii(rem[1])
            } else {
                match stage_file_parts(f) {
                    None => false,
                    Some((a, b, c)) => if a == seq!['W'] || a == seq!['S', 'p', 'a', 'c', 'e'] {
                        parse_u32(b) is Some && parse_u32(c) is Some && parse_u32(b)->0 >= 1
                    } else if a == seq!['Z'] {
                        parse_u32(b) is Some && parse_u32(c) is Some && (parse_u32(b)->0 <= 2
                            || (4 <= parse_u32(b)->0 && parse_u32(b)->0 <= 9))
                    } else {
                        map_selector_ok(parts_selector(a, b, c))
                    },
                }
            },
        }
    }
}

/// Parse a stage data file name into a [`StageID`].
pub fn parse_stage_file(file_name: &str) -> (r: Result<StageID, StageTypeParseError>)
    requires
        stage_file_ok(file_name@),
    ensures
        stage_result(r) == spec_parse_stage_file(file_name@),
{
    let f = chars_of(file_name);
    proof {
        reveal_strlit("stage");
        reveal_strlit(".csv");
        reveal_strlit("stageSpace09_Invasion_00.csv");
        assert("stage"@ =~= file_begin());
        assert(".csv"@ =~= csv_end());
        assert("stageSpace09_Invasion_00.csv"@ =~= filibuster_file());
    }
    if !(has_prefix(&f, "stage") && has_suffix(&f, ".csv")) {
        return Err(StageTypeParseError::InvalidFormat);
    } else if eq_str(&f, "stageSpace09_Invasion_00.csv") {
        return Ok(StageID::from_components(T::Filibuster, 0, 0));
    }

    let rem = skip_bytes(&f, 5).unwrap();
    if '0' <= rem[0] && rem[0] <= '9' {
        let two = subvec(&rem, 0, 2);
        return match parse_u32_chars(&two) {
            Some(num) => Ok(StageID::from_components(T::MainChapters, 0, num)),
            None => Err(StageTypeParseError::InvalidNumber),
        };
    }

    let x = subvec(&f, 5, f.len() - 4);
    let k = find_last(&x, '_').unwrap();
    let p = subvec(&x, 0, k);
    let c = subvec(&x, k + 1, x.len());
    let j = count_non_decimal_prefix(&p);
    let a = subvec(&p, 0, j);
    let b = subvec(&p, j, p.len());
    proof {
        reveal_strlit("W");
        reveal_strlit("Space");
        reveal_strlit("Z");
        assert("W"@ =~= seq!['W']);
        assert("Space"@ =~= seq!['S', 'p', 'a', 'c', 'e']);
        assert("Z"@ =~= seq!['Z']);
    }
    if eq_str(&a, "W") || eq_str(&a, "Space") {
        let map: MapSize = parse_u32_chars(&b).unwrap() - 1;
        let stage: StageSize = parse_u32_chars(&c).unwrap();
        return Ok(StageID::from_components(T::MainChapters, map, stage));
    }
    if eq_str(&a, "Z") {
        let map: MapSize = parse_u32_chars(&b).unwrap();
        let stage: StageSize = parse_u32_chars(&c).unwrap();
        if map <= 2 {
            let stage = if (map == 1 && stage == 49) || (map == 2 && stage == 50) {
                47
            } else {
                stage
            };
            return Ok(StageID::from_components(T::EocOutbreak, map, stage));
        } else if map <= 6 {
            return Ok(StageID::from_components(T::ItfOutbreak, map - 4, stage));
        } else {
            return Ok(StageID::from_components(T::CotcOutbreak, map - 7, stage));
        }
    }

    let mut sel = a;
    sel.push(SELECTOR_SEPARATOR);
    push_chars(&mut sel, &b);
    sel.push(SELECTOR_SEPARATOR);
    push_chars(&mut sel, &c);
    proof {
        assert(sel@ =~= parts_selector(a@, b@, c@));
    }
    parse_stage_selector_chars(&sel)
}

/// `"https://battlecats-db"`.
pub open spec fn db_host() -> Seq<char> {
    seq!['h', 't', 't', 'p', 's', ':', '/', '/', 'b', 'a', 't', 't', 'l', 'e', 'c', 'a', 't', 's', '-', 'd', 'b']
}

/// `"com/stage/s"`.
pub open spec fn db_stage_path() -> Seq<char> {
    seq!['c', 'o', 'm', '/', 's', 't', 'a', 'g', 'e', '/', 's']
}

/// `"html"`.
pub open spec fn html() -> Seq<char> {
    seq!['h', 't', 'm', 'l']
}

/// Is `c` an ASCII digit or a hyphen?
pub open spec fn is_ref_char(c: char) -> bool {
    is_digit(c) || c == '-'
}

/// Length of the longest prefix of `s` made of digits and hyphens.
pub open spec fn ref_run_len(s: Seq<char>) -> nat
    decreases s.len(),
{
    if s.len() == 0 || !is_ref_char(s[0]) {
        0
    } else {
        1 + ref_run_len(s.drop_first())
    }
}

/// Lemma: the run measured by `ref_run_len` fits in `s` and is made of
/// digits and hyphens, and the character after it (if any) is not.
pub proof fn lemma_ref_run_len(s: Seq<char>)
    ensures
        ref_run_len(s) <= s.len(),
        forall|i: int| 0 <= i < ref_run_len(s) ==> is_ref_char(#[trigger] s[i]),
        ref_run_len(s) < s.len() ==> !is_ref_char(s[ref_run_len(s) as int]),
    decreases s.len(),
{
    if s.len() > 0 && is_ref_char(s[0]) {
        lemma_ref_run_len(s.drop_first());
        assert forall|i: int| 0 < i < ref_run_len(s) implies is_ref_char(#[trigger] s[i]) by {
            assert(s[i] == s.drop_first()[i - 1]);
        }
        if ref_run_len(s) < s.len() {
            assert(s[ref_run_len(s) as int] == s.drop_first()[ref_run_len(s) - 1]);
        }
    }
}

/// Count the leading digits and hyphens of `s`.
fn count_ref_run(s: &Vec<char>) -> (n: usize)
    ensures
        n == ref_run_len(s@),
{
    let mut i: usize = 0;
    assert(s@.skip(0) =~= s@);
    while i < s.len() && (('0' <= s[i] && s[i] <= '9') || s[i] == '-')
        invariant
            0 <= i <= s.len(),
            ref_run_len(s@) == i + ref_run_len(s@.skip(i as int)),
        decreases s.len() - i,
    {
        let ghost rest = s@.skip(i as int);
        assert(rest[0] == s@[i as int]);
        assert(rest.drop_first() =~= s@.skip(i + 1));
        i = i + 1;
    }
    proof {
        if i < s.len() {
            assert(s@.skip(i as int)[0] == s@[i as int]);
        }
    }
    i
}

/// Match of `https://battlecats-db?com/stage/(s[\d-]+)?html` at the start of
/// `t`, as the captured reference and the length of the match. The run of
/// digits and hyphens is as long as possible: it gives back its last
/// character only where that lets `html` follow.
pub open spec fn db_url_match(t: Seq<char>) -> Option<(Seq<char>, int)> {
    if t.len() >= 33 && t.subrange(0, 21) == db_host() && t[21] != '\n' && t.subrange(22, 33)
        == db_stage_path() {
        let r = ref_run_len(t.skip(33)) as int;
        if r >= 1 && t.len() >= 38 + r && t[33 + r] != '\n' && t.subrange(34 + r, 38 + r) == html() {
            Some((t.subrange(32, 33 + r), 38 + r))
        } else if r >= 2 && t.len() >= 37 + r && t.subrange(33 + r, 37 + r) == html() {
            Some((t.subrange(32, 32 + r), 37 + r))
        } else {
            None
        }
    } else {
        None
    }
}

/// Match of the full reference pattern (an optional `*` before the URL) at
/// the start of `t`.
pub open spec fn db_ref_match(t: Seq<char>) -> Option<(Seq<char>, int)> {
    if t.len() > 0 && t[0] == '*' && db_url_match(t.skip(1)) is Some {
        let (cap, n) = db_url_match(t.skip(1))->0;
        Some((cap, n + 1))
    } else {
        db_url_match(t)
    }
}

/// The reference with a leading URL replaced by the stage reference it
/// holds. (A URL further in leaves a string that is no stage reference,
/// with or without the replacement.)
pub open spec fn db_replaced(t: Seq<char>) -> Seq<char> {
    match db_ref_match(t) {
        Some((cap, n)) => cap + t.skip(n),
        None => t,
    }
}

/// Numbers `(chapter, map, stage)` of a reference `s{cc}{mmm}-{ss...}`, the
/// stage number with at least two digits.
pub open spec fn stage_ref_parts(o: Seq<char>) -> Option<(nat, nat, nat)> {
    if o.len() >= 9 && o[0] == 's' && all_digits(o.subrange(1, 6)) && o[6] == '-' && all_digits(
        o.skip(7),
    ) {
        Some((digits_value(o.subrange(1, 3)), digits_value(o.subrange(3, 6)), digits_value(o.skip(7))))
    } else {
        None
    }
}

/// Result of parsing a battlecats-db reference: the stage numbers are one
/// past the stage's own number.
pub open spec fn spec_parse_stage_ref(t: Seq<char>) -> Result<(StageVariantID, int, int), StageTypeParseError> {
    match stage_ref_parts(db_replaced(t)) {
        None => Err(StageTypeParseError::InvalidFormat),
        Some((ch, map, st)) => Ok((StageVariant::spec_from_num(ch as u32)->0, map as int, st - 1)),
    }
}

/// A reference that the parser handles without failing: its stage number
/// is at least one and fits in a `u32`, and its chapter is a variant.
pub open spec fn stage_ref_ok(t: Seq<char>) -> bool {
    match stage_ref_parts(db_replaced(t)) {
        None => true,
        Some((ch, map, st)) => 1 <= st <= u32::MAX && StageVariant::spec_from_num(ch as u32) is Some,
    }
}

/// Lemma: a nonempty digit string whose value fits in a `u32` parses to
/// that value.
proof fn lemma_parse_digits(d: Seq<char>)
    requires
        d.len() > 0,
        all_digits(d),
        digits_value(d) <= u32::MAX,
    ensures
        parse_u32(d) == Some(digits_value(d) as u32),
{
    assert(is_digit(d[0]));
}

/// Parse a battlecats-db reference (`s{cc}{mmm}-{ss}` or a link to its page)
/// into a [`StageID`].
pub fn parse_stage_ref(reference: &str) -> (r: Result<StageID, StageTypeParseError>)
    requires
        stage_ref_ok(reference@),
    ensures
        stage_result(r) == spec_parse_stage_ref(reference@),
{
    let t = chars_of(reference);
    let o = replace_db_url(&t);
    if !(o.len() >= 9 && o[0] == 's' && o[6] == '-') {
        return Err(StageTypeParseError::InvalidFormat);
    }
    let head = subvec(&o, 1, 6);
    let tail = subvec(&o, 7, o.len());
    if !(all_digits_exec(&head) && all_digits_exec(&tail)) {
        return Err(StageTypeParseError::InvalidFormat);
    }
    let ch_v = subvec(&o, 1, 3);
    let map_v = subvec(&o, 3, 6);
    proof {
        assert(o@.subrange(1, 6) =~= head@);
        assert(o@.skip(7) =~= tail@);
        assert forall|i: int| 0 <= i < 2 implies is_digit(#[trigger] ch_v@[i]) by {
            assert(ch_v@[i] == head@[i]);
        }
        assert forall|i: int| 0 <= i < 3 implies is_digit(#[trigger] map_v@[i]) by {
            assert(map_v@[i] == head@[i + 2]);
        }
        assert(digits_value(ch_v@) < 100) by {
            reveal_with_fuel(digits_value, 3);
        }
        assert(digits_value(map_v@) < 1000) by {
            reveal_with_fuel(digits_value, 4);
        }
        lemma_parse_digits(ch_v@);
        lemma_parse_digits(map_v@);
        lemma_parse_digits(tail@);
    }
    let chapter: u32 = parse_u32_chars(&ch_v).unwrap();
    let submap: u32 = parse_u32_chars(&map_v).unwrap();
    let stage: u32 = parse_u32_chars(&tail).unwrap() - 1;
    Ok(StageID::from_numbers(chapter, submap, stage))
}

/// Are all characters of `s` ASCII digits?
pub(crate) fn all_digits_exec(s: &Vec<char>) -> (b: bool)
    ensures
        b == all_digits(s@),
{
    let mut i: usize = 0;
    while i < s.len()
        invariant
            0 <= i <= s.len(),
            forall|k: int| 0 <= k < i ==> is_digit(#[trigger] s@[k]),
        decreases s.len() - i,
    {
        if !('0' <= s[i] && s[i] <= '9') {
            return false;
        }
        i = i + 1;
    }
    true
}

/// Does `s` hold `p` from index `at` on?
fn has_at(s: &Vec<char>, at: usize, p: &str) -> (b: bool)
    ensures
        b == (at + p@.len() <= s@.len() && s@.subrange(at as int, at + p@.len()) == p@),
{
    if at > s.len() {
        return false;
    }
    let rest = subvec(s, at, s.len());
    let b = has_prefix(&rest, p);
    proof {
        if at + p@.len() <= s@.len() {
            assert(rest@.subrange(0, p@.len() as int) =~= s@.subrange(at as int, at + p@.len()));
        }
    }
    b
}

/// Executable [`db_url_match`] on the characters of `t` from `at` on.
fn match_db_url(t: &Vec<char>, at: usize) -> (r: Option<(Vec<char>, usize)>)
    requires
        at <= t.len(),
    ensures
        match r {
            Some((cap, n)) => db_url_match(t@.skip(at as int)) == Some((cap@, n as int)) && at + n <= t.len(),
            None => db_url_match(t@.skip(at as int)) is None,
        },
{
    let u = subvec(t, at, t.len());
    assert(u@ =~= t@.skip(at as int));
    proof {
        reveal_strlit("https://battlecats-db");
        reveal_strlit("com/stage/s");
        reveal_strlit("html");
        assert("https://battlecats-db"@ =~= db_host());
        assert("com/stage/s"@ =~= db_stage_path());
        assert("html"@ =~= html());
    }
    if !(u.len() >= 33 && has_at(&u, 0, "https://battlecats-db") && u[21] != '\n' && has_at(&u, 22, "com/stage/s")) {
        return None;
    }
    let tail = subvec(&u, 33, u.len());
    assert(tail@ =~= u@.skip(33));
    let r = count_ref_run(&tail);
    proof {
        lemma_ref_run_len(u@.skip(33));
    }
    if r >= 1 && tail.len() - r >= 5 && u[33 + r] != '\n' && has_at(&u, 34 + r, "html") {
        return Some((subvec(&u, 32, 33 + r), 38 + r));
    }
    if r >= 2 && tail.len() - r >= 4 && has_at(&u, 33 + r, "html") {
        return Some((subvec(&u, 32, 32 + r), 37 + r));
    }
    None
}

/// Executable [`db_replaced`].
pub(crate) fn replace_db_url(t: &Vec<char>) -> (o: Vec<char>)
    ensures
        o@ == db_replaced(t@),
{
    assert(t@.skip(0) =~= t@);
    let m = if t.len() > 0 && t[0] == '*' {
        match match_db_url(t, 1) {
            Some((cap, n)) => Some((cap, n + 1)),
            None => match_db_url(t, 0),
        }
    } else {
        match_db_url(t, 0)
    };
    match m {
        Some((cap, n)) => {
            let mut o = cap;
            let rest = subvec(t, n, t.len());
            push_chars(&mut o, &rest);
            assert(rest@ =~= t@.skip(n as int));
            o
        },
        None => subvec(t, 0, t.len()),
    }
}

/// Result of parsing a string of unknown format: the first of the file
/// name, selector and reference readings that succeeds.
pub open spec fn spec_parse_general_stage_id(s: Seq<char>) -> Option<(StageVariantID, int, int)> {
    match spec_parse_stage_file(s) {
        Ok(x) => Some(x),
        Err(_) => match spec_parse_stage_selector(s) {
            Ok(x) => Some(x),
            Err(_) => match spec_parse_stage_ref(s) {
                Ok(x) => Some(x),
                Err(_) => None,
            },
        },
    }
}

/// A string on which every reading that is tried succeeds or fails without
/// panicking.
pub open spec fn general_stage_ok(s: Seq<char>) -> bool {
    &&& stage_file_ok(s)
    &&& spec_parse_stage_file(s) is Err ==> map_selector_ok(s)
    &&& (spec_parse_stage_file(s) is Err && spec_parse_stage_selector(s) is Err) ==> stage_ref_ok(s)
}

/// Parse string of unknown format into a [`StageID`].
pub fn parse_general_stage_id(selector: &str) -> (r: Option<StageID>)
    requires
        general_stage_ok(selector@),
    ensures
        match r {
            Some(s) => spec_parse_general_stage_id(selector@) == Some(
                (s.spec_map().spec_variant(), s.spec_map().spec_num() as int, s.spec_num() as int),
            ),
            None => spec_parse_general_stage_id(selector@) is None,
        },
{
    if let Ok(st) = parse_stage_file(selector) {
        return Some(st);
    }
    if let Ok(st) = parse_stage_selector(selector) {
        return Some(st);
    }
    if let Ok(st) = parse_stage_ref(selector) {
        return Some(st);
    }
    None
}

/// Split a stage file name into its parts `(code, map, stage)`.
pub(crate) fn split_stage_file(f: &Vec<char>) -> (r: (Vec<char>, Vec<char>, Vec<char>))
    requires
        stage_file_parts(f@) is Some,
    ensures
        stage_file_parts(f@) == Some((r.0@, r.1@, r.2@)),
{
    let x = subvec(f, 5, f.len() - 4);
    let k = find_last(&x, '_').unwrap();
    let p = subvec(&x, 0, k);
    let c = subvec(&x, k + 1, x.len());
    let j = count_non_decimal_prefix(&p);
    let a = subvec(&p, 0, j);
    let b = subvec(&p, j, p.len());
    (a, b, c)
}

} // verus!
