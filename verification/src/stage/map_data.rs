//! Reading the stage lines of map data files.

use crate::text::{chars_of, string_from, subvec};
use crate::wikitext::section::{trim, trim_chars};
use vstd::prelude::*;

verus! {

/// All fixed data stored in the map file for a stage.
#[derive(Debug, Clone, Copy, PartialEq, Eq, Structural)]
pub struct StageInfoCSVFixed {
    /// Energy cost.
    pub energy: u32,
    /// XP reward.
    pub xp: u32,
    /// Starting music track.
    pub inittrack: u32,
    /// Base health percentage at which the music changes.
    pub basedrop: u32,
    /// Music track after the change.
    pub secondtrack: u32,
}

/// A possible treasure drop.
#[derive(Debug, Clone, Copy, PartialEq, Eq, Structural)]
pub struct TreasureCSV {
    /// Chance of the drop.
    pub itemchance: u32,
    /// Item dropped.
    pub itemnum: u32,
    /// Amount of the item.
    pub itemlimit: u32,
}

/// A reward for reaching a score.
#[derive(Debug, Clone, Copy, PartialEq, Eq, Structural)]
pub struct ScoreRewardsCSV {
    /// Score to reach.
    pub score: u32,
    /// Item given.
    pub item_id: u32,
    /// Amount of the item.
    pub itemquant: u32,
}

/// The data of one stage line of a map file.
#[derive(Debug, PartialEq)]
pub struct StageLine {
    /// Fixed data.
    pub fixed: StageInfoCSVFixed,
    /// Score rewards (timed score stages only).
    pub time: Vec<ScoreRewardsCSV>,
    /// Treasure drops.
    pub drop: Vec<TreasureCSV>,
    /// Treasure randomness kind.
    pub rand: i32,
}

/// Map data files.
pub struct GameMap {}

/// Is `b` an ASCII digit?
pub open spec fn is_digit_byte(b: u8) -> bool {
    48 <= b <= 57
}

/// Base-ten value of a sequence of ASCII digits.
pub open spec fn bytes_value(s: Seq<u8>) -> nat
    decreases s.len(),
{
    if s.len() == 0 {
        0
    } else {
        bytes_value(s.drop_last()) * 10 + (s.last() - 48) as nat
    }
}

/// `s` is a non-empty run of ASCII digits.
pub open spec fn all_digit_bytes(s: Seq<u8>) -> bool {
    s.len() > 0 && forall|i: int| 0 <= i < s.len() ==> is_digit_byte(#[trigger] s[i])
}

/// What `str::parse::<u32>` gives for the text `s`: an optional `+`, then
/// digits whose value fits.
pub open spec fn std_u32(s: Seq<u8>) -> Option<u32> {
    let d = if s.len() > 0 && s[0] == 43u8 { s.drop_first() } else { s };
    if all_digit_bytes(d) && bytes_value(d) <= u32::MAX {
        Some(bytes_value(d) as u32)
    } else {
        None
    }
}

/// What `str::parse::<i32>` gives for the text `s`: an optional sign, then
/// digits whose signed value fits.
pub open spec fn std_i32(s: Seq<u8>) -> Option<i32> {
    if s.len() > 0 && s[0] == 45u8 {
        let d = s.drop_first();
        if all_digit_bytes(d) && bytes_value(d) <= 0x8000_0000 {
            Some((0 - bytes_value(d)) as i32)
        } else {
            None
        }
    } else {
        let d = if s.len() > 0 && s[0] == 43u8 { s.drop_first() } else { s };
        if all_digit_bytes(d) && bytes_value(d) <= 0x7fff_ffff {
            Some(bytes_value(d) as i32)
        } else {
            None
        }
    }
}

/// Value of a field that parses.
pub open spec fn field_u32(s: Seq<u8>) -> u32 {
    std_u32(s).unwrap()
}

/// Fields of a record.
pub open spec fn record_view(r: Seq<Vec<u8>>) -> Seq<Seq<u8>> {
    Seq::new(r.len(), |i: int| r[i]@)
}

/// The stage is a timed score stage: more than 15 fields, fields 8 to 14 all
/// `-2`.
pub open spec fn is_time(r: Seq<Seq<u8>>) -> bool {
    r.len() > 15 && forall|i: int| 8 <= i < 15 ==> #[trigger] r[i] == seq![45u8, 50u8]
}

/// The stage has several treasure drops.
pub open spec fn is_multi(r: Seq<Seq<u8>>) -> bool {
    !is_time(r) && r.len() > 9
}

/// Number of score rewards of a timed stage.
pub open spec fn time_len(r: Seq<Seq<u8>>) -> int {
    (r.len() - 17) / 3
}

/// Number of treasure drops of a stage with several.
pub open spec fn drop_len(r: Seq<Seq<u8>>) -> int {
    (r.len() - 7) / 3
}

/// First field of treasure drop `i` of a stage with several (the first drop
/// is at field 5, the rest from field 9 on).
pub open spec fn drop_start(i: int) -> int {
    if i == 0 {
        5
    } else {
        6 + i * 3
    }
}

/// The score rewards of a stage line.
pub open spec fn time_of(r: Seq<Seq<u8>>) -> Seq<(u32, u32, u32)> {
    if is_time(r) {
        Seq::new(
            time_len(r) as nat,
            |i: int| (field_u32(r[16 + i * 3]), field_u32(r[17 + i * 3]), field_u32(r[18 + i * 3])),
        )
    } else {
        Seq::empty()
    }
}

/// The treasure drops of a stage line.
pub open spec fn drop_of(r: Seq<Seq<u8>>) -> Seq<(u32, u32, u32)> {
    if r.len() == 6 {
        Seq::empty()
    } else if !is_multi(r) {
        seq![(field_u32(r[5]), field_u32(r[6]), field_u32(r[7]))]
    } else {
        Seq::new(
            drop_len(r) as nat,
            |i: int|
                (
                    field_u32(r[drop_start(i)]),
                    field_u32(r[drop_start(i) + 1]),
                    field_u32(r[drop_start(i) + 2]),
                ),
        )
    }
}

/// The treasure randomness kind of a stage line.
pub open spec fn rand_of(r: Seq<Seq<u8>>) -> i32 {
    if r.len() != 6 && is_multi(r) {
        std_i32(r[8]).unwrap()
    } else {
        0
    }
}

/// The first `k` score rewards of a timed stage line parse.
pub open spec fn time_fields_ok(r: Seq<Seq<u8>>, k: int) -> bool {
    forall|i: int|
        0 <= i < k ==> std_u32(#[trigger] r[16 + i * 3]) is Some && std_u32(r[17 + i * 3]) is Some && std_u32(
            r[18 + i * 3],
        ) is Some
}

/// The first `k` treasure drops of a stage line with several parse.
pub open spec fn drop_fields_ok(r: Seq<Seq<u8>>, k: int) -> bool {
    forall|i: int|
        0 <= i < k ==> std_u32(#[trigger] r[drop_start(i)]) is Some && std_u32(r[drop_start(i) + 1]) is Some
            && std_u32(r[drop_start(i) + 2]) is Some
}

/// A stage line can be read: it has six fields or at least eight, a timed
/// stage has score rewards after field 16, and every field read parses.
pub open spec fn stage_line_ok(r: Seq<Seq<u8>>) -> bool {
    &&& r.len() >= 5
    &&& (r.len() == 6 || r.len() >= 8)
    &&& !(is_time(r) && r.len() == 16)
    &&& (is_time(r) ==> time_fields_ok(r, time_len(r)))
    &&& (r.len() != 6 && !is_multi(r) ==> std_u32(r[5]) is Some && std_u32(r[6]) is Some && std_u32(r[7]) is Some)
    &&& (r.len() != 6 && is_multi(r) ==> std_i32(r[8]) is Some && drop_fields_ok(r, drop_len(r)))
}

/// Views of score rewards.
pub open spec fn scores_view(v: Seq<ScoreRewardsCSV>) -> Seq<(u32, u32, u32)> {
    Seq::new(v.len(), |i: int| (v[i].score, v[i].item_id, v[i].itemquant))
}

/// Views of treasure drops.
pub open spec fn drops_view(v: Seq<TreasureCSV>) -> Seq<(u32, u32, u32)> {
    Seq::new(v.len(), |i: int| (v[i].itemchance, v[i].itemnum, v[i].itemlimit))
}

/// Parse a field as `str::parse::<u32>` does.
pub fn parse_u32_bytes(s: &Vec<u8>) -> (r: Option<u32>)
    ensures
        r == std_u32(s@),
{
    let start: usize = if s.len() > 0 && s[0] == 43u8 { 1 } else { 0 };
    let ghost d = s@.skip(start as int);
    assert(d =~= if s@.len() > 0 && s@[0] == 43u8 { s@.drop_first() } else { s@ });
    if start >= s.len() {
        return None;
    }
    let mut acc: u64 = 0;
    let mut i: usize = start;
    assert(d.take(0) =~= Seq::<u8>::empty());
    while i < s.len()
        invariant
            start <= i <= s.len(),
            start < s.len(),
            d == s@.skip(start as int),
            d == if s@.len() > 0 && s@[0] == 43u8 { s@.drop_first() } else { s@ },
            acc as nat == bytes_value(d.take(i - start)),
            acc <= u32::MAX,
            forall|j: int| 0 <= j < i - start ==> is_digit_byte(#[trigger] d[j]),
        decreases s.len() - i,
    {
        let b = s[i];
        if b < 48 || b > 57 {
            assert(!is_digit_byte(d[i - start]));
            return None;
        }
        let ghost t = d.take(i - start + 1);
        assert(t.drop_last() =~= d.take(i - start));
        assert(t.last() == b);
        let next: u64 = acc * 10 + (b - 48) as u64;
        if next > 0xffff_ffff {
            proof {
                if all_digit_bytes(d) {
                    lemma_bytes_value_prefix_le(d, (i - start + 1) as nat);
                }
            }
            return None;
        }
        acc = next;
        i = i + 1;
    }
    assert(d.take(i - start) =~= d);
    Some(acc as u32)
}

/// Lemma: the value of a run of digits is at least that of each prefix.
pub proof fn lemma_bytes_value_prefix_le(d: Seq<u8>, k: nat)
    requires
        k <= d.len(),
        forall|j: int| 0 <= j < d.len() ==> is_digit_byte(#[trigger] d[j]),
    ensures
        bytes_value(d.take(k as int)) <= bytes_value(d),
    decreases d.len() - k,
{
    if k < d.len() {
        lemma_bytes_value_prefix_le(d, k + 1);
        let t = d.take(k as int + 1);
        assert(t.drop_last() =~= d.take(k as int));
        assert(is_digit_byte(d[k as int]));
    } else {
        assert(d.take(k as int) =~= d);
    }
}

/// Parse a field as `str::parse::<i32>` does.
pub fn parse_i32_bytes(s: &Vec<u8>) -> (r: Option<i32>)
    ensures
        r == std_i32(s@),
{
    if s.len() > 0 && s[0] == 45u8 {
        let mut rest: Vec<u8> = Vec::new();
        let mut i: usize = 1;
        while i < s.len()
            invariant
                1 <= i <= s.len(),
                rest@ == s@.subrange(1, i as int),
            decreases s.len() - i,
        {
            rest.push(s[i]);
            assert(rest@ =~= s@.subrange(1, i + 1));
            i = i + 1;
        }
        assert(rest@ =~= s@.drop_first());
        if rest.len() > 0 && rest[0] == 43u8 {
            assert(!all_digit_bytes(rest@));
            return None;
        }
        assert(if rest@.len() > 0 && rest@[0] == 43u8 { rest@.drop_first() } else { rest@ } == rest@);
        match parse_u32_bytes(&rest) {
            None => None,
            Some(v) => {
                if v > 0x8000_0000 {
                    None
                } else if v == 0x8000_0000 {
                    Some(-2147483648i32)
                } else {
                    Some(0 - (v as i32))
                }
            },
        }
    } else {
        match parse_u32_bytes(s) {
            None => None,
            Some(v) => {
                if v > 0x7fff_ffff {
                    None
                } else {
                    Some(v as i32)
                }
            },
        }
    }
}

/// Index of the first `"//"` in `s`.
pub open spec fn find_comment(s: Seq<char>) -> Option<int>
    decreases s.len(),
{
    if s.len() < 2 {
        None
    } else if s[0] == '/' && s[1] == '/' {
        Some(0)
    } else {
        match find_comment(s.drop_first()) {
            Some(i) => Some(i + 1),
            None => None,
        }
    }
}

/// `s` without its comment (from the first `"//"` on).
pub open spec fn before_comment(s: Seq<char>) -> Seq<char> {
    match find_comment(s) {
        Some(i) => s.take(i),
        None => s,
    }
}

/// A stage line without its comment, trimmed, without one trailing comma;
/// `None` where nothing is left.
pub open spec fn cleaned_line(s: Seq<char>) -> Option<Seq<char>> {
    let t = trim(before_comment(s));
    if t.len() == 0 {
        None
    } else if t.last() == ',' {
        Some(t.drop_last())
    } else {
        Some(t)
    }
}

/// Lemma: `find_comment` stays within `s`.
proof fn lemma_find_comment(s: Seq<char>)
    ensures
        find_comment(s) matches Some(i) ==> 0 <= i && i + 1 < s.len(),
    decreases s.len(),
{
    if s.len() >= 2 {
        lemma_find_comment(s.drop_first());
    }
}

/// Find the first `"//"` in `s`.
fn find_comment_exec(s: &Vec<char>) -> (r: Option<usize>)
    ensures
        match r {
            Some(i) => find_comment(s@) == Some(i as int) && i + 1 < s.len(),
            None => find_comment(s@) is None,
        },
{
    proof {
        lemma_find_comment(s@);
    }
    let mut i: usize = 0;
    assert(s@.skip(0) =~= s@);
    while s.len() > 1 && i < s.len() - 1
        invariant
            0 <= i <= s.len(),
            find_comment(s@) == match find_comment(s@.skip(i as int)) {
                Some(k) => Some(k + i),
                None => None,
            },
        decreases s.len() - i,
    {
        let ghost rest = s@.skip(i as int);
        assert(rest[0] == s@[i as int] && rest[1] == s@[i + 1]);
        if s[i] == '/' && s[i + 1] == '/' {
            return Some(i);
        }
        assert(rest.drop_first() =~= s@.skip(i + 1));
        i = i + 1;
    }
    assert(s@.skip(i as int).len() < 2);
    None
}

impl GameMap {
    /// Prepare a stage line of a map file for reading: drop its comment,
    /// trim it and drop one trailing comma; `None` where nothing is left.
    pub fn clean_stage_line(line: &str) -> (r: Option<String>)
        ensures
            match r {
                Some(t) => cleaned_line(line@) == Some(t@),
                None => cleaned_line(line@) is None,
            },
    {
        let cs = chars_of(line);
        let cut: usize = match find_comment_exec(&cs) {
            Some(i) => i,
            None => cs.len(),
        };
        proof {
            if cut == cs.len() {
                assert(cs@.take(cut as int) =~= cs@);
            }
        }
        let before = subvec(&cs, 0, cut);
        assert(before@ =~= before_comment(line@));
        let t = trim_chars(&before);
        if t.len() == 0 {
            return None;
        }
        if t[t.len() - 1] == ',' {
            let u = subvec(&t, 0, t.len() - 1);
            assert(u@ =~= t@.drop_last());
            Some(string_from(&u))
        } else {
            Some(string_from(&t))
        }
    }

    /// Read a stage line: `fixed` holds its first five fields, `record` all of
    /// its fields.
    pub fn parse_stage_line(fixed: StageInfoCSVFixed, record: &Vec<Vec<u8>>) -> (l: StageLine)
        requires
            stage_line_ok(record_view(record@)),
        ensures
            l.fixed == fixed,
            scores_view(l.time@) == time_of(record_view(record@)),
            drops_view(l.drop@) == drop_of(record_view(record@)),
            l.rand == rand_of(record_view(record@)),
    {
        match Self::try_parse_stage_line(fixed, record) {
            Some(l) => l,
            None => StageLine { fixed, time: Vec::new(), drop: Vec::new(), rand: 0 },
        }
    }

    /// Read a stage line as `parse_stage_line` does, or `None` where it
    /// cannot be read.
    pub fn try_parse_stage_line(fixed: StageInfoCSVFixed, record: &Vec<Vec<u8>>) -> (r: Option<StageLine>)
        ensures
            match r {
                Some(l) => {
                    &&& stage_line_ok(record_view(record@))
                    &&& l.fixed == fixed
                    &&& scores_view(l.time@) == time_of(record_view(record@))
                    &&& drops_view(l.drop@) == drop_of(record_view(record@))
                    &&& l.rand == rand_of(record_view(record@))
                },
                None => !stage_line_ok(record_view(record@)),
            },
    {
        let ghost r = record_view(record@);
        let n = record.len();
        if !(n == 6 || n >= 8) {
            return None;
        }
        let mut timed = n > 15;
        let mut i: usize = 8;
        while timed && i < 15
            invariant
                8 <= i <= 15,
                n == record.len(),
                r == record_view(record@),
                timed ==> n > 15,
                timed ==> forall|j: int| 8 <= j < i ==> #[trigger] r[j] == seq![45u8, 50u8],
                !timed ==> !is_time(r),
            decreases 15 - i,
        {
            let f = &record[i];
            if !(f.len() == 2 && f[0] == 45u8 && f[1] == 50u8) {
                assert(r[i as int] != seq![45u8, 50u8]) by {
                    if r[i as int] == seq![45u8, 50u8] {
                        assert(f@ == r[i as int]);
                    }
                }
                timed = false;
                i = i + 1;
            } else {
                assert(r[i as int] =~= seq![45u8, 50u8]);
                i = i + 1;
            }
        }
        assert(timed == is_time(r));
        if timed && n == 16 {
            return None;
        }
        let mut time: Vec<ScoreRewardsCSV> = Vec::new();
        if timed {
            let tl = (n - 17) / 3;
            let mut i: usize = 0;
            while i < tl
                invariant
                    0 <= i <= tl,
                    tl == time_len(r),
                    n == record.len(),
                    n >= 17,
                    r == record_view(record@),
                    is_time(r),
                    time_fields_ok(r, i as int),
                    scores_view(time@) == time_of(r).take(i as int),
                decreases tl - i,
            {
                assert(record@[16 + i * 3]@ == r[16 + i * 3]);
                assert(record@[17 + i * 3]@ == r[17 + i * 3]);
                assert(record@[18 + i * 3]@ == r[18 + i * 3]);
                let score = parse_u32_bytes(&record[16 + i * 3]);
                let item_id = parse_u32_bytes(&record[17 + i * 3]);
                let itemquant = parse_u32_bytes(&record[18 + i * 3]);
                if score.is_none() || item_id.is_none() || itemquant.is_none() {
                    assert(!time_fields_ok(r, time_len(r))) by {
                        assert(std_u32(r[16 + i * 3]) is None || std_u32(r[17 + i * 3]) is None || std_u32(r[18 + i * 3]) is None);
                    }
                    return None;
                }
                let ghost before = scores_view(time@);
                time.push(
                    ScoreRewardsCSV { score: score.unwrap(), item_id: item_id.unwrap(), itemquant: itemquant.unwrap() },
                );
                assert(time_of(r)[i as int] == (field_u32(r[16 + i * 3]), field_u32(r[17 + i * 3]), field_u32(r[18 + i * 3])));
                assert(scores_view(time@) =~= before.push(time_of(r)[i as int]));
                assert(time_of(r).take(i + 1) =~= time_of(r).take(i as int).push(time_of(r)[i as int]));
                i = i + 1;
            }
            assert(time_of(r).take(tl as int) =~= time_of(r));
        } else {
            assert(scores_view(time@) =~= time_of(r));
        }
        let multi = !timed && n > 9;
        let mut rand: i32 = 0;
        let mut drop: Vec<TreasureCSV> = Vec::new();
        if n == 6 {
            assert(drops_view(drop@) =~= drop_of(r));
        } else if !multi {
            assert(record@[5]@ == r[5] && record@[6]@ == r[6] && record@[7]@ == r[7]);
            let c = parse_u32_bytes(&record[5]);
            let m = parse_u32_bytes(&record[6]);
            let a = parse_u32_bytes(&record[7]);
            if c.is_none() || m.is_none() || a.is_none() {
                return None;
            }
            drop.push(TreasureCSV { itemchance: c.unwrap(), itemnum: m.unwrap(), itemlimit: a.unwrap() });
            assert(drops_view(drop@) =~= drop_of(r));
        } else {
            let dl = (n - 7) / 3;
            assert(record@[8]@ == r[8]);
            rand = match parse_i32_bytes(&record[8]) {
                Some(v) => v,
                None => {
                    return None;
                },
            };
            let mut i: usize = 0;
            while i < dl
                invariant
                    0 <= i <= dl,
                    dl == drop_len(r),
                    n == record.len(),
                    n >= 10,
                    r == record_view(record@),
                    is_multi(r),
                    drop_fields_ok(r, i as int),
                    drops_view(drop@) == drop_of(r).take(i as int),
                decreases dl - i,
            {
                let s: usize = if i == 0 { 5 } else { 6 + i * 3 };
                assert(s == drop_start(i as int));
                assert(record@[s as int]@ == r[s as int]);
                assert(record@[s + 1]@ == r[s + 1]);
                assert(record@[s + 2]@ == r[s + 2]);
                let c = parse_u32_bytes(&record[s]);
                let m = parse_u32_bytes(&record[s + 1]);
                let a = parse_u32_bytes(&record[s + 2]);
                if c.is_none() || m.is_none() || a.is_none() {
                    assert(!drop_fields_ok(r, drop_len(r))) by {
                        assert(std_u32(r[drop_start(i as int)]) is None || std_u32(r[drop_start(i as int) + 1]) is None
                            || std_u32(r[drop_start(i as int) + 2]) is None);
                    }
                    return None;
                }
                let ghost before = drops_view(drop@);
                drop.push(TreasureCSV { itemchance: c.unwrap(), itemnum: m.unwrap(), itemlimit: a.unwrap() });
                assert(drop_of(r)[i as int] == (field_u32(r[s as int]), field_u32(r[s + 1]), field_u32(r[s + 2])));
                assert(drops_view(drop@) =~= before.push(drop_of(r)[i as int]));
                assert(drop_of(r).take(i + 1) =~= drop_of(r).take(i as int).push(drop_of(r)[i as int]));
                i = i + 1;
            }
            assert(drop_of(r).take(dl as int) =~= drop_of(r));
        }
        Some(StageLine { fixed, time, drop, rand })
    }
}

} // verus!
