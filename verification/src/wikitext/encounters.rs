//! Write out the encounters of an enemy.

pub mod chapter;
pub mod order;
pub mod section;

use crate::stage::stage_data::csv_types::StageEnemyCSV;
use crate::stage::stage_data::StageData;
use crate::stage::stage_enemy::Magnification;
use crate::text::{
    append_str, chars_of, has_char, join, push_str, replace_str, replaced, str_eq, string_from, strings_view,
};
use regex::Regex;
use crate::wikitext::number_utils::{en_formatted, format_en};
use vstd::prelude::*;

verus! {

/// Magnification of an enemy line: a missing hit point magnification is
/// 100%, an attack magnification of 0 or none means the same as hit points.
pub open spec fn line_magnification(e: StageEnemyCSV) -> Magnification {
    let hp = match e.magnification {
        Some(m) => m,
        None => 100u32,
    };
    match e.attack_magnification {
        Some(a) if a != 0 => Magnification::Split(hp, a),
        _ => Magnification::Single(hp),
    }
}

/// Order of magnifications: single ones first, by value, then split ones by
/// hit points and then attack.
pub open spec fn mag_lt(a: Magnification, b: Magnification) -> bool {
    match (a, b) {
        (Magnification::Single(x), Magnification::Single(y)) => x < y,
        (Magnification::Single(_), Magnification::Split(_, _)) => true,
        (Magnification::Split(_, _), Magnification::Single(_)) => false,
        (Magnification::Split(h1, a1), Magnification::Split(h2, a2)) => h1 < h2 || (h1 == h2 && a1 < a2),
    }
}

/// `s` is in strictly increasing order.
pub open spec fn mags_sorted(s: Seq<Magnification>) -> bool {
    forall|i: int, j: int| 0 <= i < j < s.len() ==> mag_lt(#[trigger] s[i], #[trigger] s[j])
}

/// Magnifications at which enemy number `abs_id` appears among `enemies`.
pub open spec fn mags_of(enemies: Seq<StageEnemyCSV>, abs_id: u32) -> Set<Magnification> {
    Set::new(
        |m: Magnification|
            exists|j: int| 0 <= j < enemies.len() && (#[trigger] enemies[j]).num == abs_id && line_magnification(enemies[j]) == m,
    )
}

/// Text of a magnification: `n%` or `hp% HP/ap% AP`, numbers grouped by
/// thousands.
pub open spec fn mag_text(m: Magnification) -> Seq<char> {
    match m {
        Magnification::Single(n) => en_formatted(n as nat) + "%"@,
        Magnification::Split(hp, ap) => en_formatted(hp as nat) + "% HP/"@ + en_formatted(ap as nat) + "% AP"@,
    }
}

/// `(m1, m2, ...)`: the texts of `s`, comma-separated, in brackets.
pub open spec fn mags_text(s: Seq<Magnification>) -> Seq<char> {
    seq!['('] + join(Seq::new(s.len(), |i: int| mag_text(s[i])), ", "@) + seq![')']
}

/// The stage is in the first EoC chapter, where no magnifications are shown.
pub open spec fn is_eoc_first(stage: &StageData) -> bool {
    stage.meta.type_num == 3 && stage.meta.map_num == 0
}

/// Lemma: the order of magnifications is a strict total order.
proof fn lemma_mag_order(a: Magnification, b: Magnification, c: Magnification)
    ensures
        !mag_lt(a, a),
        mag_lt(a, b) && mag_lt(b, c) ==> mag_lt(a, c),
        a != b ==> mag_lt(a, b) || mag_lt(b, a),
        mag_lt(a, b) ==> !mag_lt(b, a),
{
}

/// Law: a list of magnifications in strictly increasing order is fixed by
/// the magnifications it holds, so the list that `get_stage_mags` shows is
/// the only one its contract allows.
pub proof fn lemma_sorted_set_unique(a: Seq<Magnification>, b: Seq<Magnification>)
    requires
        mags_sorted(a),
        mags_sorted(b),
        a.to_set() == b.to_set(),
    ensures
        a == b,
    decreases a.len(),
{
    if a.len() == 0 {
        if b.len() > 0 {
            assert(b.to_set().contains(b[0]));
            assert(!a.to_set().contains(b[0]));
        }
        assert(a =~= b);
    } else {
        assert(a.to_set().contains(a[0]));
        assert(b.to_set().contains(a[0]));
        let k = choose|k: int| 0 <= k < b.len() && b[k] == a[0];
        assert(a.to_set().contains(b[0]));
        let j = choose|j: int| 0 <= j < a.len() && a[j] == b[0];
        if k > 0 {
            assert(mag_lt(b[0], b[k]));
            if j > 0 {
                assert(mag_lt(a[0], a[j]));
                lemma_mag_order(a[0], b[0], a[0]);
            } else {
                lemma_mag_order(b[0], b[0], b[0]);
            }
        }
        assert(a[0] == b[0]);
        let a1 = a.drop_first();
        let b1 = b.drop_first();
        assert forall|i: int, l: int| 0 <= i < l < a1.len() implies mag_lt(#[trigger] a1[i], #[trigger] a1[l]) by {
            assert(a1[i] == a[i + 1] && a1[l] == a[l + 1]);
        }
        assert forall|i: int, l: int| 0 <= i < l < b1.len() implies mag_lt(#[trigger] b1[i], #[trigger] b1[l]) by {
            assert(b1[i] == b[i + 1] && b1[l] == b[l + 1]);
        }
        assert forall|x: Magnification| a1.to_set().contains(x) <==> b1.to_set().contains(x) by {
            if a1.to_set().contains(x) {
                let p = choose|p: int| 0 <= p < a1.len() && a1[p] == x;
                assert(a[p + 1] == x);
                assert(mag_lt(a[0], x));
                lemma_mag_order(a[0], x, x);
                assert(b.to_set().contains(x));
                let q = choose|q: int| 0 <= q < b.len() && b[q] == x;
                assert(q != 0);
                assert(b1[q - 1] == x);
            }
            if b1.to_set().contains(x) {
                let p = choose|p: int| 0 <= p < b1.len() && b1[p] == x;
                assert(b[p + 1] == x);
                assert(mag_lt(b[0], x));
                lemma_mag_order(b[0], x, x);
                assert(a.to_set().contains(x));
                let q = choose|q: int| 0 <= q < a.len() && a[q] == x;
                assert(q != 0);
                assert(a1[q - 1] == x);
            }
        }
        assert(a1.to_set() =~= b1.to_set());
        lemma_sorted_set_unique(a1, b1);
        assert(a =~= b) by {
            assert forall|i: int| 0 <= i < a.len() implies a[i] == b[i] by {
                if i > 0 {
                    assert(a[i] == a1[i - 1]);
                    assert(b[i] == b1[i - 1]);
                }
            }
        }
    }
}

/// Magnification of an enemy line.
fn get_magnification(e: &StageEnemyCSV) -> (m: Magnification)
    ensures
        m == line_magnification(*e),
{
    let hp = match e.magnification {
        Some(m) => m,
        None => 100,
    };
    match e.attack_magnification {
        Some(a) => if a != 0 {
            Magnification::Split(hp, a)
        } else {
            Magnification::Single(hp)
        },
        None => Magnification::Single(hp),
    }
}

/// Is `a` before `b`?
fn mag_less(a: Magnification, b: Magnification) -> (r: bool)
    ensures
        r == mag_lt(a, b),
{
    match (a, b) {
        (Magnification::Single(x), Magnification::Single(y)) => x < y,
        (Magnification::Single(_), Magnification::Split(_, _)) => true,
        (Magnification::Split(_, _), Magnification::Single(_)) => false,
        (Magnification::Split(h1, a1), Magnification::Split(h2, a2)) => h1 < h2 || (h1 == h2 && a1 < a2),
    }
}

/// Add `m` to the sorted list `mags` unless it is already there.
fn insert_sorted(mags: &mut Vec<Magnification>, m: Magnification)
    requires
        mags_sorted(old(mags)@),
    ensures
        mags_sorted(final(mags)@),
        final(mags)@.to_set() == old(mags)@.to_set().insert(m),
{
    let ghost s = mags@;
    let mut i: usize = 0;
    while i < mags.len() && mag_less(mags[i], m)
        invariant
            0 <= i <= mags.len(),
            mags@ == s,
            mags_sorted(s),
            forall|p: int| 0 <= p < i ==> mag_lt(#[trigger] s[p], m),
        decreases mags.len() - i,
    {
        i = i + 1;
    }
    if i < mags.len() && mags[i] == m {
        assert(s.to_set().insert(m) =~= s.to_set()) by {
            assert(s.contains(m)) by {
                assert(s[i as int] == m);
            }
        }
        return;
    }
    proof {
        if i < s.len() {
            lemma_mag_order(s[i as int], m, m);
            assert(mag_lt(m, s[i as int]));
        }
    }
    mags.insert(i, m);
    proof {
        let t = mags@;
        assert(t =~= s.insert(i as int, m));
        assert forall|a: int, b: int| 0 <= a < b < t.len() implies mag_lt(#[trigger] t[a], #[trigger] t[b]) by {
            if a < i && b < i {
                assert(t[a] == s[a] && t[b] == s[b]);
            } else if a < i && b == i {
                assert(t[a] == s[a]);
            } else if a < i && b > i {
                assert(t[a] == s[a] && t[b] == s[b - 1]);
                if a < b - 1 {
                } else {
                    assert(b - 1 == a);
                }
            } else if a == i {
                assert(t[b] == s[b - 1]);
                if b - 1 > i {
                    lemma_mag_order(m, s[i as int], s[b - 1]);
                }
            } else {
                assert(t[a] == s[a - 1] && t[b] == s[b - 1]);
            }
        }
        assert forall|x: Magnification| t.to_set().contains(x) <==> s.to_set().insert(m).contains(x) by {
            if t.to_set().contains(x) {
                let k = choose|k: int| 0 <= k < t.len() && t[k] == x;
                if k < i {
                    assert(s[k] == x);
                } else if k > i {
                    assert(s[k - 1] == x);
                }
            }
            if s.to_set().contains(x) && x != m {
                let k = choose|k: int| 0 <= k < s.len() && s[k] == x;
                if k < i {
                    assert(t[k] == x);
                } else {
                    assert(t[k + 1] == x);
                }
            }
            if x == m {
                assert(t[i as int] == m);
            }
        }
        assert(t.to_set() =~= s.to_set().insert(m));
    }
}

/// Get the list of magnifications that enemy number `abs_enemy_id` appears
/// at in the stage, in order and without repeats (none in the first EoC
/// chapter).
pub fn get_stage_mags(stage: &StageData, abs_enemy_id: u32) -> (s: String)
    requires
        is_eoc_first(stage) || exists|j: int|
            0 <= j < stage.stage_csv_data.enemies@.len() && (#[trigger] stage.stage_csv_data.enemies@[j]).num
                == abs_enemy_id,
    ensures
        is_eoc_first(stage) ==> s@.len() == 0,
        !is_eoc_first(stage) ==> exists|ms: Seq<Magnification>|
            mags_sorted(ms) && ms.to_set() == mags_of(stage.stage_csv_data.enemies@, abs_enemy_id) && s@ == mags_text(ms),
{
    if stage.meta.type_num == 3 && stage.meta.map_num == 0 {
        return String::new();
    }
    let enemies = &stage.stage_csv_data.enemies;
    let ghost es = enemies@;
    let mut mags: Vec<Magnification> = Vec::new();
    let mut k: usize = 0;
    assert(mags@.to_set() =~= Set::<Magnification>::empty());
    while k < enemies.len()
        invariant
            0 <= k <= enemies.len(),
            es == enemies@,
            mags_sorted(mags@),
            mags@.to_set() == mags_of(es.take(k as int), abs_enemy_id),
        decreases enemies.len() - k,
    {
        let ghost before = mags@.to_set();
        if enemies[k].num == abs_enemy_id {
            let m = get_magnification(&enemies[k]);
            insert_sorted(&mut mags, m);
        }
        proof {
            let p = es.take(k + 1);
            assert forall|x: Magnification| mags_of(p, abs_enemy_id).contains(x) <==> mags@.to_set().contains(x) by {
                if mags_of(p, abs_enemy_id).contains(x) {
                    let j = choose|j: int| 0 <= j < p.len() && (#[trigger] p[j]).num == abs_enemy_id && line_magnification(p[j]) == x;
                    if j < k {
                        assert(es.take(k as int)[j] == p[j]);
                        assert(mags_of(es.take(k as int), abs_enemy_id).contains(x));
                    }
                }
                if before.contains(x) {
                    let j = choose|j: int| 0 <= j < k && (#[trigger] es.take(k as int)[j]).num == abs_enemy_id && line_magnification(es.take(k as int)[j]) == x;
                    assert(p[j] == es.take(k as int)[j]);
                }
                if es[k as int].num == abs_enemy_id && x == line_magnification(es[k as int]) {
                    assert(p[k as int] == es[k as int]);
                }
            }
            assert(mags_of(p, abs_enemy_id) =~= mags@.to_set());
        }
        k = k + 1;
    }
    assert(es.take(k as int) =~= es);
    proof {
        let j = choose|j: int| 0 <= j < es.len() && (#[trigger] es[j]).num == abs_enemy_id;
        assert(mags_of(es, abs_enemy_id).contains(line_magnification(es[j])));
        assert(mags@.to_set().contains(line_magnification(es[j])));
        assert(mags@.len() > 0);
    }
    let mut out: Vec<char> = Vec::new();
    out.push('(');
    let ghost texts = Seq::new(mags@.len(), |i: int| mag_text(mags@[i]));
    let mut i: usize = 0;
    assert(out@ =~= seq!['('] + join(texts.take(0), ", "@));
    while i < mags.len()
        invariant
            0 <= i <= mags.len(),
            texts == Seq::new(mags@.len(), |j: int| mag_text(mags@[j])),
            out@ == seq!['('] + join(texts.take(i as int), ", "@),
        decreases mags.len() - i,
    {
        if i > 0 {
            push_str(&mut out, ", ");
        }
        match mags[i] {
            Magnification::Single(n) => {
                let f = format_en(n as u64);
                push_str(&mut out, f.as_str());
                push_str(&mut out, "%");
            },
            Magnification::Split(hp, ap) => {
                let f = format_en(hp as u64);
                push_str(&mut out, f.as_str());
                push_str(&mut out, "% HP/");
                let g = format_en(ap as u64);
                push_str(&mut out, g.as_str());
                push_str(&mut out, "% AP");
            },
        }
        proof {
            let t = texts.take(i + 1);
            assert(t.drop_last() =~= texts.take(i as int));
            assert(t.last() == mag_text(mags@[i as int]));
            if i == 0 {
                assert(join(t, ", "@) == t[0]);
            }
            assert(out@ =~= seq!['('] + join(t, ", "@));
        }
        i = i + 1;
    }
    assert(texts.take(i as int) =~= texts);
    out.push(')');
    assert(out@ =~= mags_text(mags@));
    string_from(&out)
}

/// A magnification shown after a stage name: ` (` then digits, commas,
/// percent signs and spaces, ending in `%)` and a newline.
pub const PERCENTAGE_PATTERN: &'static str = " \\([\\d,%\\s]+%\\)\\n";

/// Separate hit point and attack magnifications after a stage name.
pub const SPLIT_MAGS_PATTERN: &'static str = "\\([\\d,%\\s]+% HP/[\\d,%\\s]+% AP\\)\\n";

/// What is inside the brackets of a magnification text.
pub const INNER_PATTERN: &'static str = "\\((.*)\\)\\n$";

/// The matches of `pattern` in `haystack` that `Regex::find_iter` yields:
/// the successive non-overlapping matches, left to right.
pub uninterp spec fn regex_find_all(pattern: Seq<char>, haystack: Seq<char>) -> Seq<Seq<char>>;

/// The first capture group of the first match of `pattern` in `haystack`,
/// as `Regex::captures` and `Captures::extract` give it, where the pattern
/// matches.
pub uninterp spec fn regex_first_group(pattern: Seq<char>, haystack: Seq<char>) -> Option<Seq<char>>;

#[verifier::external_body]
/// All matches of one of the magnification patterns in `haystack`: compiles
/// the pattern with `Regex::new` and collects the text of each match that
/// `Regex::find_iter` yields. The contract claims that the result is a
/// function of the pattern and haystack (named `regex_find_all`) and that
/// these patterns compile; it says nothing else of the matches.
fn find_all_matches(pattern: &str, haystack: &str) -> (v: Vec<String>)
    requires
        pattern@ == PERCENTAGE_PATTERN@ || pattern@ == SPLIT_MAGS_PATTERN@,
    ensures
        strings_view(v@) == regex_find_all(pattern@, haystack@),
{
    Regex::new(pattern).unwrap().find_iter(haystack).map(|m| m.as_str().to_string()).collect()
}

#[verifier::external_body]
/// The first capture group of the first match of the inner pattern in
/// `haystack`: compiles the pattern with `Regex::new` and calls
/// `Regex::captures` and `Captures::extract`. The contract claims that the
/// result is a function of the pattern and haystack (named
/// `regex_first_group`), that the pattern compiles and that it has exactly
/// one capture group; it says nothing else of the group.
fn first_group(pattern: &str, haystack: &str) -> (r: Option<String>)
    requires
        pattern@ == INNER_PATTERN@,
    ensures
        match r {
            Some(g) => regex_first_group(pattern@, haystack@) == Some(g@),
            None => regex_first_group(pattern@, haystack@) is None,
        },
{
    Regex::new(pattern).unwrap().captures(haystack).map(|c| c.extract::<1>().1[0].to_string())
}

/// The magnification text that every stage shows, where the enemy has
/// always appeared at one magnification: the percentage matches are all the
/// same (and there is one), none shows separate hit point and attack
/// magnifications, and the text holds a single magnification (no space
/// after its first character).
pub open spec fn always_mag(percents: Seq<Seq<char>>, splits: Seq<Seq<char>>) -> Option<Seq<char>> {
    if percents.len() > 0 && (forall|i: int| 0 <= i < percents.len() ==> #[trigger] percents[i] == percents[0])
        && splits.len() == 0 && percents[0].len() > 0 && !has_char(percents[0].skip(1), ' ') {
        Some(percents[0])
    } else {
        None
    }
}

/// Get the magnification text that every stage shows, if there is one:
/// `percents` are the magnification matches of the text and `splits` its
/// matches of separate hit point and attack magnifications.
pub fn always_mag_of(percents: &Vec<String>, splits: &Vec<String>) -> (r: Option<String>)
    ensures
        match always_mag(strings_view(percents@), strings_view(splits@)) {
            Some(m) => r matches Some(t) && t@ == m,
            None => r is None,
        },
{
    let ghost ps = strings_view(percents@);
    if percents.len() == 0 || splits.len() > 0 {
        return None;
    }
    let first = percents[0].as_str();
    let mut i: usize = 1;
    while i < percents.len()
        invariant
            1 <= i <= percents.len(),
            ps == strings_view(percents@),
            first@ == ps[0],
            forall|q: int| 0 <= q < i ==> #[trigger] ps[q] == ps[0],
        decreases percents.len() - i,
    {
        if !str_eq(percents[i].as_str(), first) {
            assert(!(forall|q: int| 0 <= q < ps.len() ==> #[trigger] ps[q] == ps[0])) by {
                assert(ps[i as int] != ps[0]);
            }
            return None;
        }
        i = i + 1;
    }
    let cs = chars_of(first);
    if cs.len() == 0 {
        assert(strings_view(percents@)[0].len() == 0);
        return None;
    }
    let mut k: usize = 1;
    while k < cs.len()
        invariant
            1 <= k <= cs.len(),
            ps == strings_view(percents@),
            ps.len() > 0,
            cs@ == ps[0],
            forall|q: int| 1 <= q < k ==> cs@[q] != ' ',
        decreases cs.len() - k,
    {
        if cs[k] == ' ' {
            assert(cs@.skip(1)[k - 1] == ' ');
            assert(has_char(cs@.skip(1), ' '));
            return None;
        }
        k = k + 1;
    }
    assert(!has_char(cs@.skip(1), ' ')) by {
        if has_char(cs@.skip(1), ' ') {
            let j = choose|j: int| 0 <= j < cs@.skip(1).len() && cs@.skip(1)[j] == ' ';
            assert(cs@[j + 1] == ' ');
        }
    }
    Some(percents[0].clone())
}

/// Note added under the collapsible heading where an enemy has always
/// appeared at one magnification.
pub open spec fn appeared_note(percentage: Seq<char>) -> Seq<char> {
    "{{Collapsible}}\nThis enemy has always appeared at "@ + percentage + " strength magnification."@
}

/// The text with every occurrence of `mag` replaced by a newline and the
/// note added under each collapsible heading.
pub open spec fn applied_always(buf: Seq<char>, mag: Seq<char>, percentage: Seq<char>) -> Seq<char> {
    replaced(replaced(buf, mag, "\n"@), "{{Collapsible}}"@, appeared_note(percentage))
}

/// Remove the magnification text `mag` after the stage names and note once
/// that the enemy has always appeared at `percentage`.
pub fn apply_always_appeared(buf: &mut String, mag: &str, percentage: &str)
    requires
        mag@.len() > 0,
    ensures
        final(buf)@ == applied_always(old(buf)@, mag@, percentage@),
{
    proof {
        reveal_strlit("{{Collapsible}}");
    }
    let stripped = replace_str(buf.as_str(), mag, "\n");
    let mut note = "{{Collapsible}}\nThis enemy has always appeared at ".to_string();
    append_str(&mut note, percentage);
    append_str(&mut note, " strength magnification.");
    *buf = replace_str(stripped.as_str(), "{{Collapsible}}", note.as_str());
}

/// The encounters text after `always_appeared_at`: where the enemy has
/// always appeared at one magnification and the inner pattern finds its
/// percentage, the magnifications are removed and the note added;
/// otherwise the text is unchanged.
pub open spec fn always_appeared_text(buf: Seq<char>) -> Seq<char> {
    match always_mag(regex_find_all(PERCENTAGE_PATTERN@, buf), regex_find_all(SPLIT_MAGS_PATTERN@, buf)) {
        None => buf,
        Some(mag) => match regex_first_group(INNER_PATTERN@, mag) {
            None => buf,
            Some(percentage) => applied_always(buf, mag, percentage),
        },
    }
}

/// If enemy has always appeared at a certain mag, then remove mags after
/// stage names and replace with single message at top.
pub fn always_appeared_at(buf: &mut String)
    ensures
        final(buf)@ == always_appeared_text(old(buf)@),
{
    let percents = find_all_matches(PERCENTAGE_PATTERN, buf.as_str());
    let splits = find_all_matches(SPLIT_MAGS_PATTERN, buf.as_str());
    let mag = match always_mag_of(&percents, &splits) {
        None => {
            return;
        },
        Some(m) => m,
    };
    let percentage = match first_group(INNER_PATTERN, mag.as_str()) {
        None => {
            return;
        },
        Some(p) => p,
    };
    apply_always_appeared(buf, mag.as_str(), percentage.as_str());
}

} // verus!
