//! Pieces of gauntlet pages: ranges of stages, the enemies of a gauntlet and
//! the magnifications each appears at.

use crate::stage::parsed::stage::Stage;
use crate::stage::stage_enemy::{Magnification, StageEnemy};
use crate::text::{
    append_chars, append_str, chars_of, decimal, ends_with, push_decimal, starts_with,
    string_from, strings_view, subvec,
};
use crate::wiki_data::enemy_data::EnemyDataContainer;
use crate::wiki_data::rewards::TreasureMap;
use crate::wikitext::encounters::mag_text;
use crate::wikitext::number_utils::{en_formatted, format_en};
use crate::wikitext::stage_info::internal::information::{
    base_hp, base_hp_ok, base_hp_params, energy, energy_value, xp, RANKING_DOJO_TYPE_NUM,
};
use crate::wikitext::stage_info::internal::treasure::{treasure, treasure_named, treasure_text};
use crate::wikitext::template::params_view;
use vstd::prelude::*;

verus! {

/// Ranges of consecutive ids, from index `k` on, the current range having
/// started at `min`.
pub open spec fn ranges_from(ids: Seq<u32>, k: int, min: u32) -> Seq<(u32, u32)>
    decreases ids.len() - k,
{
    if k < 0 || k >= ids.len() {
        Seq::empty()
    } else if k == ids.len() - 1 {
        seq![(min, ids[k])]
    } else if ids[k + 1] != ids[k] + 1 {
        seq![(min, ids[k])] + ranges_from(ids, k + 1, ids[k + 1])
    } else {
        ranges_from(ids, k + 1, min)
    }
}

/// Ranges of consecutive ids: `ids` split wherever an id is not one more
/// than the one before, each part given by its first and last id.
pub open spec fn id_ranges(ids: Seq<u32>) -> Seq<(u32, u32)> {
    ranges_from(ids, 0, ids[0])
}

/// Get the ranges of consecutive ids in `ids`.
pub fn get_ranges(ids: &Vec<u32>) -> (r: Vec<(u32, u32)>)
    requires
        ids.len() >= 1,
        forall|k: int| 0 <= k < ids.len() - 1 ==> #[trigger] ids[k] < u32::MAX,
    ensures
        r@ == id_ranges(ids@),
{
    let mut range_min = ids[0];
    let mut ranges: Vec<(u32, u32)> = Vec::new();
    let mut k: usize = 0;
    while k < ids.len()
        invariant
            0 <= k <= ids.len(),
            ids.len() >= 1,
            forall|j: int| 0 <= j < ids.len() - 1 ==> #[trigger] ids[j] < u32::MAX,
            id_ranges(ids@) == ranges@ + ranges_from(ids@, k as int, range_min),
        decreases ids.len() - k,
    {
        let id = ids[k];
        if k + 1 == ids.len() {
            ranges.push((range_min, id));
        } else {
            let next = ids[k + 1];
            if next != id + 1 {
                ranges.push((range_min, id));
                range_min = next;
            }
        }
        proof {
            assert(ranges@ + ranges_from(ids@, k + 1, range_min) =~= id_ranges(ids@));
        }
        k = k + 1;
    }
    assert(ranges@ + Seq::<(u32, u32)>::empty() =~= ranges@);
    ranges
}

/// The ids of a range, from its first to its last.
pub open spec fn range_ids(r: (u32, u32)) -> Seq<u32> {
    Seq::new((r.1 - r.0 + 1) as nat, |i: int| (r.0 + i) as u32)
}

/// The ids of each range, one range after another.
pub open spec fn ranges_ids(rs: Seq<(u32, u32)>) -> Seq<u32>
    decreases rs.len(),
{
    if rs.len() == 0 {
        Seq::empty()
    } else {
        range_ids(rs[0]) + ranges_ids(rs.drop_first())
    }
}

/// Lemma: from a run of consecutive ids that began at index `j`, the
/// remaining ranges give back the ids from `j` on.
proof fn lemma_ranges_from_ids(ids: Seq<u32>, k: int, j: int)
    requires
        0 <= j <= k < ids.len(),
        forall|t: int| j <= t <= k ==> #[trigger] ids[t] == ids[j] + (t - j),
    ensures
        ranges_ids(ranges_from(ids, k, ids[j])) == ids.skip(j),
    decreases ids.len() - k,
{
    let run = range_ids((ids[j], ids[k]));
    assert(run =~= ids.subrange(j, k + 1)) by {
        assert forall|t: int| 0 <= t < run.len() implies run[t] == ids.subrange(j, k + 1)[t] by {
            assert(ids[j + t] == ids[j] + t);
        }
    }
    if k == ids.len() - 1 {
        assert(ranges_from(ids, k, ids[j]) == seq![(ids[j], ids[k])]);
        assert(seq![(ids[j], ids[k])].drop_first() =~= Seq::<(u32, u32)>::empty());
        assert(ranges_ids(seq![(ids[j], ids[k])]) =~= run + ranges_ids(Seq::<(u32, u32)>::empty()));
        assert(ids.subrange(j, k + 1) =~= ids.skip(j));
    } else if ids[k + 1] != ids[k] + 1 {
        let rest = ranges_from(ids, k + 1, ids[k + 1]);
        assert(ranges_from(ids, k, ids[j]) == seq![(ids[j], ids[k])] + rest);
        assert((seq![(ids[j], ids[k])] + rest).drop_first() =~= rest);
        lemma_ranges_from_ids(ids, k + 1, k + 1);
        assert(ids.subrange(j, k + 1) + ids.skip(k + 1) =~= ids.skip(j));
    } else {
        lemma_ranges_from_ids(ids, k + 1, j);
    }
}

/// Law: the ranges of a list of ids give back the ids, range after range.
pub proof fn law_ranges_give_ids(ids: Seq<u32>)
    requires
        ids.len() >= 1,
    ensures
        ranges_ids(id_ranges(ids)) == ids,
{
    lemma_ranges_from_ids(ids, 0, 0);
    assert(ids.skip(0) =~= ids);
}

/// Are the ids of `ids` strictly increasing?
pub open spec fn strictly_increasing(ids: Seq<u32>) -> bool {
    forall|a: int, b: int| 0 <= a < b < ids.len() ==> ids[a] < ids[b]
}

/// Lemma: the ranges from index `k` on start at `min`, end at the last id,
/// and no range ends just before the next one starts; on increasing ids
/// each range is ordered and ends below the next one's start.
proof fn lemma_ranges_from_runs(ids: Seq<u32>, k: int, min: u32)
    requires
        0 <= k < ids.len(),
        strictly_increasing(ids) ==> min <= ids[k],
    ensures
        ranges_from(ids, k, min).len() >= 1,
        ranges_from(ids, k, min)[0].0 == min,
        ranges_from(ids, k, min).last().1 == ids.last(),
        forall|i: int| 0 <= i < ranges_from(ids, k, min).len() - 1
            ==> #[trigger] ranges_from(ids, k, min)[i].1 + 1 != ranges_from(ids, k, min)[i + 1].0,
        strictly_increasing(ids) ==> forall|i: int| 0 <= i < ranges_from(ids, k, min).len()
            ==> #[trigger] ranges_from(ids, k, min)[i].0 <= ranges_from(ids, k, min)[i].1,
        strictly_increasing(ids) ==> forall|i: int| 0 <= i < ranges_from(ids, k, min).len() - 1
            ==> #[trigger] ranges_from(ids, k, min)[i].1 < ranges_from(ids, k, min)[i + 1].0,
    decreases ids.len() - k,
{
    let r = ranges_from(ids, k, min);
    if k == ids.len() - 1 {
    } else if ids[k + 1] != ids[k] + 1 {
        lemma_ranges_from_runs(ids, k + 1, ids[k + 1]);
        let rest = ranges_from(ids, k + 1, ids[k + 1]);
        assert(r == seq![(min, ids[k])] + rest);
        assert forall|i: int| 0 <= i < r.len() - 1 implies #[trigger] r[i].1 + 1 != r[i + 1].0 by {
            if i > 0 {
                assert(r[i] == rest[i - 1] && r[i + 1] == rest[i]);
            }
        }
        if strictly_increasing(ids) {
            assert(ids[k] < ids[k + 1]);
            assert forall|i: int| 0 <= i < r.len() implies #[trigger] r[i].0 <= r[i].1 by {
                if i > 0 {
                    assert(r[i] == rest[i - 1]);
                }
            }
            assert forall|i: int| 0 <= i < r.len() - 1 implies #[trigger] r[i].1 < r[i + 1].0 by {
                if i > 0 {
                    assert(r[i] == rest[i - 1] && r[i + 1] == rest[i]);
                }
            }
        }
    } else {
        if strictly_increasing(ids) {
            assert(ids[k] < ids[k + 1]);
        }
        lemma_ranges_from_runs(ids, k + 1, min);
    }
}

/// Law: the ranges are the maximal runs of consecutive ids: the first
/// starts at the first id, the last ends at the last id, and no range ends
/// just before the next one starts. On strictly increasing ids each range
/// runs upwards and there is a gap of at least one id between ranges.
pub proof fn law_ranges_maximal(ids: Seq<u32>)
    requires
        ids.len() >= 1,
    ensures
        id_ranges(ids).len() >= 1,
        id_ranges(ids)[0].0 == ids[0],
        id_ranges(ids).last().1 == ids.last(),
        forall|i: int| 0 <= i < id_ranges(ids).len() - 1
            ==> #[trigger] id_ranges(ids)[i].1 + 1 != id_ranges(ids)[i + 1].0,
        strictly_increasing(ids) ==> forall|i: int| 0 <= i < id_ranges(ids).len()
            ==> #[trigger] id_ranges(ids)[i].0 <= id_ranges(ids)[i].1,
        strictly_increasing(ids) ==> forall|i: int| 0 <= i < id_ranges(ids).len() - 1
            ==> #[trigger] id_ranges(ids)[i].1 + 1 < id_ranges(ids)[i + 1].0,
{
    lemma_ranges_from_runs(ids, 0, ids[0]);
}

/// Text of a range of stages, numbered from 1: `n` or `a~b`.
pub open spec fn range_text(range: (u32, u32)) -> Seq<char> {
    if range.0 == range.1 {
        decimal((range.0 + 1) as nat)
    } else {
        decimal((range.0 + 1) as nat) + seq!['~'] + decimal((range.1 + 1) as nat)
    }
}

/// Get text representation of a range.
pub fn get_range_repr(range: (u32, u32)) -> (s: String)
    requires
        range.0 < u32::MAX,
        range.0 != range.1 ==> range.1 < u32::MAX,
    ensures
        s@ == range_text(range),
{
    let mut out: Vec<char> = Vec::new();
    push_decimal(&mut out, (range.0 + 1) as u64);
    if range.0 != range.1 {
        out.push('~');
        push_decimal(&mut out, (range.1 + 1) as u64);
    }
    string_from(&out)
}

/// Ids of `enemies` in order of first appearance, without repeats.
pub open spec fn distinct_ids(enemies: Seq<StageEnemy>) -> Seq<u32>
    decreases enemies.len(),
{
    if enemies.len() == 0 {
        Seq::empty()
    } else {
        let prev = distinct_ids(enemies.drop_last());
        if prev.contains(enemies.last().id) {
            prev
        } else {
            prev.push(enemies.last().id)
        }
    }
}

/// Is `x` in `v`?
fn contains_u32(v: &Vec<u32>, x: u32) -> (b: bool)
    ensures
        b == v@.contains(x),
{
    let mut j: usize = 0;
    while j < v.len()
        invariant
            0 <= j <= v.len(),
            forall|q: int| 0 <= q < j ==> v@[q] != x,
        decreases v.len() - j,
    {
        if v[j] == x {
            return true;
        }
        j = j + 1;
    }
    false
}

/// Get the ids of the enemies of the first stage of the first range, in
/// order of first appearance.
pub fn get_enemies_by_id(stages: &Vec<Stage>, ranges: &Vec<(u32, u32)>) -> (ids: Vec<u32>)
    requires
        ranges.len() >= 1,
        ranges[0].0 < stages.len(),
        no_score_rewards(stages[ranges[0].0 as int]),
    ensures
        ids@ == distinct_ids(stages[ranges[0].0 as int].enemies@),
{
    let stage1 = &stages[ranges[0].0 as usize];
    let ghost es = stage1.enemies@;
    let mut enemies_by_id: Vec<u32> = Vec::new();
    let mut k: usize = 0;
    assert(es.take(0) =~= Seq::<StageEnemy>::empty());
    while k < stage1.enemies.len()
        invariant
            0 <= k <= stage1.enemies.len(),
            es == stage1.enemies@,
            enemies_by_id@ == distinct_ids(es.take(k as int)),
        decreases stage1.enemies.len() - k,
    {
        let id = stage1.enemies[k].id;
        let ghost p = es.take(k + 1);
        assert(p.drop_last() =~= es.take(k as int));
        assert(p.last() == es[k as int]);
        if !contains_u32(&enemies_by_id, id) {
            enemies_by_id.push(id);
        }
        k = k + 1;
    }
    assert(es.take(k as int) =~= es);
    enemies_by_id
}

/// A stage without score rewards (which gauntlet pages do not support).
pub open spec fn no_score_rewards(stage: Stage) -> bool {
    stage.rewards matches Some(r) ==> r.score_rewards.len() == 0
}

/// Index of the first occurrence of `x` in `v`.
pub open spec fn first_index(v: Seq<u32>, x: u32) -> int
    decreases v.len(),
{
    if v.len() == 0 {
        0
    } else if v[0] == x {
        0
    } else {
        1 + first_index(v.drop_first(), x)
    }
}

/// Lemma: the first index of an element of `v` holds it and comes before
/// every other occurrence.
proof fn lemma_first_index(v: Seq<u32>, x: u32)
    requires
        v.contains(x),
    ensures
        0 <= first_index(v, x) < v.len(),
        v[first_index(v, x)] == x,
        forall|q: int| 0 <= q < first_index(v, x) ==> v[q] != x,
    decreases v.len(),
{
    if v[0] != x {
        let k = choose|k: int| 0 <= k < v.len() && v[k] == x;
        assert(v.drop_first()[k - 1] == x);
        lemma_first_index(v.drop_first(), x);
        assert forall|q: int| 0 <= q < first_index(v, x) implies v[q] != x by {
            if q > 0 {
                assert(v[q] == v.drop_first()[q - 1]);
            }
        }
    }
}

/// Magnifications of each of `ids` among `enemies`, without repeats, in
/// order of first appearance (an enemy counts for the first place its id has
/// in `ids`).
pub open spec fn mag_lines(ids: Seq<u32>, enemies: Seq<StageEnemy>) -> Seq<Seq<Magnification>>
    decreases enemies.len(),
{
    if enemies.len() == 0 {
        Seq::new(ids.len(), |i: int| Seq::<Magnification>::empty())
    } else {
        let prev = mag_lines(ids, enemies.drop_last());
        let e = enemies.last();
        let pos = first_index(ids, e.id);
        if prev[pos].contains(e.magnification) {
            prev
        } else {
            prev.update(pos, prev[pos].push(e.magnification))
        }
    }
}

/// Lemma: there is one line of magnifications per id.
proof fn lemma_mag_lines_len(ids: Seq<u32>, enemies: Seq<StageEnemy>)
    requires
        forall|i: int| 0 <= i < enemies.len() ==> ids.contains(#[trigger] enemies[i].id),
    ensures
        mag_lines(ids, enemies).len() == ids.len(),
    decreases enemies.len(),
{
    if enemies.len() > 0 {
        lemma_mag_lines_len(ids, enemies.drop_last());
        assert(ids.contains(enemies[enemies.len() - 1].id));
        lemma_first_index(ids, enemies.last().id);
    }
}

/// Copy of a list of magnifications.
fn copy_mags(v: &Vec<Magnification>) -> (r: Vec<Magnification>)
    ensures
        r@ == v@,
{
    let mut r: Vec<Magnification> = Vec::new();
    let mut i: usize = 0;
    while i < v.len()
        invariant
            0 <= i <= v.len(),
            r@ == v@.take(i as int),
        decreases v.len() - i,
    {
        r.push(v[i]);
        assert(r@ =~= v@.take(i + 1));
        i = i + 1;
    }
    assert(v@.take(i as int) =~= v@);
    r
}

/// Get the unique magnifications of each enemy: for ids `[35, 42]` with
/// enemy 35 at 300% and enemy 42 at 400% and 500%, `[[300], [400, 500]]`.
pub fn enemy_mag_lines(enemies_by_id: &Vec<u32>, enemies: &Vec<StageEnemy>) -> (mags: Vec<Vec<Magnification>>)
    requires
        forall|i: int| 0 <= i < enemies.len() ==> enemies_by_id@.contains(#[trigger] enemies@[i].id),
    ensures
        mags@.len() == enemies_by_id.len(),
        forall|k: int| 0 <= k < mags@.len() ==> (#[trigger] mags@[k])@ == mag_lines(enemies_by_id@, enemies@)[k],
{
    let ghost ids = enemies_by_id@;
    let ghost es = enemies@;
    let mut mags: Vec<Vec<Magnification>> = Vec::new();
    let mut i: usize = 0;
    while i < enemies_by_id.len()
        invariant
            0 <= i <= enemies_by_id.len(),
            mags@.len() == i,
            forall|k: int| 0 <= k < i ==> (#[trigger] mags@[k])@ == Seq::<Magnification>::empty(),
        decreases enemies_by_id.len() - i,
    {
        mags.push(Vec::new());
        i = i + 1;
    }
    let mut e: usize = 0;
    assert(es.take(0) =~= Seq::<StageEnemy>::empty());
    while e < enemies.len()
        invariant
            0 <= e <= enemies.len(),
            ids == enemies_by_id@,
            es == enemies@,
            forall|q: int| 0 <= q < es.len() ==> ids.contains(#[trigger] es[q].id),
            mags@.len() == ids.len(),
            forall|k: int| 0 <= k < mags@.len() ==> (#[trigger] mags@[k])@ == mag_lines(ids, es.take(e as int))[k],
        decreases enemies.len() - e,
    {
        let enemy = enemies[e];
        let ghost p = es.take(e + 1);
        assert(p.drop_last() =~= es.take(e as int));
        assert(p.last() == es[e as int]);
        proof {
            lemma_first_index(ids, enemy.id);
            lemma_mag_lines_len(ids, es.take(e as int));
            assert forall|q: int| 0 <= q < es.take(e as int).len() implies ids.contains(#[trigger] es.take(e as int)[q].id) by {
                assert(es.take(e as int)[q] == es[q]);
            }
        }
        let mut pos: usize = 0;
        while enemies_by_id[pos] != enemy.id
            invariant
                0 <= pos <= first_index(ids, enemy.id),
                ids == enemies_by_id@,
                0 <= first_index(ids, enemy.id) < ids.len(),
                ids[first_index(ids, enemy.id)] == enemy.id,
                forall|q: int| 0 <= q < first_index(ids, enemy.id) ==> ids[q] != enemy.id,
            decreases first_index(ids, enemy.id) - pos,
        {
            assert(ids[pos as int] != enemy.id);
            assert(pos < first_index(ids, enemy.id));
            assert(first_index(ids, enemy.id) < enemies_by_id.len());
            pos = pos + 1;
        }
        assert(pos == first_index(ids, enemy.id));
        let mut seen = false;
        let mut j: usize = 0;
        while j < mags[pos].len()
            invariant
                0 <= j <= mags@[pos as int].len(),
                pos < mags@.len(),
                seen == exists|q: int| 0 <= q < j && mags@[pos as int]@[q] == enemy.magnification,
            decreases mags@[pos as int].len() - j,
        {
            if mags[pos][j] == enemy.magnification {
                seen = true;
            }
            j = j + 1;
        }
        assert(seen == mags@[pos as int]@.contains(enemy.magnification));
        let ghost prev = mag_lines(ids, es.take(e as int));
        if !seen {
            let mut line = copy_mags(&mags[pos]);
            line.push(enemy.magnification);
            mags.set(pos, line);
        }
        proof {
            assert forall|k: int| 0 <= k < mags@.len() implies (#[trigger] mags@[k])@ == mag_lines(ids, p)[k] by {
                if k == pos as int {
                } else {
                }
            }
        }
        e = e + 1;
    }
    assert(es.take(e as int) =~= es);
    mags
}

/// Append the text of a magnification: `n%` or `hp% HP/ap% AP`.
pub fn write_single_mag(buf: &mut String, mag: &Magnification)
    ensures
        final(buf)@ == old(buf)@ + mag_text(*mag),
{
    match *mag {
        Magnification::Single(n) => {
            let f = format_en(n as u64);
            append_str(buf, f.as_str());
            append_str(buf, "%");
        },
        Magnification::Split(hp, ap) => {
            let f = format_en(hp as u64);
            append_str(buf, f.as_str());
            append_str(buf, "% HP/");
            let g = format_en(ap as u64);
            append_str(buf, g.as_str());
            append_str(buf, "% AP");
        },
    }
    assert(buf@ =~= old(buf)@ + mag_text(*mag));
}

/// Magnifications separated by `, `.
pub open spec fn mags_joined(ms: Seq<Magnification>) -> Seq<char>
    decreases ms.len(),
{
    if ms.len() == 0 {
        Seq::empty()
    } else if ms.len() == 1 {
        mag_text(ms[0])
    } else {
        mags_joined(ms.drop_last()) + ", "@ + mag_text(ms.last())
    }
}

/// Cells of the magnifications of each enemy: `|{mags}` and a newline each.
pub open spec fn mag_cells(lines: Seq<Seq<Magnification>>) -> Seq<char>
    decreases lines.len(),
{
    if lines.len() == 0 {
        Seq::empty()
    } else {
        mag_cells(lines.drop_last()) + "|"@ + mags_joined(lines.last()) + "\n"@
    }
}

/// Suffix of a treasure text that drops once and surely.
pub open spec fn sure_once_suffix() -> Seq<char> {
    " (100%, 1 time)"@
}

/// The rewards cell of a stage: the item of its treasure text, which gives
/// a single item dropped once and surely, or `None`.
pub open spec fn rewards_cell(stage: &Stage, names: &TreasureMap, chances: Seq<Seq<char>>) -> Seq<char> {
    match stage.rewards {
        None => "None"@,
        Some(r) => {
            let t = treasure_text(names, r, chances);
            if t.len() == 0 {
                "None"@
            } else {
                t.subrange(2, t.len() - sure_once_suffix().len())
            }
        },
    }
}

/// Text of a stage's line in a gauntlet table: the magnifications of each
/// enemy, then base hit points, energy, rewards and experience.
pub open spec fn table_line(
    ids: Seq<u32>,
    stage: &Stage,
    data: &EnemyDataContainer,
    names: &TreasureMap,
    chances: Seq<Seq<char>>,
) -> Seq<char> {
    mag_cells(mag_lines(ids, stage.enemies@)) + "|"@ + base_hp_params(stage, data)[0].1 + "\n|"@ + energy_value(
        stage,
        stage.energy->0,
    ) + "\n|"@ + rewards_cell(stage, names, chances) + "\n|"@ + en_formatted(stage.xp->0 as nat) + " XP"@
}

/// A stage whose table line can be written: every enemy is one of `ids`
/// and every one of `ids` is an enemy of the stage, its base hit points can
/// be written, it has an energy cost and experience, and its treasure is a
/// single item dropped once and surely, or none.
pub open spec fn table_line_ok(
    ids: Seq<u32>,
    stage: &Stage,
    data: &EnemyDataContainer,
    names: &TreasureMap,
    chances: Seq<Seq<char>>,
) -> bool {
    &&& forall|i: int| 0 <= i < stage.enemies@.len() ==> ids.contains(#[trigger] stage.enemies@[i].id)
    &&& forall|k: int| 0 <= k < ids.len() ==> (#[trigger] mag_lines(ids, stage.enemies@)[k]).len() > 0
    &&& base_hp_ok(stage, data)
    &&& stage.energy is Some
    &&& stage.xp matches Some(x) && !(stage.meta.type_num == RANKING_DOJO_TYPE_NUM && x == 0)
    &&& stage.rewards matches Some(r) ==> {
        let t = treasure_text(names, r, chances);
        &&& treasure_named(names, r)
        &&& chances.len() == r.treasure_drop.len()
        &&& t.len() > 0 ==> starts_with(t, "- "@) && ends_with(t, sure_once_suffix()) && t.len() >= 2
            + sure_once_suffix().len()
    }
}

/// Append the magnifications of `ms`, separated by `, `.
fn write_mags(buf: &mut String, ms: &Vec<Magnification>)
    ensures
        final(buf)@ == old(buf)@ + mags_joined(ms@),
{
    let mut i: usize = 0;
    while i < ms.len()
        invariant
            0 <= i <= ms.len(),
            buf@ == old(buf)@ + mags_joined(ms@.subrange(0, i as int)),
        decreases ms.len() - i,
    {
        let ghost t = ms@.subrange(0, i + 1);
        assert(t.drop_last() =~= ms@.subrange(0, i as int));
        assert(t.last() == ms@[i as int]);
        if i > 0 {
            append_str(buf, ", ");
        }
        write_single_mag(buf, &ms[i]);
        proof {
            if i == 0 {
                assert(ms@.subrange(0, 0) =~= Seq::<Magnification>::empty());
                assert(t.len() == 1 && t[0] == ms@[0]);
            }
        }
        assert(buf@ =~= old(buf)@ + mags_joined(t));
        i = i + 1;
    }
    assert(ms@.subrange(0, i as int) =~= ms@);
}

/// Append the magnification cells of each enemy of `enemies_by_id`.
fn write_mag_cells(line_buf: &mut String, enemies_by_id: &Vec<u32>, enemies: &Vec<StageEnemy>)
    requires
        forall|i: int| 0 <= i < enemies@.len() ==> enemies_by_id@.contains(#[trigger] enemies@[i].id),
    ensures
        final(line_buf)@ == old(line_buf)@ + mag_cells(mag_lines(enemies_by_id@, enemies@)),
{
    let mags = enemy_mag_lines(enemies_by_id, enemies);
    let ghost lines = mag_lines(enemies_by_id@, enemies@);
    proof {
        lemma_mag_lines_len(enemies_by_id@, enemies@);
    }
    let mut k: usize = 0;
    while k < mags.len()
        invariant
            0 <= k <= mags.len(),
            mags@.len() == lines.len(),
            forall|q: int| 0 <= q < mags@.len() ==> (#[trigger] mags@[q])@ == lines[q],
            line_buf@ == old(line_buf)@ + mag_cells(lines.subrange(0, k as int)),
        decreases mags.len() - k,
    {
        let ghost t = lines.subrange(0, k + 1);
        assert(t.drop_last() =~= lines.subrange(0, k as int));
        assert(t.last() == mags@[k as int]@);
        append_str(line_buf, "|");
        write_mags(line_buf, &mags[k]);
        append_str(line_buf, "\n");
        assert(line_buf@ =~= old(line_buf)@ + mag_cells(t));
        k = k + 1;
    }
    assert(lines.subrange(0, k as int) =~= lines);
}

/// The rewards cell of a stage: the item of its treasure, or `None`.
fn rewards_cell_text(stage: &Stage, names: &TreasureMap, chances: &Vec<String>) -> (r: String)
    requires
        stage.rewards matches Some(rw) ==> {
            let t = treasure_text(names, rw, strings_view(chances@));
            &&& treasure_named(names, rw)
            &&& chances.len() == rw.treasure_drop.len()
            &&& t.len() > 0 ==> starts_with(t, "- "@) && ends_with(t, sure_once_suffix()) && t.len() >= 2
                + sure_once_suffix().len()
        },
    ensures
        r@ == rewards_cell(stage, names, strings_view(chances@)),
{
    proof {
        reveal_strlit("- ");
        reveal_strlit(" (100%, 1 time)");
    }
    match treasure(stage, names, chances) {
        Some(t) => {
            let cs = chars_of(t.value.as_str());
            assert(cs@.len() >= 17);
            let inner = subvec(&cs, 2, cs.len() - 15);
            string_from(&inner)
        },
        None => "None".to_string(),
    }
}

/// Append a stage's line of a gauntlet table: the magnifications of each
/// enemy of `enemies_by_id`, then base hit points, energy, rewards and
/// experience; `chances` holds the stage's treasure chance texts.
pub fn write_table_line(
    line_buf: &mut String,
    enemies_by_id: &Vec<u32>,
    stage: &Stage,
    data: &EnemyDataContainer,
    names: &TreasureMap,
    chances: &Vec<String>,
)
    requires
        table_line_ok(enemies_by_id@, stage, data, names, strings_view(chances@)),
    ensures
        final(line_buf)@ == old(line_buf)@ + table_line(enemies_by_id@, stage, data, names, strings_view(chances@)),
{
    write_mag_cells(line_buf, enemies_by_id, &stage.enemies);
    let hp = base_hp(stage, data);
    assert(base_hp_params(stage, data).len() >= 1);
    assert(params_view(hp@).len() == hp@.len());
    assert(params_view(hp@)[0] == hp@[0]@);
    let en = energy(stage).unwrap();
    let ex = xp(stage).unwrap();
    let rewards = rewards_cell_text(stage, names, chances);
    append_str(line_buf, "|");
    append_str(line_buf, hp[0].value.as_str());
    append_str(line_buf, "\n|");
    append_str(line_buf, en.value.as_str());
    append_str(line_buf, "\n|");
    append_str(line_buf, rewards.as_str());
    append_str(line_buf, "\n|");
    append_str(line_buf, ex.value.as_str());
    assert(line_buf@ =~= old(line_buf)@ + table_line(enemies_by_id@, stage, data, names, strings_view(chances@)));
}

/// Head of a gauntlet table up to the names of the enemies, the
/// magnifications spanning `colspan` columns.
pub open spec fn table_head(colspan: nat) -> Seq<char> {
    "{| class=\"article-table\" border=\"0\" cellpadding=\"1\" cellspacing=\"1\"\n|-\n! rowspan=\"2\" style=\"text-align: center;\" |Stage\n! colspan=\""@
        + decimal(colspan)
        + "\" style=\"text-align: center;\" |Strength Magnifications\n! rowspan=\"2\" style=\"text-align: center;\" |Base HP\n! rowspan=\"2\" style=\"text-align: center;\" |Energy Cost\n! colspan=\"2\" style=\"text-align: center;\" |Rewards\n|-\n"@
}

/// Column heads with the names of the enemies of `ids`.
pub open spec fn name_cells(data: &EnemyDataContainer, ids: Seq<u32>) -> Seq<char>
    decreases ids.len(),
{
    if ids.len() == 0 {
        Seq::empty()
    } else {
        name_cells(data, ids.drop_last()) + "! scope=\"col\" |"@ + data.spec_names()[ids.last() + 2].name@ + "\n"@
    }
}

/// Last column heads of a gauntlet table.
pub open spec fn head_end() -> Seq<char> {
    "! style=\"text-align: center;\" |Treasure\n! style=\"text-align: center;\" |Base XP\n"@
}

/// Row of stage `i` of a gauntlet table.
pub open spec fn table_row(
    ids: Seq<u32>,
    stages: Seq<Stage>,
    i: int,
    data: &EnemyDataContainer,
    names: &TreasureMap,
    chances: Seq<Vec<String>>,
) -> Seq<char> {
    "|-\n! scope=\"row\" |"@ + decimal((i + 1) as nat) + "\n"@ + table_line(
        ids,
        &stages[i],
        data,
        names,
        strings_view(chances[i]@),
    ) + "\n"@
}

/// Rows of the `k` stages from stage `first` on.
pub open spec fn range_rows(
    ids: Seq<u32>,
    stages: Seq<Stage>,
    first: int,
    k: nat,
    data: &EnemyDataContainer,
    names: &TreasureMap,
    chances: Seq<Vec<String>>,
) -> Seq<char>
    decreases k,
{
    if k == 0 {
        Seq::empty()
    } else {
        range_rows(ids, stages, first, (k - 1) as nat, data, names, chances) + table_row(
            ids,
            stages,
            first + k - 1,
            data,
            names,
            chances,
        )
    }
}

/// Number of stages of a range.
pub open spec fn range_len(r: (u32, u32)) -> nat {
    if r.0 <= r.1 {
        (r.1 - r.0 + 1) as nat
    } else {
        0
    }
}

/// Rows of the stages of the first `n` ranges.
pub open spec fn ranges_rows(
    ids: Seq<u32>,
    stages: Seq<Stage>,
    ranges: Seq<(u32, u32)>,
    n: nat,
    data: &EnemyDataContainer,
    names: &TreasureMap,
    chances: Seq<Vec<String>>,
) -> Seq<char>
    decreases n,
{
    if n == 0 || n > ranges.len() {
        Seq::empty()
    } else {
        let r = ranges[n - 1];
        ranges_rows(ids, stages, ranges, (n - 1) as nat, data, names, chances) + range_rows(
            ids,
            stages,
            r.0 as int,
            range_len(r),
            data,
            names,
            chances,
        )
    }
}

/// A gauntlet table: the head with a column for each enemy of the first
/// stage, then a row for each stage of the ranges.
pub open spec fn table_text(
    stages: Seq<Stage>,
    ranges: Seq<(u32, u32)>,
    data: &EnemyDataContainer,
    names: &TreasureMap,
    chances: Seq<Vec<String>>,
) -> Seq<char> {
    let ids = distinct_ids(stages[ranges[0].0 as int].enemies@);
    table_head(ids.len()) + name_cells(data, ids) + head_end() + ranges_rows(
        ids,
        stages,
        ranges,
        ranges.len(),
        data,
        names,
        chances,
    ) + "|}"@
}

/// A gauntlet table that can be written: the first stage exists and has no
/// score rewards, its enemies have names, and every stage of the ranges
/// exists and has a line that can be written.
pub open spec fn table_ok(
    stages: Seq<Stage>,
    ranges: Seq<(u32, u32)>,
    data: &EnemyDataContainer,
    names: &TreasureMap,
    chances: Seq<Vec<String>>,
) -> bool {
    let ids = distinct_ids(stages[ranges[0].0 as int].enemies@);
    &&& ranges.len() >= 1
    &&& ranges[0].0 < stages.len()
    &&& no_score_rewards(stages[ranges[0].0 as int])
    &&& chances.len() == stages.len()
    &&& forall|k: int| 0 <= k < ids.len() ==> #[trigger] ids[k] + 2 < data.spec_names().len()
    &&& forall|n: int, i: int|
        #![trigger ranges[n], stages[i]]
        0 <= n < ranges.len() && ranges[n].0 <= i <= ranges[n].1 ==> i < stages.len() && i < u32::MAX
            && table_line_ok(ids, &stages[i], data, names, strings_view(chances[i]@))
}

/// Append the column heads with the names of the enemies of `ids`.
fn write_name_cells(buf: &mut String, data: &EnemyDataContainer, ids: &Vec<u32>)
    requires
        forall|k: int| 0 <= k < ids.len() ==> #[trigger] ids@[k] + 2 < data.spec_names().len(),
    ensures
        final(buf)@ == old(buf)@ + name_cells(data, ids@),
{
    let mut k: usize = 0;
    while k < ids.len()
        invariant
            0 <= k <= ids.len(),
            forall|q: int| 0 <= q < ids.len() ==> #[trigger] ids@[q] + 2 < data.spec_names().len(),
            buf@ == old(buf)@ + name_cells(data, ids@.subrange(0, k as int)),
        decreases ids.len() - k,
    {
        let ghost t = ids@.subrange(0, k + 1);
        assert(t.drop_last() =~= ids@.subrange(0, k as int));
        assert(t.last() == ids@[k as int]);
        assert(ids@[k as int] + 2 < data.spec_names().len());
        append_str(buf, "! scope=\"col\" |");
        append_str(buf, data.get_names(ids[k]).name.as_str());
        append_str(buf, "\n");
        assert(buf@ =~= old(buf)@ + name_cells(data, t));
        k = k + 1;
    }
    assert(ids@.subrange(0, k as int) =~= ids@);
}

/// Get the table of a gauntlet's stages: a column for each enemy of the
/// first stage of the first range, a row for each stage of the ranges;
/// `chances` holds the treasure chance texts of each stage.
#[verifier::rlimit(40)]
pub fn get_table(
    stages: &Vec<Stage>,
    ranges: &Vec<(u32, u32)>,
    data: &EnemyDataContainer,
    names: &TreasureMap,
    chances: &Vec<Vec<String>>,
) -> (table: String)
    requires
        table_ok(stages@, ranges@, data, names, chances@),
    ensures
        table@ == table_text(stages@, ranges@, data, names, chances@),
{
    let enemies_by_id = get_enemies_by_id(stages, ranges);
    let ghost ids = enemies_by_id@;
    let mut table = "{| class=\"article-table\" border=\"0\" cellpadding=\"1\" cellspacing=\"1\"\n|-\n! rowspan=\"2\" style=\"text-align: center;\" |Stage\n! colspan=\"".to_string();
    let mut digits: Vec<char> = Vec::new();
    push_decimal(&mut digits, enemies_by_id.len() as u64);
    append_chars(&mut table, &digits);
    append_str(&mut table, "\" style=\"text-align: center;\" |Strength Magnifications\n! rowspan=\"2\" style=\"text-align: center;\" |Base HP\n! rowspan=\"2\" style=\"text-align: center;\" |Energy Cost\n! colspan=\"2\" style=\"text-align: center;\" |Rewards\n|-\n");
    assert(table@ =~= table_head(ids.len()));
    write_name_cells(&mut table, data, &enemies_by_id);
    append_str(&mut table, "! style=\"text-align: center;\" |Treasure\n! style=\"text-align: center;\" |Base XP\n");
    let ghost head = table@;
    assert(head =~= table_head(ids.len()) + name_cells(data, ids) + head_end());
    let mut n: usize = 0;
    while n < ranges.len()
        invariant
            0 <= n <= ranges.len(),
            ids == enemies_by_id@,
            table_ok(stages@, ranges@, data, names, chances@),
            ids == distinct_ids(stages@[ranges@[0].0 as int].enemies@),
            table@ == head + ranges_rows(ids, stages@, ranges@, n as nat, data, names, chances@),
        decreases ranges.len() - n,
    {
        let (first, last) = ranges[n];
        let ghost before = table@;
        if first <= last {
            let mut i: u32 = first;
            while i <= last
                invariant
                    first <= i <= last + 1,
                    (first, last) == ranges@[n as int],
                    0 <= n < ranges.len(),
                    ids == enemies_by_id@,
                    table_ok(stages@, ranges@, data, names, chances@),
                    ids == distinct_ids(stages@[ranges@[0].0 as int].enemies@),
                    table@ == before + range_rows(ids, stages@, first as int, (i - first) as nat, data, names, chances@),
                decreases last + 1 - i,
            {
                assert(ranges@[n as int].0 <= i <= ranges@[n as int].1);
                let ghost st = stages@[i as int];
                assert(i < stages.len() && i < u32::MAX && table_line_ok(
                    ids,
                    &stages@[i as int],
                    data,
                    names,
                    strings_view(chances@[i as int]@),
                ));
                append_str(&mut table, "|-\n! scope=\"row\" |");
                let mut num: Vec<char> = Vec::new();
                push_decimal(&mut num, (i + 1) as u64);
                append_chars(&mut table, &num);
                append_str(&mut table, "\n");
                write_table_line(&mut table, &enemies_by_id, &stages[i as usize], data, names, &chances[i as usize]);
                append_str(&mut table, "\n");
                assert(table@ =~= before + range_rows(
                    ids,
                    stages@,
                    first as int,
                    (i + 1 - first) as nat,
                    data,
                    names,
                    chances@,
                ));
                i = i + 1;
            }
        }
        assert(table@ =~= head + ranges_rows(ids, stages@, ranges@, (n + 1) as nat, data, names, chances@));
        n = n + 1;
    }
    append_str(&mut table, "|}");
    assert(table@ =~= table_text(stages@, ranges@, data, names, chances@));
    table
}

} // verus!
