//! The list of enemies of a stage and their magnifications, at each crown.

use crate::stage::parsed::stage::Stage;
use crate::stage::stage_enemy::{BossType, Magnification, StageEnemy};
use crate::text::{append_str, digit_char};
use crate::wiki_data::enemy_data::EnemyDataContainer;
use crate::wikitext::number_utils::{en_formatted, format_en};
use crate::wikitext::template::{params_view, TemplateParameter};
use vstd::prelude::*;

verus! {

/// Enemy id that the list never shows.
pub const HIDDEN_ENEMY: u32 = 21;

/// Number of the animated base of a stage (1, which no enemy has, where
/// the base is not animated).
pub open spec fn anim_or_one(stage: &Stage) -> u32 {
    match stage.anim_base_id {
        Some(a) => a,
        None => 1,
    }
}

/// Part of the list an enemy goes to: 0 the base, 1 the enemies, 2 the
/// bosses.
pub open spec fn list_part(e: StageEnemy, anim: u32) -> int {
    if e.id + 2 == anim {
        0
    } else if e.boss_type == BossType::NotBoss {
        1
    } else {
        2
    }
}

/// Enemies of `s` that go to part `part`, in order.
pub open spec fn in_part(s: Seq<StageEnemy>, anim: u32, part: int) -> Seq<StageEnemy>
    decreases s.len(),
{
    if s.len() == 0 {
        Seq::empty()
    } else if list_part(s.last(), anim) == part {
        in_part(s.drop_last(), anim, part).push(s.last())
    } else {
        in_part(s.drop_last(), anim, part)
    }
}

/// Does an enemy before index `i` of `s` have the id and magnification of
/// `s[i]`?
pub open spec fn seen_before(s: Seq<StageEnemy>, i: int) -> bool {
    exists|j: int| 0 <= j < i && s[j].id == s[i].id && s[j].magnification == s[i].magnification
}

/// Enemies of `s` other than the hidden one, each id and magnification once
/// (its first occurrence), in order.
pub open spec fn listed_once(s: Seq<StageEnemy>) -> Seq<StageEnemy>
    decreases s.len(),
{
    if s.len() == 0 {
        Seq::empty()
    } else if s.last().id != HIDDEN_ENEMY && !seen_before(s, s.len() - 1) {
        listed_once(s.drop_last()).push(s.last())
    } else {
        listed_once(s.drop_last())
    }
}

/// A magnification (percent) scaled by a crown's multiplier (percent).
pub open spec fn scaled(m: u32, mult: u32) -> nat {
    (m * mult / 100) as nat
}

/// Text of a magnification at a multiplier: `{m}%` or `{hp}/{ap}%`.
pub open spec fn magnification_text(m: Magnification, mult: u32) -> Seq<char> {
    match m {
        Magnification::Single(m) => en_formatted(scaled(m, mult)) + "%"@,
        Magnification::Split(hp, ap) => en_formatted(scaled(hp, mult)) + "/"@ + en_formatted(scaled(ap, mult))
            + "%"@,
    }
}

/// Line of an enemy: `|{name}|{magnification}`.
pub open spec fn enemy_line(data: &EnemyDataContainer, e: StageEnemy, mult: u32) -> Seq<char> {
    "|"@ + data.spec_data()[e.id].name@ + "|"@ + magnification_text(e.magnification, mult)
}

/// Lines of the enemies of `s`, separated by newlines.
pub open spec fn enemy_lines(data: &EnemyDataContainer, s: Seq<StageEnemy>, mult: u32) -> Seq<char>
    decreases s.len(),
{
    if s.len() == 0 {
        Seq::empty()
    } else if s.len() == 1 {
        enemy_line(data, s[0], mult)
    } else {
        enemy_lines(data, s.drop_last(), mult) + "\n"@ + enemy_line(data, s.last(), mult)
    }
}

/// Value of a list parameter: `{{Magnification{lines}}}`.
pub open spec fn magnification_value(data: &EnemyDataContainer, s: Seq<StageEnemy>, mult: u32) -> Seq<char> {
    "{{Magnification"@ + enemy_lines(data, s, mult) + "}}"@
}

/// Parameter `key` for the enemies of `s`, where there are any.
pub open spec fn part_param(key: Seq<char>, data: &EnemyDataContainer, s: Seq<StageEnemy>, mult: u32) -> Seq<
    (Seq<char>, Seq<char>),
> {
    if s.len() > 0 {
        seq![(key, magnification_value(data, s, mult))]
    } else {
        seq![]
    }
}

/// The base, enemies and bosses of a stage, the enemies and bosses each
/// listed once.
pub open spec fn list_parts(stage: &Stage) -> (Seq<StageEnemy>, Seq<StageEnemy>, Seq<StageEnemy>) {
    let anim = anim_or_one(stage);
    (
        in_part(stage.enemies@, anim, 0),
        listed_once(in_part(stage.enemies@, anim, 1)),
        listed_once(in_part(stage.enemies@, anim, 2)),
    )
}

/// Parameters of one crown: base, enemies and bosses, at a multiplier.
pub open spec fn crown_params(
    stage: &Stage,
    data: &EnemyDataContainer,
    mult: u32,
    keys: (Seq<char>, Seq<char>, Seq<char>),
) -> Seq<(Seq<char>, Seq<char>)> {
    let (base, enemies, boss) = list_parts(stage);
    part_param(keys.0, data, base, mult) + part_param(keys.1, data, enemies, mult) + part_param(
        keys.2,
        data,
        boss,
        mult,
    )
}

/// Does the stage have a list at crown `k` (2 to 4)?
pub open spec fn has_crown(stage: &Stage, k: int) -> bool {
    match stage.crown_data {
        None => false,
        Some(c) => if k == 2 {
            c.max_difficulty != 1
        } else if k == 3 {
            c.max_difficulty != 1 && c.max_difficulty != 2
        } else {
            c.max_difficulty != 1 && c.max_difficulty != 2 && c.max_difficulty != 3 && c.crown_4->0 != 100
        },
    }
}

/// The enemies list parameters of a stage: base, enemies and bosses at one
/// crown, then at each further crown of the stage with their crown's
/// magnification (none at four crowns where it is 100%).
pub open spec fn enemies_list_params(stage: &Stage, data: &EnemyDataContainer) -> Seq<(Seq<char>, Seq<char>)> {
    let c = stage.crown_data->0;
    crown_params(stage, data, 100, ("base"@, "enemies"@, "boss"@)) + (if has_crown(stage, 2) {
        crown_params(stage, data, c.crown_2->0, ("base2"@, "enemies2"@, "boss2"@))
    } else {
        seq![]
    }) + (if has_crown(stage, 3) {
        crown_params(stage, data, c.crown_3->0, ("base3"@, "enemies3"@, "boss3"@))
    } else {
        seq![]
    }) + (if has_crown(stage, 4) {
        crown_params(stage, data, c.crown_4->0, ("base4"@, "enemies4"@, "boss4"@))
    } else {
        seq![]
    })
}

/// An enemy line can be written: the enemy has data and its scaled
/// magnifications fit in `u32`.
pub open spec fn line_ok(data: &EnemyDataContainer, e: StageEnemy, mult: u32) -> bool {
    &&& data.spec_data().contains_key(e.id)
    &&& match e.magnification {
        Magnification::Single(m) => m * mult <= u32::MAX,
        Magnification::Split(hp, ap) => hp * mult <= u32::MAX && ap * mult <= u32::MAX,
    }
}

/// Every line of the enemies of `s` can be written.
pub open spec fn lines_ok(data: &EnemyDataContainer, s: Seq<StageEnemy>, mult: u32) -> bool {
    forall|i: int| 0 <= i < s.len() ==> line_ok(data, #[trigger] s[i], mult)
}

/// Every list of a crown can be written.
pub open spec fn crown_ok(stage: &Stage, data: &EnemyDataContainer, mult: u32) -> bool {
    let (base, enemies, boss) = list_parts(stage);
    lines_ok(data, base, mult) && lines_ok(data, enemies, mult) && lines_ok(data, boss, mult)
}

/// Stages whose enemies list can be written: at most one enemy is the
/// base, each crown that is listed has its magnification, and every line
/// of every listed crown can be written.
pub open spec fn enemies_list_ok(stage: &Stage, data: &EnemyDataContainer) -> bool {
    let c = stage.crown_data->0;
    &&& list_parts(stage).0.len() <= 1
    &&& crown_ok(stage, data, 100)
    &&& stage.crown_data is Some && c.max_difficulty != 1 ==> c.crown_2 is Some && crown_ok(stage, data, c.crown_2->0)
    &&& stage.crown_data is Some && c.max_difficulty != 1 && c.max_difficulty != 2 ==> c.crown_3 is Some
        && crown_ok(stage, data, c.crown_3->0)
    &&& stage.crown_data is Some && c.max_difficulty != 1 && c.max_difficulty != 2 && c.max_difficulty != 3
        ==> c.crown_4 is Some
    &&& has_crown(stage, 4) ==> crown_ok(stage, data, c.crown_4->0)
}

/// Split the enemies of a stage into base, enemies and bosses.
fn split_parts(enemies: &Vec<StageEnemy>, anim: u32) -> (r: (Vec<StageEnemy>, Vec<StageEnemy>, Vec<StageEnemy>))
    ensures
        r.0@ == in_part(enemies@, anim, 0),
        r.1@ == in_part(enemies@, anim, 1),
        r.2@ == in_part(enemies@, anim, 2),
{
    let mut base: Vec<StageEnemy> = Vec::new();
    let mut normal: Vec<StageEnemy> = Vec::new();
    let mut boss: Vec<StageEnemy> = Vec::new();
    let mut i: usize = 0;
    while i < enemies.len()
        invariant
            0 <= i <= enemies.len(),
            base@ == in_part(enemies@.subrange(0, i as int), anim, 0),
            normal@ == in_part(enemies@.subrange(0, i as int), anim, 1),
            boss@ == in_part(enemies@.subrange(0, i as int), anim, 2),
        decreases enemies.len() - i,
    {
        let e = enemies[i];
        assert(enemies@.subrange(0, i + 1).drop_last() =~= enemies@.subrange(0, i as int));
        assert(enemies@.subrange(0, i + 1).last() == e);
        if (e.id as u64) + 2 == anim as u64 {
            base.push(e);
        } else if e.boss_type == BossType::NotBoss {
            normal.push(e);
        } else {
            boss.push(e);
        }
        i = i + 1;
    }
    assert(enemies@.subrange(0, i as int) =~= enemies@);
    (base, normal, boss)
}

/// Lemma: whether an earlier enemy has the same id and magnification does
/// not depend on what follows.
proof fn lemma_seen_before_prefix(s: Seq<StageEnemy>, k: int, i: int)
    requires
        0 <= i < k <= s.len(),
    ensures
        seen_before(s.subrange(0, k), i) == seen_before(s, i),
{
    let t = s.subrange(0, k);
    if seen_before(s, i) {
        let j = choose|j: int| 0 <= j < i && s[j].id == s[i].id && s[j].magnification == s[i].magnification;
        assert(t[j] == s[j] && t[i] == s[i]);
    }
    if seen_before(t, i) {
        let j = choose|j: int| 0 <= j < i && t[j].id == t[i].id && t[j].magnification == t[i].magnification;
        assert(t[j] == s[j] && t[i] == s[i]);
    }
}

/// The enemies of `s` other than the hidden one, each id and magnification
/// once.
fn list_once(s: &Vec<StageEnemy>) -> (r: Vec<StageEnemy>)
    ensures
        r@ == listed_once(s@),
{
    let mut out: Vec<StageEnemy> = Vec::new();
    let mut i: usize = 0;
    while i < s.len()
        invariant
            0 <= i <= s.len(),
            out@ == listed_once(s@.subrange(0, i as int)),
        decreases s.len() - i,
    {
        let e = s[i];
        let ghost t = s@.subrange(0, i + 1);
        assert(t.drop_last() =~= s@.subrange(0, i as int));
        assert(t.last() == e);
        let mut seen = false;
        let mut j: usize = 0;
        while j < i
            invariant
                0 <= j <= i < s.len(),
                e == s@[i as int],
                seen == exists|k: int| 0 <= k < j && s@[k].id == e.id && s@[k].magnification == e.magnification,
            decreases i - j,
        {
            if s[j].id == e.id && s[j].magnification == e.magnification {
                seen = true;
            }
            j = j + 1;
        }
        proof {
            lemma_seen_before_prefix(s@, i + 1, i as int);
            assert(seen == seen_before(s@, i as int));
        }
        if e.id != HIDDEN_ENEMY && !seen {
            out.push(e);
        }
        i = i + 1;
    }
    assert(s@.subrange(0, i as int) =~= s@);
    out
}

/// Append a magnification scaled by a multiplier.
fn push_scaled(buf: &mut String, m: u32, mult: u32)
    requires
        m * mult <= u32::MAX,
    ensures
        final(buf)@ == old(buf)@ + en_formatted(scaled(m, mult)),
{
    let v: u32 = m * mult / 100;
    let f = format_en(v as u64);
    append_str(buf, f.as_str());
}

/// Append the line of an enemy: `|{name}|{magnification}`.
fn push_enemy_line(buf: &mut String, data: &EnemyDataContainer, e: &StageEnemy, mult: u32)
    requires
        line_ok(data, *e, mult),
    ensures
        final(buf)@ == old(buf)@ + enemy_line(data, *e, mult),
{
    append_str(buf, "|");
    append_str(buf, data.get_common_name(e.id));
    append_str(buf, "|");
    match e.magnification {
        Magnification::Single(m) => {
            push_scaled(buf, m, mult);
        },
        Magnification::Split(hp, ap) => {
            push_scaled(buf, hp, mult);
            append_str(buf, "/");
            push_scaled(buf, ap, mult);
        },
    }
    append_str(buf, "%");
    assert(buf@ =~= old(buf)@ + enemy_line(data, *e, mult));
}

/// The parameter `key` listing the enemies of `s`: `{{Magnification...}}`.
fn magnification_param(key: &str, data: &EnemyDataContainer, s: &Vec<StageEnemy>, mult: u32) -> (p:
    TemplateParameter)
    requires
        lines_ok(data, s@, mult),
    ensures
        p@ == (key@, magnification_value(data, s@, mult)),
{
    let mut buf = "{{Magnification".to_string();
    let mut i: usize = 0;
    while i < s.len()
        invariant
            0 <= i <= s.len(),
            lines_ok(data, s@, mult),
            buf@ == "{{Magnification"@ + enemy_lines(data, s@.subrange(0, i as int), mult),
        decreases s.len() - i,
    {
        let ghost t = s@.subrange(0, i + 1);
        assert(t.drop_last() =~= s@.subrange(0, i as int));
        assert(t.last() == s@[i as int]);
        assert(line_ok(data, s@[i as int], mult));
        if i > 0 {
            append_str(&mut buf, "\n");
        }
        push_enemy_line(&mut buf, data, &s[i], mult);
        proof {
            if i == 0 {
                assert(t.len() == 1 && t[0] == s@[0]);
                assert(s@.subrange(0, 0) =~= Seq::<StageEnemy>::empty());
            }
        }
        assert(buf@ =~= "{{Magnification"@ + enemy_lines(data, t, mult));
        i = i + 1;
    }
    assert(s@.subrange(0, i as int) =~= s@);
    append_str(&mut buf, "}}");
    assert(buf@ =~= magnification_value(data, s@, mult));
    TemplateParameter::new(key.to_string(), buf)
}

/// Append the parameter `key` for the enemies of `s`, where there are any.
fn push_part(ps: &mut Vec<TemplateParameter>, key: &str, data: &EnemyDataContainer, s: &Vec<StageEnemy>, mult: u32)
    requires
        lines_ok(data, s@, mult),
    ensures
        params_view(final(ps)@) == params_view(old(ps)@) + part_param(key@, data, s@, mult),
{
    if s.len() > 0 {
        let p = magnification_param(key, data, s, mult);
        ps.push(p);
    }
    assert(params_view(ps@) =~= params_view(old(ps)@) + part_param(key@, data, s@, mult));
}

/// Append the parameters of one crown.
fn push_crown(
    ps: &mut Vec<TemplateParameter>,
    parts: &(Vec<StageEnemy>, Vec<StageEnemy>, Vec<StageEnemy>),
    stage: &Stage,
    data: &EnemyDataContainer,
    mult: u32,
    keys: (&str, &str, &str),
)
    requires
        parts.0@ == list_parts(stage).0,
        parts.1@ == list_parts(stage).1,
        parts.2@ == list_parts(stage).2,
        crown_ok(stage, data, mult),
    ensures
        params_view(final(ps)@) == params_view(old(ps)@) + crown_params(
            stage,
            data,
            mult,
            (keys.0@, keys.1@, keys.2@),
        ),
{
    push_part(ps, keys.0, data, &parts.0, mult);
    push_part(ps, keys.1, data, &parts.1, mult);
    push_part(ps, keys.2, data, &parts.2, mult);
    assert(params_view(ps@) =~= params_view(old(ps)@) + crown_params(stage, data, mult, (keys.0@, keys.1@, keys.2@)));
}

/// Get the list of enemies and their magnifications: the base, the enemies
/// and the bosses (each id and magnification once, never enemy 21), at one
/// crown and then at each further crown of the stage.
pub fn enemies_list(stage: &Stage, data: &EnemyDataContainer) -> (ps: Vec<TemplateParameter>)
    requires
        enemies_list_ok(stage, data),
    ensures
        params_view(ps@) == enemies_list_params(stage, data),
{
    let anim: u32 = match stage.anim_base_id {
        Some(a) => a,
        None => 1,
    };
    let (base, normal, boss) = split_parts(&stage.enemies, anim);
    let normal = list_once(&normal);
    let boss = list_once(&boss);
    let parts = (base, normal, boss);
    let mut ps: Vec<TemplateParameter> = Vec::new();
    let ghost c = stage.crown_data->0;
    let ghost one = crown_params(stage, data, 100, ("base"@, "enemies"@, "boss"@));
    push_crown(&mut ps, &parts, stage, data, 100, ("base", "enemies", "boss"));
    assert(params_view(ps@) =~= one);
    let crowns = match stage.crown_data {
        None => {
            assert(enemies_list_params(stage, data) =~= one);
            return ps;
        },
        Some(c) => c,
    };
    if crowns.max_difficulty == 1 {
        assert(enemies_list_params(stage, data) =~= one);
        return ps;
    }
    let m2 = crowns.crown_2.unwrap();
    let ghost two = one + crown_params(stage, data, m2, ("base2"@, "enemies2"@, "boss2"@));
    push_crown(&mut ps, &parts, stage, data, m2, ("base2", "enemies2", "boss2"));
    assert(params_view(ps@) =~= two);
    if crowns.max_difficulty == 2 {
        assert(enemies_list_params(stage, data) =~= two);
        return ps;
    }
    let m3 = crowns.crown_3.unwrap();
    let ghost three = two + crown_params(stage, data, m3, ("base3"@, "enemies3"@, "boss3"@));
    push_crown(&mut ps, &parts, stage, data, m3, ("base3", "enemies3", "boss3"));
    assert(params_view(ps@) =~= three);
    if crowns.max_difficulty == 3 {
        assert(enemies_list_params(stage, data) =~= three);
        return ps;
    }
    let m4 = crowns.crown_4.unwrap();
    if m4 == 100 {
        assert(enemies_list_params(stage, data) =~= three);
        return ps;
    }
    push_crown(&mut ps, &parts, stage, data, m4, ("base4", "enemies4", "boss4"));
    assert(params_view(ps@) =~= enemies_list_params(stage, data));
    ps
}

/// Same enemy id and magnification.
pub open spec fn same_listing(a: StageEnemy, b: StageEnemy) -> bool {
    a.id == b.id && a.magnification == b.magnification
}

/// Law: the list of enemies shows every enemy of `s` other than the hidden
/// one, each id and magnification exactly once, and nothing else.
pub proof fn law_listed_once(s: Seq<StageEnemy>)
    ensures
        forall|i: int, j: int|
            0 <= i < j < listed_once(s).len() ==> !same_listing(listed_once(s)[i], listed_once(s)[j]),
        forall|i: int| 0 <= i < listed_once(s).len() ==> (#[trigger] listed_once(s)[i]).id != HIDDEN_ENEMY,
        forall|i: int| 0 <= i < listed_once(s).len() ==> s.contains(#[trigger] listed_once(s)[i]),
        forall|k: int|
            0 <= k < s.len() && (#[trigger] s[k]).id != HIDDEN_ENEMY ==> exists|i: int|
                0 <= i < listed_once(s).len() && same_listing(#[trigger] listed_once(s)[i], s[k]),
    decreases s.len(),
{
    if s.len() > 0 {
        let p = s.drop_last();
        let e = s.last();
        law_listed_once(p);
        let r = listed_once(p);
        assert forall|i: int| 0 <= i < r.len() implies s.contains(#[trigger] r[i]) by {
            let k = choose|k: int| 0 <= k < p.len() && p[k] == r[i];
            assert(s[k] == r[i]);
        }
        if e.id != HIDDEN_ENEMY && !seen_before(s, s.len() - 1) {
            let t = r.push(e);
            assert(listed_once(s) == t);
            assert forall|i: int, j: int| 0 <= i < j < t.len() implies !same_listing(t[i], t[j]) by {
                if j == t.len() - 1 && same_listing(t[i], t[j]) {
                    let k = choose|k: int| 0 <= k < p.len() && p[k] == r[i];
                    assert(s[k] == p[k]);
                    assert(seen_before(s, s.len() - 1));
                }
            }
            assert(t[t.len() - 1] == s[s.len() - 1]);
            assert forall|k: int| 0 <= k < s.len() && (#[trigger] s[k]).id != HIDDEN_ENEMY implies exists|i: int|
                0 <= i < t.len() && same_listing(#[trigger] t[i], s[k]) by {
                if k < s.len() - 1 {
                    assert(p[k] == s[k]);
                    let i = choose|i: int| 0 <= i < r.len() && same_listing(#[trigger] r[i], p[k]);
                    assert(t[i] == r[i]);
                } else {
                    assert(same_listing(t[t.len() - 1], s[k]));
                }
            }
        } else {
            assert(listed_once(s) == r);
            assert forall|k: int| 0 <= k < s.len() && (#[trigger] s[k]).id != HIDDEN_ENEMY implies exists|i: int|
                0 <= i < r.len() && same_listing(#[trigger] r[i], s[k]) by {
                if k < s.len() - 1 {
                    assert(p[k] == s[k]);
                } else {
                    let j = choose|j: int|
                        0 <= j < s.len() - 1 && (#[trigger] s[j]).id == s[s.len() - 1].id && s[j].magnification
                            == s[s.len() - 1].magnification;
                    assert(p[j] == s[j]);
                    assert(p[j].id != HIDDEN_ENEMY);
                    let i = choose|i: int| 0 <= i < r.len() && same_listing(#[trigger] r[i], p[j]);
                    assert(same_listing(r[i], s[k]));
                }
            }
        }
    }
}

/// Name of the list parameter of part `p` (0 the base, 1 the enemies, 2 the
/// bosses) at crown `k`: `base`, `enemies` or `boss`, followed from two
/// crowns on by the crown's number.
pub open spec fn list_key(p: int, k: int) -> Seq<char> {
    let name = if p == 0 {
        "base"@
    } else if p == 1 {
        "enemies"@
    } else {
        "boss"@
    };
    if k == 1 {
        name
    } else {
        name + seq![digit_char(k as nat)]
    }
}

/// Is crown `k` listed: one crown always, two to four crowns where the
/// stage has that many, except four crowns at a magnification of 100%.
pub open spec fn crown_listed(stage: &Stage, k: int) -> bool {
    k == 1 || match stage.crown_data {
        None => false,
        Some(c) => 2 <= k <= 4 && k <= c.max_difficulty && !(k == 4 && c.crown_4 == Some(100u32)),
    }
}

/// Magnification (percent) of crown `k`: 100 at one crown.
pub open spec fn crown_mult(stage: &Stage, k: int) -> u32 {
    let c = stage.crown_data->0;
    if k == 1 {
        100
    } else if k == 2 {
        c.crown_2->0
    } else if k == 3 {
        c.crown_3->0
    } else {
        c.crown_4->0
    }
}

/// Part `p` of the list of a stage (0 the base, 1 the enemies, 2 the
/// bosses).
pub open spec fn list_part_of(stage: &Stage, p: int) -> Seq<StageEnemy> {
    if p == 0 {
        list_parts(stage).0
    } else if p == 1 {
        list_parts(stage).1
    } else {
        list_parts(stage).2
    }
}

/// The values of the parameters keyed `key`, in order.
pub open spec fn values_of(ps: Seq<(Seq<char>, Seq<char>)>, key: Seq<char>) -> Seq<Seq<char>>
    decreases ps.len(),
{
    if ps.len() == 0 {
        Seq::empty()
    } else if ps.last().0 == key {
        values_of(ps.drop_last(), key).push(ps.last().1)
    } else {
        values_of(ps.drop_last(), key)
    }
}

/// The values of a part's parameter: its list where it has enemies.
pub open spec fn part_values(data: &EnemyDataContainer, s: Seq<StageEnemy>, mult: u32) -> Seq<Seq<char>> {
    if s.len() > 0 {
        seq![magnification_value(data, s, mult)]
    } else {
        seq![]
    }
}

/// Lemma: the values of a concatenation are those of each side.
proof fn lemma_values_concat(a: Seq<(Seq<char>, Seq<char>)>, b: Seq<(Seq<char>, Seq<char>)>, key: Seq<char>)
    ensures
        values_of(a + b, key) == values_of(a, key) + values_of(b, key),
    decreases b.len(),
{
    if b.len() == 0 {
        assert(a + b =~= a);
        assert(values_of(a, key) + values_of(b, key) =~= values_of(a, key));
    } else {
        lemma_values_concat(a, b.drop_last(), key);
        assert((a + b).drop_last() =~= a + b.drop_last());
        assert((a + b).last() == b.last());
        if b.last().0 == key {
            assert(values_of(a, key) + values_of(b, key) =~= (values_of(a, key) + values_of(b.drop_last(), key)).push(
                b.last().1,
            ));
        }
    }
}

/// Lemma: the values keyed `key` of the parameters of one crown.
proof fn lemma_crown_values(
    stage: &Stage,
    data: &EnemyDataContainer,
    mult: u32,
    keys: (Seq<char>, Seq<char>, Seq<char>),
    key: Seq<char>,
)
    ensures
        values_of(crown_params(stage, data, mult, keys), key) == (if key == keys.0 {
            part_values(data, list_parts(stage).0, mult)
        } else {
            seq![]
        }) + (if key == keys.1 {
            part_values(data, list_parts(stage).1, mult)
        } else {
            seq![]
        }) + (if key == keys.2 {
            part_values(data, list_parts(stage).2, mult)
        } else {
            seq![]
        }),
{
    let (base, enemies, boss) = list_parts(stage);
    let a = part_param(keys.0, data, base, mult);
    let b = part_param(keys.1, data, enemies, mult);
    let c = part_param(keys.2, data, boss, mult);
    lemma_values_concat(a + b, c, key);
    lemma_values_concat(a, b, key);
    assert forall|k: Seq<char>, s: Seq<StageEnemy>| #![auto] values_of(part_param(k, data, s, mult), key) == (if key == k {
        part_values(data, s, mult)
    } else {
        seq![]
    }) by {
        if s.len() > 0 {
            let one = part_param(k, data, s, mult);
            assert(one.drop_last() =~= Seq::<(Seq<char>, Seq<char>)>::empty());
            assert(values_of(one.drop_last(), key) =~= Seq::<Seq<char>>::empty());
            assert(one.last() == (k, magnification_value(data, s, mult)));
            if key == k {
                assert(values_of(one, key) =~= part_values(data, s, mult));
            } else {
                assert(values_of(one, key) =~= Seq::<Seq<char>>::empty());
            }
        } else {
            assert(part_param(k, data, s, mult) =~= Seq::<(Seq<char>, Seq<char>)>::empty());
            assert(part_values(data, s, mult) =~= Seq::<Seq<char>>::empty());
        }
    }
}

/// Lemma: the list keys of different parts or crowns differ.
proof fn lemma_list_keys_differ(p: int, k: int, q: int, j: int)
    requires
        0 <= p <= 2,
        0 <= q <= 2,
        1 <= k <= 9,
        1 <= j <= 9,
        list_key(p, k) == list_key(q, j),
    ensures
        p == q && k == j,
{
    reveal_strlit("base");
    reveal_strlit("enemies");
    reveal_strlit("boss");
    let x = list_key(p, k);
    let y = list_key(q, j);
    let name = |r: int| if r == 0 {
        "base"@
    } else if r == 1 {
        "enemies"@
    } else {
        "boss"@
    };
    assert(name(0) =~= seq!['b', 'a', 's', 'e']);
    assert(name(1) =~= seq!['e', 'n', 'e', 'm', 'i', 'e', 's']);
    assert(name(2) =~= seq!['b', 'o', 's', 's']);
    assert(x[1] == name(p)[1]);
    assert(y[1] == name(q)[1]);
    assert(x.len() == y.len());
    if p == q && k != j {
        if k != 1 && j != 1 {
            assert(x[x.len() - 1] == digit_char(k as nat));
            assert(y[y.len() - 1] == digit_char(j as nat));
            assert(digit_char(k as nat) as u32 == k + 48);
            assert(digit_char(j as nat) as u32 == j + 48);
        }
    }
}

/// Lemma: the keys of each crown in the list are the list keys.
proof fn lemma_crown_keys()
    ensures
        ("base"@, "enemies"@, "boss"@) == (list_key(0, 1), list_key(1, 1), list_key(2, 1)),
        ("base2"@, "enemies2"@, "boss2"@) == (list_key(0, 2), list_key(1, 2), list_key(2, 2)),
        ("base3"@, "enemies3"@, "boss3"@) == (list_key(0, 3), list_key(1, 3), list_key(2, 3)),
        ("base4"@, "enemies4"@, "boss4"@) == (list_key(0, 4), list_key(1, 4), list_key(2, 4)),
{
    reveal_strlit("base");
    reveal_strlit("enemies");
    reveal_strlit("boss");
    reveal_strlit("base2");
    reveal_strlit("enemies2");
    reveal_strlit("boss2");
    reveal_strlit("base3");
    reveal_strlit("enemies3");
    reveal_strlit("boss3");
    reveal_strlit("base4");
    reveal_strlit("enemies4");
    reveal_strlit("boss4");
    assert("base2"@ =~= list_key(0, 2));
    assert("enemies2"@ =~= list_key(1, 2));
    assert("boss2"@ =~= list_key(2, 2));
    assert("base3"@ =~= list_key(0, 3));
    assert("enemies3"@ =~= list_key(1, 3));
    assert("boss3"@ =~= list_key(2, 3));
    assert("base4"@ =~= list_key(0, 4));
    assert("enemies4"@ =~= list_key(1, 4));
    assert("boss4"@ =~= list_key(2, 4));
}

/// Lemma: the values keyed by part `p` at crown `k` of the parameters of
/// crown `j`: that part's list where `j` is `k`, else none.
proof fn lemma_crown_values_at(stage: &Stage, data: &EnemyDataContainer, mult: u32, j: int, p: int, k: int)
    requires
        1 <= j <= 4,
        0 <= p <= 2,
        1 <= k <= 9,
    ensures
        values_of(crown_params(stage, data, mult, (list_key(0, j), list_key(1, j), list_key(2, j))), list_key(p, k))
            == if j == k {
            part_values(data, list_part_of(stage, p), mult)
        } else {
            seq![]
        },
{
    let key = list_key(p, k);
    lemma_crown_values(stage, data, mult, (list_key(0, j), list_key(1, j), list_key(2, j)), key);
    if key == list_key(0, j) {
        lemma_list_keys_differ(p, k, 0, j);
    }
    if key == list_key(1, j) {
        lemma_list_keys_differ(p, k, 1, j);
    }
    if key == list_key(2, j) {
        lemma_list_keys_differ(p, k, 2, j);
    }
    let e = Seq::<Seq<char>>::empty();
    assert(e + e =~= e);
    assert(e + e + e =~= e);
    assert(forall|x: Seq<Seq<char>>| x + e =~= x && e + x =~= x);
}

/// Law: the enemies list has, for each part and each crown, exactly one
/// parameter (`base`, `enemies` or `boss`, with the crown's number from two
/// crowns on) where that crown is listed and the part has enemies, holding
/// the part's list at that crown's magnification; and none otherwise, so
/// none for a crown above the stage's highest, nor for four crowns at 100%.
pub proof fn law_crown_lists(stage: &Stage, data: &EnemyDataContainer, p: int, k: int)
    requires
        enemies_list_ok(stage, data),
        stage.crown_data matches Some(c) ==> c.max_difficulty >= 1,
        0 <= p <= 2,
        1 <= k <= 9,
    ensures
        values_of(enemies_list_params(stage, data), list_key(p, k)) == if crown_listed(stage, k) {
            part_values(data, list_part_of(stage, p), crown_mult(stage, k))
        } else {
            seq![]
        },
{
    let c = stage.crown_data->0;
    let key = list_key(p, k);
    lemma_crown_keys();
    let e = Seq::<(Seq<char>, Seq<char>)>::empty();
    let one = crown_params(stage, data, 100, ("base"@, "enemies"@, "boss"@));
    let two = if has_crown(stage, 2) {
        crown_params(stage, data, c.crown_2->0, ("base2"@, "enemies2"@, "boss2"@))
    } else {
        e
    };
    let three = if has_crown(stage, 3) {
        crown_params(stage, data, c.crown_3->0, ("base3"@, "enemies3"@, "boss3"@))
    } else {
        e
    };
    let four = if has_crown(stage, 4) {
        crown_params(stage, data, c.crown_4->0, ("base4"@, "enemies4"@, "boss4"@))
    } else {
        e
    };
    assert(enemies_list_params(stage, data) == one + two + three + four);
    lemma_values_concat(one + two + three, four, key);
    lemma_values_concat(one + two, three, key);
    lemma_values_concat(one, two, key);
    lemma_crown_values_at(stage, data, 100, 1, p, k);
    lemma_crown_values_at(stage, data, c.crown_2->0, 2, p, k);
    lemma_crown_values_at(stage, data, c.crown_3->0, 3, p, k);
    lemma_crown_values_at(stage, data, c.crown_4->0, 4, p, k);
    assert(values_of(e, key) =~= Seq::<Seq<char>>::empty());
    assert(has_crown(stage, 2) == crown_listed(stage, 2));
    assert(has_crown(stage, 3) == crown_listed(stage, 3));
    assert(has_crown(stage, 4) == crown_listed(stage, 4));
    let x = Seq::<Seq<char>>::empty();
    assert(forall|y: Seq<Seq<char>>| y + x =~= y && x + y =~= y);
}

} // verus!
