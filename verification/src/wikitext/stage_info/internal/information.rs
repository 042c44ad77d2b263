//! Deals with basic stage information in the infobox.

use crate::stage::parsed::stage::{CrownData, Stage};
use crate::stage::stage_enemy::{Magnification, StageEnemy};
use crate::text::{append_str, decimal, lowercase, padded, push_decimal, push_padded, push_str, string_from, to_lowercase};
use crate::wiki_data::enemy_data::EnemyDataContainer;
use crate::wikitext::number_utils::{en_formatted, format_en};
use crate::wikitext::template::{params_view, TemplateParameter};
use vstd::prelude::*;

verus! {

/// `n` as `format!("{n:03}")` writes it: a minus sign for negative numbers,
/// then digits, zero-padded to three characters in all.
pub open spec fn signed_padded3(n: i32) -> Seq<char> {
    if n < 0 {
        seq!['-'] + padded((0 - n) as nat, 2)
    } else {
        padded(n as nat, 3)
    }
}

/// Enemy bases whose image is shown at 250px.
pub open spec fn is_resized(id: u32) -> bool {
    id == 657 || id == 669 || id == 678 || id == 681 || id == 693
}

/// Image of the stage's base.
pub open spec fn base_image(stage: &Stage) -> Seq<char> {
    match stage.anim_base_id {
        None => "[[File:rc"@ + signed_padded3(stage.base_id) + ".png]]"@,
        Some(a) => {
            let id = (a - 2) as u32;
            "[[File:E "@ + decimal(id as nat) + if is_resized(id) {
                ".png|250px]]"@
            } else {
                ".png]]"@
            }
        },
    }
}

/// Value of the `stage name` parameter, the stage type code given in
/// lowercase as `code`.
pub open spec fn stage_name_value(stage: &Stage, code: Seq<char>) -> Seq<char> {
    base_image(stage) + "\n[[File:Mapsn"@ + padded(stage.meta.map_num as nat, 3) + seq![' '] + padded(
        stage.meta.stage_num as nat,
        2,
    ) + seq![' '] + code + " en.png]]"@
}

/// Value of the `stage location` parameter, the stage type code given in
/// lowercase as `code`.
pub open spec fn stage_location_value(stage: &Stage, code: Seq<char>) -> Seq<char> {
    "[[File:Mapname"@ + padded(stage.meta.map_num as nat, 3) + seq![' '] + code + " en.png]]"@
}

/// Append `n` as `format!("{n:03}")` writes it.
fn push_signed_padded3(out: &mut Vec<char>, n: i32)
    ensures
        final(out)@ == old(out)@ + signed_padded3(n),
{
    if n < 0 {
        out.push('-');
        let m: u64 = if n == i32::MIN { 2147483648 } else { (0 - n) as u64 };
        push_padded(out, m, 2);
        assert(out@ =~= old(out)@ + signed_padded3(n));
    } else {
        push_padded(out, n as u64, 3);
    }
}

/// The `stage name` parameter, with the stage type code given in
/// lowercase.
pub fn stage_name_with_code(stage: &Stage, code: &str) -> (p: TemplateParameter)
    requires
        stage.anim_base_id matches Some(a) ==> a >= 2,
    ensures
        p@ == ("stage name"@, stage_name_value(stage, code@)),
{
    let mut out: Vec<char> = Vec::new();
    match stage.anim_base_id {
        None => {
            push_str(&mut out, "[[File:rc");
            push_signed_padded3(&mut out, stage.base_id);
            push_str(&mut out, ".png]]");
        },
        Some(a) => {
            let id = a - 2;
            push_str(&mut out, "[[File:E ");
            push_decimal(&mut out, id as u64);
            if id == 657 || id == 669 || id == 678 || id == 681 || id == 693 {
                push_str(&mut out, ".png|250px]]");
            } else {
                push_str(&mut out, ".png]]");
            }
        },
    }
    assert(out@ =~= base_image(stage));
    push_str(&mut out, "\n[[File:Mapsn");
    push_padded(&mut out, stage.meta.map_num as u64, 3);
    out.push(' ');
    push_padded(&mut out, stage.meta.stage_num as u64, 2);
    out.push(' ');
    push_str(&mut out, code);
    push_str(&mut out, " en.png]]");
    assert(out@ =~= stage_name_value(stage, code@));
    TemplateParameter::new("stage name".to_string(), string_from(&out))
}

/// Get the `stage name` parameter: the base's image and the stage's name
/// image.
pub fn stage_name(stage: &Stage) -> (p: TemplateParameter)
    requires
        stage.anim_base_id matches Some(a) ==> a >= 2,
    ensures
        p@ == ("stage name"@, stage_name_value(stage, lowercase(stage.meta.type_code@))),
{
    let code = to_lowercase(stage.meta.type_code);
    stage_name_with_code(stage, code.as_str())
}

/// The `stage location` parameter, with the stage type code given in
/// lowercase.
pub fn stage_location_with_code(stage: &Stage, code: &str) -> (p: TemplateParameter)
    ensures
        p@ == ("stage location"@, stage_location_value(stage, code@)),
{
    let mut out: Vec<char> = Vec::new();
    push_str(&mut out, "[[File:Mapname");
    push_padded(&mut out, stage.meta.map_num as u64, 3);
    out.push(' ');
    push_str(&mut out, code);
    push_str(&mut out, " en.png]]");
    assert(out@ =~= stage_location_value(stage, code@));
    TemplateParameter::new("stage location".to_string(), string_from(&out))
}

/// Get the `stage location` parameter: the image of the map's name.
pub fn stage_location(stage: &Stage) -> (p: TemplateParameter)
    ensures
        p@ == ("stage location"@, stage_location_value(stage, lowercase(stage.meta.type_code@))),
{
    let code = to_lowercase(stage.meta.type_code);
    stage_location_with_code(stage, code.as_str())
}

/// Number of the Extra Stages stage type.
pub const EXTRA_TYPE_NUM: usize = 4;

/// Number of the Ranking Dojo stage type.
pub const RANKING_DOJO_TYPE_NUM: usize = 11;

/// Number of the Catamin Stages stage type.
pub const CATAMIN_TYPE_NUM: usize = 14;

/// Value of the `energy` parameter for an energy cost: `N/A` for Catamin
/// and Extra stages, else the cost.
pub open spec fn energy_value(stage: &Stage, e: u32) -> Seq<char> {
    if stage.meta.type_num == CATAMIN_TYPE_NUM || stage.meta.type_num == EXTRA_TYPE_NUM {
        "N/A"@
    } else {
        en_formatted(e as nat)
    }
}

/// Get the `energy` parameter, where the stage has an energy cost.
pub fn energy(stage: &Stage) -> (p: Option<TemplateParameter>)
    ensures
        match stage.energy {
            None => p is None,
            Some(e) => p matches Some(t) && t@ == ("energy"@, energy_value(stage, e)),
        },
{
    let e = match stage.energy {
        Some(e) => e,
        None => {
            return None;
        },
    };
    let value = if stage.meta.type_num == CATAMIN_TYPE_NUM || stage.meta.type_num == EXTRA_TYPE_NUM {
        "N/A".to_string()
    } else {
        format_en(e as u64)
    };
    Some(TemplateParameter::new("energy".to_string(), value))
}

/// Get the `XP` parameter: the experience the stage gives, except for a
/// Ranking Dojo stage that gives none.
pub fn xp(stage: &Stage) -> (p: Option<TemplateParameter>)
    ensures
        match stage.xp {
            None => p is None,
            Some(x) => if stage.meta.type_num == RANKING_DOJO_TYPE_NUM && x == 0 {
                p is None
            } else {
                p matches Some(t) && t@ == ("XP"@, en_formatted(x as nat) + " XP"@)
            },
        },
{
    let x = match stage.xp {
        Some(x) => x,
        None => {
            return None;
        },
    };
    if stage.meta.type_num == RANKING_DOJO_TYPE_NUM && x == 0 {
        return None;
    }
    let mut buf = format_en(x as u64);
    append_str(&mut buf, " XP");
    Some(TemplateParameter::new("XP".to_string(), buf))
}

/// Get the `width` parameter.
pub fn width(stage: &Stage) -> (p: TemplateParameter)
    ensures
        p@ == ("width"@, en_formatted(stage.width as nat)),
{
    TemplateParameter::new("width".to_string(), format_en(stage.width as u64))
}

/// Get the `max enemies` parameter.
pub fn max_enemies(stage: &Stage) -> (p: TemplateParameter)
    ensures
        p@ == ("max enemies"@, en_formatted(stage.max_enemies as nat)),
{
    TemplateParameter::new("max enemies".to_string(), format_en(stage.max_enemies as u64))
}

/// Text of an amount of hit points: `{n} HP`.
pub open spec fn hp_text(n: nat) -> Seq<char> {
    en_formatted(n) + " HP"@
}

/// The first enemy of `s` with enemy id `id`, if any.
pub open spec fn first_with_id(s: Seq<StageEnemy>, id: u32) -> Option<StageEnemy>
    decreases s.len(),
{
    if s.len() == 0 {
        None
    } else {
        match first_with_id(s.drop_last(), id) {
            Some(e) => Some(e),
            None => if s.last().id == id {
                Some(s.last())
            } else {
                None
            },
        }
    }
}

/// Hit point magnification of an enemy.
pub open spec fn hp_magnification(m: Magnification) -> u32 {
    match m {
        Magnification::Single(m) => m,
        Magnification::Split(hp, _) => hp,
    }
}

/// Enemy id of the animated base of a stage with one.
pub open spec fn anim_base_enemy(stage: &Stage) -> u32 {
    (stage.anim_base_id->0 - 2) as u32
}

/// Hit points of an animated base: those of the enemy, magnified as the
/// first enemy of the stage with its id is.
pub open spec fn anim_base_hp(stage: &Stage, data: &EnemyDataContainer) -> nat {
    let id = anim_base_enemy(stage);
    (hp_magnification(first_with_id(stage.enemies@, id)->0.magnification) * data.spec_data()[id].hp / 100) as nat
}

/// Parameter `key` for hit points `hp` magnified at a crown, where the
/// crown has a magnification.
pub open spec fn crown_hp_param(key: Seq<char>, hp: nat, m: Option<u32>) -> Seq<(Seq<char>, Seq<char>)> {
    match m {
        Some(m) => seq![(key, hp_text(hp * (m as nat) / 100))],
        None => seq![],
    }
}

/// Parameters of the hit points of a base at every crown.
pub open spec fn crowned_hp_params(hp: nat, c: CrownData) -> Seq<(Seq<char>, Seq<char>)> {
    seq![("enemy castle hp"@, hp_text(hp))] + crown_hp_param("enemy castle hp2"@, hp, c.crown_2)
        + crown_hp_param("enemy castle hp3"@, hp, c.crown_3) + if c.crown_4 matches Some(m) && m != 100 {
        crown_hp_param("enemy castle hp4"@, hp, c.crown_4)
    } else {
        seq![]
    }
}

/// The `enemy castle hp` parameters: `Unlimited` for a stage with a time
/// limit, the stage's base hit points where the base is no animated enemy,
/// else the hit points of that enemy, at each crown where the stage has
/// crowns (the four-crown one only where it differs from one crown).
pub open spec fn base_hp_params(stage: &Stage, data: &EnemyDataContainer) -> Seq<(Seq<char>, Seq<char>)> {
    if stage.time_limit is Some {
        seq![("enemy castle hp"@, "Unlimited"@)]
    } else if stage.anim_base_id is None {
        seq![("enemy castle hp"@, hp_text(stage.base_hp as nat))]
    } else {
        match stage.crown_data {
            None => seq![("enemy castle hp"@, hp_text(anim_base_hp(stage, data)))],
            Some(c) => crowned_hp_params(anim_base_hp(stage, data), c),
        }
    }
}

/// Stages whose base hit points can be written: an animated base has an
/// enemy in the stage and data, and the magnified hit points fit in `u32`.
pub open spec fn base_hp_ok(stage: &Stage, data: &EnemyDataContainer) -> bool {
    stage.time_limit is None && stage.anim_base_id is Some ==> {
        let id = anim_base_enemy(stage);
        let hp = anim_base_hp(stage, data);
        &&& stage.anim_base_id->0 >= 2
        &&& first_with_id(stage.enemies@, id) is Some
        &&& data.spec_data().contains_key(id)
        &&& hp_magnification(first_with_id(stage.enemies@, id)->0.magnification) * data.spec_data()[id].hp
            <= u32::MAX
        &&& stage.crown_data matches Some(c) ==> {
            &&& c.crown_2 matches Some(m) ==> hp * m <= u32::MAX
            &&& c.crown_3 matches Some(m) ==> hp * m <= u32::MAX
            &&& c.crown_4 matches Some(m) ==> hp * m <= u32::MAX
        }
    }
}

/// Lemma: once a prefix of `s` has an enemy with id `id`, the first such
/// enemy of `s` is that of the prefix.
proof fn lemma_first_with_id_prefix(s: Seq<StageEnemy>, id: u32, k: int)
    requires
        0 <= k <= s.len(),
        first_with_id(s.subrange(0, k), id) is Some,
    ensures
        first_with_id(s, id) == first_with_id(s.subrange(0, k), id),
    decreases s.len(),
{
    if k < s.len() {
        assert(s.drop_last().subrange(0, k) =~= s.subrange(0, k));
        lemma_first_with_id_prefix(s.drop_last(), id, k);
    } else {
        assert(s.subrange(0, k) =~= s);
    }
}

/// The first enemy of the stage with enemy id `id`.
fn find_first_with_id(enemies: &Vec<StageEnemy>, id: u32) -> (e: StageEnemy)
    requires
        first_with_id(enemies@, id) is Some,
    ensures
        first_with_id(enemies@, id) == Some(e),
{
    let mut i: usize = 0;
    while i < enemies.len()
        invariant
            0 <= i <= enemies.len(),
            first_with_id(enemies@.subrange(0, i as int), id) is None,
            first_with_id(enemies@, id) is Some,
        decreases enemies.len() - i,
    {
        assert(enemies@.subrange(0, i + 1).drop_last() =~= enemies@.subrange(0, i as int));
        if enemies[i].id == id {
            proof {
                lemma_first_with_id_prefix(enemies@, id, i + 1);
            }
            return enemies[i];
        }
        i = i + 1;
    }
    assert(enemies@.subrange(0, i as int) =~= enemies@);
    enemies[0]
}

/// Parameter `key` with hit points `hp`.
fn hp_param(key: &str, hp: u32) -> (p: TemplateParameter)
    ensures
        p@ == (key@, hp_text(hp as nat)),
{
    let mut buf = format_en(hp as u64);
    append_str(&mut buf, " HP");
    TemplateParameter::new(key.to_string(), buf)
}

/// Get the `enemy castle hp` parameters.
pub fn base_hp(stage: &Stage, data: &EnemyDataContainer) -> (ps: Vec<TemplateParameter>)
    requires
        base_hp_ok(stage, data),
    ensures
        params_view(ps@) == base_hp_params(stage, data),
{
    let mut ps: Vec<TemplateParameter> = Vec::new();
    if stage.time_limit.is_some() {
        ps.push(TemplateParameter::new("enemy castle hp".to_string(), "Unlimited".to_string()));
        assert(params_view(ps@) =~= base_hp_params(stage, data));
        return ps;
    }
    let a = match stage.anim_base_id {
        None => {
            ps.push(hp_param("enemy castle hp", stage.base_hp));
            assert(params_view(ps@) =~= base_hp_params(stage, data));
            return ps;
        },
        Some(a) => a,
    };
    let id = a - 2;
    let hp = data.get_data(id).hp;
    let base = find_first_with_id(&stage.enemies, id);
    let mag = match base.magnification {
        Magnification::Single(m) => m,
        Magnification::Split(h, _) => h,
    };
    let magnified: u32 = mag * hp / 100;
    ps.push(hp_param("enemy castle hp", magnified));
    let c = match stage.crown_data {
        None => {
            assert(params_view(ps@) =~= base_hp_params(stage, data));
            return ps;
        },
        Some(c) => c,
    };
    let ghost hpn = magnified as nat;
    let ghost want2 = seq![("enemy castle hp"@, hp_text(hpn))] + crown_hp_param("enemy castle hp2"@, hpn, c.crown_2);
    if let Some(m) = c.crown_2 {
        ps.push(hp_param("enemy castle hp2", magnified * m / 100));
    }
    assert(params_view(ps@) =~= want2);
    let ghost want3 = want2 + crown_hp_param("enemy castle hp3"@, hpn, c.crown_3);
    if let Some(m) = c.crown_3 {
        ps.push(hp_param("enemy castle hp3", magnified * m / 100));
    }
    assert(params_view(ps@) =~= want3);
    if let Some(m) = c.crown_4 {
        if m != 100 {
            ps.push(hp_param("enemy castle hp4", magnified * m / 100));
        }
    }
    assert(params_view(ps@) =~= base_hp_params(stage, data));
    ps
}

} // verus!
