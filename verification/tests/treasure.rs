use rust_wiki::stage::parsed::stage::{ScoreReward, Stage, StageRewards, TreasureDrop, TreasureType};
use rust_wiki::stage::stage_metadata::StageMeta;
use rust_wiki::wiki_data::rewards::{TreasureEntry, TreasureMap};
use rust_wiki::wikitext::stage_info::internal::treasure::{score_rewards, treasure, write_name_and_amount};
use rust_wiki::wikitext::template::TemplateParameter;

const XP: u32 = 6;
const CAT_FOOD: u32 = 22;
const RARE_TICKET: u32 = 29;
const TREASURE_RADAR: u32 = 1;
const CRAZED_CAT: u32 = 1_103;
const MANIC_MOHAWK: u32 = 10_092;
const SHINJI_TF: u32 = 10_500;
const RED_ATTACK_ORB: u32 = 30_000;

fn names() -> TreasureMap {
    let entries = [
        (TREASURE_RADAR, "[[Battle Items#Treasure Radar|Treasure Radar]]"),
        (XP, "XP"),
        (CAT_FOOD, "[[Cat Food]]"),
        (RARE_TICKET, "[[Cat Capsule#Rare Cat Capsule|Rare Ticket]]"),
        (CRAZED_CAT, "[[Crazed Cat (Super Rare Cat)|Crazed Cat]]"),
        (MANIC_MOHAWK, "[[Crazed Cat (Super Rare Cat)|Crazed Cat]]'s [[True Form]]"),
        (SHINJI_TF, "[[Shinji & Cat (Rare Cat)|Shinji & Cat]]'s [[True Form]]"),
        (RED_ATTACK_ORB, "Attack Up D [[Talent Orbs|Orb]]: Red"),
        (40, "[[Catfruit|Epic Catfruit]]"),
        (41, "[[Catfruit|Purple Catfruit]]"),
        (42, "[[Catfruit|Purple Catfruit Seed]]"),
        (43, "[[Catfruit|Gold Catfruit Seed]]"),
        (50, "Bricks"),
        (51, "Feathers"),
        (52, "Coal"),
        (53, "Sprockets"),
        (54, "Gold"),
        (55, "Meteorite"),
        (56, "Beast Bones"),
        (57, "Ammonite"),
        (60, "[[Catamin]] [A]"),
        (61, "[[Catamin]] [B]"),
        (62, "[[Catamin]] [C]"),
        (70, "[[Battle Items#Speed Up|Speed Up]]"),
        (71, "[[Battle Items#Cat CPU|Cat CPU]]"),
        (72, "[[Battle Items#Cat Jobs|Cat Jobs]]"),
        (73, "[[Battle Items#Sniper the Cat|Sniper the Cat]]"),
        (74, "[[Battle Items#Rich Cat|Rich Cat]]"),
        (80, "[[Summer Break Cats (Event Gacha)|Legend Net]]"),
    ];
    TreasureMap::new(entries.iter().map(|(id, name)| TreasureEntry { id: *id, name: name.to_string() }).collect())
}

fn drop(item_chance: u32, item_id: u32, item_amt: u32) -> TreasureDrop {
    TreasureDrop { item_chance, item_id, item_amt }
}

fn stage(rewards: Option<StageRewards>) -> Stage {
    Stage {
        meta: StageMeta::new("sol 0 0").unwrap(),
        base_id: 0,
        width: 0,
        base_hp: 0,
        max_enemies: 0,
        anim_base_id: None,
        time_limit: None,
        energy: None,
        xp: None,
        is_no_continues: false,
        crown_data: None,
        restrictions: None,
        max_clears: None,
        ex_invasion: None,
        continue_data: None,
        enemies: vec![],
        rewards,
    }
}

fn rewards(treasure_type: TreasureType, treasure_drop: Vec<TreasureDrop>) -> Option<StageRewards> {
    Some(StageRewards { treasure_type, treasure_drop, score_rewards: vec![] })
}

fn texts(v: &[&str]) -> Vec<String> {
    v.iter().map(|s| s.to_string()).collect()
}

fn param(value: &str) -> Option<TemplateParameter> {
    Some(TemplateParameter::new("treasure".to_string(), value.to_string()))
}

#[test]
fn write_name_and_amount_normal() {
    let mut buf = String::new();
    write_name_and_amount(&mut buf, &names(), CAT_FOOD, 22_222);
    assert_eq!(buf, "[[Cat Food]] +22,222");
}

#[test]
fn write_name_and_amount_xp() {
    let mut buf = String::new();
    write_name_and_amount(&mut buf, &names(), XP, 40_000);
    assert_eq!(buf, "40,000 XP");
}

#[test]
fn write_name_and_amount_unit() {
    let mut buf = String::new();
    write_name_and_amount(&mut buf, &names(), CRAZED_CAT, 40_000);
    assert_eq!(buf, "[[Crazed Cat (Super Rare Cat)|Crazed Cat]]");
}

#[test]
fn write_name_and_amount_tf() {
    let mut buf = String::new();
    write_name_and_amount(&mut buf, &names(), MANIC_MOHAWK, 40_000);
    assert_eq!(buf, "[[Crazed Cat (Super Rare Cat)|Crazed Cat]]'s [[True Form]]");
}

#[test]
fn write_name_and_amount_orb() {
    let mut buf = String::new();
    write_name_and_amount(&mut buf, &names(), RED_ATTACK_ORB, 1);
    assert_eq!(buf, "Attack Up D [[Talent Orbs|Orb]]: Red +1");
}

#[test]
fn once_then_nothing() {
    let ht30 = stage(rewards(TreasureType::OnceThenUnlimited, vec![drop(100, RARE_TICKET, 3)]));
    assert_eq!(
        treasure(&ht30, &names(), &texts(&[""])),
        param("- [[Cat Capsule#Rare Cat Capsule|Rare Ticket]] +3 (100%, 1 time)")
    );
    assert_eq!(score_rewards(&ht30, &names()), None);
}

#[test]
fn unit_reward() {
    let dark_souls = stage(rewards(TreasureType::OnceThenUnlimited, vec![drop(100, CRAZED_CAT, 1)]));
    assert_eq!(
        treasure(&dark_souls, &names(), &texts(&[""])),
        param("- [[Crazed Cat (Super Rare Cat)|Crazed Cat]] (100%, 1 time)")
    );
}

#[test]
fn once_then_many() {
    let merciless_xp = stage(rewards(
        TreasureType::OnceThenUnlimited,
        vec![drop(10, XP, 2_030_000), drop(30, XP, 1_020_000), drop(100, XP, 510_000)],
    ));
    assert_eq!(
        treasure(&merciless_xp, &names(), &texts(&["", "30", "70"])),
        param(
            "- 2,030,000 XP (10%, 1 time)<br>\n\
            - 1,020,000 XP (30%, unlimited)<br>\n\
            - 510,000 XP (70%, unlimited)"
        )
    );
}

#[test]
fn many_unlimited() {
    let jubilee_night = stage(rewards(
        TreasureType::AllUnlimited,
        vec![drop(70, 40, 1), drop(85, 41, 1), drop(100, 42, 1)],
    ));
    assert_eq!(
        treasure(&jubilee_night, &names(), &texts(&["70", "25.5", "4.5"])),
        param(
            "- [[Catfruit|Epic Catfruit]] +1 (70%, unlimited)<br>\n\
            - [[Catfruit|Purple Catfruit]] +1 (25.5%, unlimited)<br>\n\
            - [[Catfruit|Purple Catfruit Seed]] +1 (4.5%, unlimited)"
        )
    );
}

#[test]
fn treasure_radar() {
    let round_4_trust_fund = stage(rewards(TreasureType::UnclearMaybeRaw, vec![drop(0, TREASURE_RADAR, 1)]));
    assert_eq!(treasure(&round_4_trust_fund, &names(), &texts(&[""])), None);
}

#[test]
fn guaranteed_once_single() {
    let it30 = stage(rewards(TreasureType::GuaranteedOnce, vec![drop(100, 43, 1)]));
    assert_eq!(
        treasure(&it30, &names(), &texts(&[""])),
        param("- [[Catfruit|Gold Catfruit Seed]] +1 (100%, 1 time)")
    );
}

#[test]
fn guaranteed_once_many() {
    let chances = [13, 13, 13, 13, 13, 13, 13, 9];
    let drops = (0..8).map(|i| drop(chances[i], 50 + i as u32, 5)).collect();
    let it29 = stage(rewards(TreasureType::GuaranteedOnce, drops));
    assert_eq!(
        treasure(&it29, &names(), &texts(&["13", "13", "13", "13", "13", "13", "13", "9"])),
        param(
            "One of the following (1 time):<br>\n\
            - Bricks +5 (13%)<br>\n\
            - Feathers +5 (13%)<br>\n\
            - Coal +5 (13%)<br>\n\
            - Sprockets +5 (13%)<br>\n\
            - Gold +5 (13%)<br>\n\
            - Meteorite +5 (13%)<br>\n\
            - Beast Bones +5 (13%)<br>\n\
            - Ammonite +5 (9%)"
        )
    );
}

#[test]
fn guaranteed_once_different_chance() {
    let it2 = stage(rewards(
        TreasureType::GuaranteedOnce,
        vec![drop(34, 60, 3), drop(33, 61, 3), drop(33, 62, 3)],
    ));
    assert_eq!(
        treasure(&it2, &names(), &texts(&["34", "33", "33"])),
        param(
            "One of the following (1 time):<br>\n\
            - [[Catamin]] [A] +3 (34%)<br>\n\
            - [[Catamin]] [B] +3 (33%)<br>\n\
            - [[Catamin]] [C] +3 (33%)"
        )
    );
}

#[test]
fn guaranteed_once_same_chance() {
    let spring_popstar = stage(rewards(
        TreasureType::GuaranteedUnlimited,
        vec![drop(25, 70, 1), drop(25, 71, 1), drop(25, 72, 1), drop(25, 73, 1)],
    ));
    assert_eq!(
        treasure(&spring_popstar, &names(), &texts(&["", "", "", ""])),
        param(
            "One of the following (unlimited):<br>\n\
            - [[Battle Items#Speed Up|Speed Up]] +1<br>\n\
            - [[Battle Items#Cat CPU|Cat CPU]] +1<br>\n\
            - [[Battle Items#Cat Jobs|Cat Jobs]] +1<br>\n\
            - [[Battle Items#Sniper the Cat|Sniper the Cat]] +1"
        )
    );
}

#[test]
fn test_guaranteed_unlimited_one() {
    let afternoon_bug_hunt = stage(rewards(TreasureType::GuaranteedUnlimited, vec![drop(100, 80, 1)]));
    assert_eq!(
        treasure(&afternoon_bug_hunt, &names(), &texts(&[""])),
        param("- [[Summer Break Cats (Event Gacha)|Legend Net]] +1 (100%, unlimited)")
    );
}

#[test]
fn guaranteed_unlimited_many() {
    let sakura_dance = stage(rewards(
        TreasureType::GuaranteedUnlimited,
        vec![drop(10, 70, 4), drop(10, TREASURE_RADAR, 2), drop(10, 74, 2), drop(10, 71, 4), drop(10, 72, 2), drop(10, 73, 2)],
    ));
    assert_eq!(
        treasure(&sakura_dance, &names(), &texts(&["", "", "", "", "", ""])),
        param(
            "One of the following (unlimited):<br>\n\
            - [[Battle Items#Speed Up|Speed Up]] +4<br>\n\
            - [[Battle Items#Treasure Radar|Treasure Radar]] +2<br>\n\
            - [[Battle Items#Rich Cat|Rich Cat]] +2<br>\n\
            - [[Battle Items#Cat CPU|Cat CPU]] +4<br>\n\
            - [[Battle Items#Cat Jobs|Cat Jobs]] +2<br>\n\
            - [[Battle Items#Sniper the Cat|Sniper the Cat]] +2"
        )
    );
    assert_eq!(score_rewards(&sakura_dance, &names()), None);
}

#[test]
fn labyrinth() {
    let labyrinth_67 = stage(None);
    assert_eq!(treasure(&labyrinth_67, &names(), &vec![]), None);
    assert_eq!(score_rewards(&labyrinth_67, &names()), None);
}

#[test]
fn score_basic() {
    let korea = stage(Some(StageRewards {
        treasure_type: TreasureType::AllUnlimited,
        treasure_drop: vec![],
        score_rewards: vec![
            ScoreReward { score: 8_500, item_id: CAT_FOOD, item_amt: 10 },
            ScoreReward { score: 5_000, item_id: XP, item_amt: 25_000 },
        ],
    }));
    assert_eq!(
        score_rewards(&korea, &names()),
        Some(TemplateParameter::new(
            "score reward".to_string(),
            "'''8,500''': [[Cat Food]] +10<br>\n'''5,000''': 25,000 XP".to_string()
        ))
    );
    assert_eq!(treasure(&korea, &names(), &vec![]), None);
}

#[test]
fn radar_impossible() {
    let explosion_in_sky = stage(rewards(TreasureType::AllUnlimited, vec![drop(0, TREASURE_RADAR, 1)]));
    assert_eq!(treasure(&explosion_in_sky, &names(), &texts(&[""])), None);
}

#[test]
fn guaranteed_unlimited_unequal_chance() {
    let impact_site = stage(rewards(
        TreasureType::GuaranteedUnlimited,
        vec![drop(23, 50, 2), drop(23, 55, 2), drop(77, 50, 1), drop(77, 55, 1)],
    ));
    assert_eq!(
        treasure(&impact_site, &names(), &texts(&["11.5", "11.5", "38.5", "38.5"])),
        param(
            "One of the following (unlimited):<br>\n\
            - Bricks +2 (11.5%)<br>\n\
            - Meteorite +2 (11.5%)<br>\n\
            - Bricks +1 (38.5%)<br>\n\
            - Meteorite +1 (38.5%)"
        )
    );
}

#[test]
fn test_single_raw() {
    let not_fault = stage(rewards(TreasureType::UnclearMaybeRaw, vec![drop(5, SHINJI_TF, 1)]));
    assert_eq!(
        treasure(&not_fault, &names(), &texts(&[""])),
        param("- [[Shinji & Cat (Rare Cat)|Shinji & Cat]]'s [[True Form]] (5%, 1 time)")
    );
}
