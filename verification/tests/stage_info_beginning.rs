use rust_wiki::stage::stage_metadata::StageMeta;
use rust_wiki::stage::parsed::stage::Stage;
use rust_wiki::stage::stage_enemy::{BossType, Magnification, StageEnemy};
use rust_wiki::wiki_data::enemy_data::{EnemyData, EnemyDataContainer, EnemyName};
use rust_wiki::wikitext::stage_info::internal::beginning::{enemies_appearing, get_ordinal};

fn enemy(id: u32) -> StageEnemy {
    StageEnemy {
        id,
        amount: 0,
        start_frame: 0,
        enforce_start_frame: false,
        respawn_time: (0, 0),
        base_hp: 100,
        layer: (0, 9),
        boss_type: BossType::NotBoss,
        magnification: Magnification::Single(100),
        kill_count: 0,
    }
}

fn data() -> EnemyDataContainer {
    let named = [
        (0, "Doge"),
        (2, "Snache"),
        (4, "Croco"),
        (9, "Le'boin"),
        (10, "Teacher Bear"),
        (21, "Enemy Base"),
        (110, "Crazed Cat"),
        (300, "Shibalien"),
        (301, "Mistress Celeboodle"),
        (302, "Imperator Sael"),
        (303, "Kroxo"),
        (304, "Cyberhorn"),
        (305, "Charlotte (Snake)"),
    ];
    let enemies = named
        .iter()
        .map(|(id, name)| EnemyData {
            image_id: *id,
            name: name.to_string(),
            link: None,
            hp: 100,
            attack: 8,
        })
        .collect();
    let names: Vec<EnemyName> = Vec::new();
    EnemyDataContainer::new(names, enemies)
}

fn stage(ids: &[u32]) -> Stage {
    Stage {
        meta: StageMeta::new("sol 0 0").unwrap(),
        base_id: 0,
        width: 0,
        base_hp: 0,
        max_enemies: 0,
        anim_base_id: None,
        time_limit: None,
        energy: None,
        xp: None,
        is_no_continues: false,
        crown_data: None,
        restrictions: None,
        max_clears: None,
        ex_invasion: None,
        continue_data: None,
        enemies: ids.iter().map(|id| enemy(*id)).collect(),
        rewards: None,
    }
}

#[test]
fn beginning_test_enemies_appearing() {
    let crazed_cat = stage(&[9, 10, 21, 0, 2, 9, 4, 110, 0]);
    assert_eq!(
        enemies_appearing(&crazed_cat, &data()),
        "{{EnemiesAppearing|Le'boin|Teacher Bear|Doge|Snache|Croco|Crazed Cat}}"
    );

    let tada = stage(&[21]);
    assert_eq!(enemies_appearing(&tada, &data()), "{{EnemiesAppearing}}");
    assert_eq!(enemies_appearing(&stage(&[]), &data()), "{{EnemiesAppearing}}");
}

#[test]
fn ordinals() {
    assert_eq!(get_ordinal(1), "first");
    assert_eq!(get_ordinal(9), "ninth");
    assert_eq!(get_ordinal(10), "10th");
    assert_eq!(get_ordinal(21), "21st");
    assert_eq!(get_ordinal(22), "22nd");
    assert_eq!(get_ordinal(23), "23rd");
    assert_eq!(get_ordinal(30), "30th");
    assert_eq!(get_ordinal(11), "11th");
    assert_eq!(get_ordinal(112), "12th");
    assert_eq!(get_ordinal(101), "1st");
}

#[test]
fn stage_info_internal_test_enemies_appearing() {
    let crazed_cat = stage(&[9, 10, 0, 2, 4, 110]);
    assert_eq!(
        enemies_appearing(&crazed_cat, &data()),
        "{{EnemiesAppearing|Le'boin|Teacher Bear|Doge|Snache|Croco|Crazed Cat}}"
    );

    let tada = stage(&[]);
    assert_eq!(enemies_appearing(&tada, &data()), "{{EnemiesAppearing}}");

    let not_alone = stage(&[300, 301, 300, 302, 303, 21, 304, 305, 305]);
    assert_eq!(enemies_appearing(&not_alone, &data()), "{{EnemiesAppearing|Shibalien|Mistress Celeboodle|Imperator Sael|Kroxo|Cyberhorn|Charlotte (Snake)}}");
}
