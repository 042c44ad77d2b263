use rust_wiki::stage::parsed::stage::Stage;
use rust_wiki::stage::stage_enemy::Magnification::{Single, Split};
use rust_wiki::stage::stage_enemy::{BossType, Magnification, StageEnemy};
use rust_wiki::stage::stage_metadata::StageMeta;
use rust_wiki::stage::parsed::stage::{StageRewards, TreasureDrop, TreasureType};
use rust_wiki::wiki_data::enemy_data::{EnemyData, EnemyDataContainer, EnemyName};
use rust_wiki::wiki_data::rewards::{TreasureEntry, TreasureMap};
use rust_wiki::wikitext::gauntlet::{
    enemy_mag_lines, get_enemies_by_id, get_range_repr, get_ranges, get_table, write_single_mag, write_table_line,
};

fn enemy(id: u32, magnification: Magnification) -> StageEnemy {
    StageEnemy {
        id,
        amount: 0,
        start_frame: 0,
        enforce_start_frame: false,
        respawn_time: (0, 0),
        base_hp: 100,
        layer: (0, 9),
        boss_type: BossType::NotBoss,
        magnification,
        kill_count: 0,
    }
}

fn stage(enemies: Vec<StageEnemy>) -> Stage {
    Stage {
        meta: StageMeta::new("sol 0 0").unwrap(),
        base_id: 0,
        width: 0,
        base_hp: 0,
        max_enemies: 0,
        anim_base_id: None,
        time_limit: None,
        energy: None,
        xp: None,
        is_no_continues: false,
        crown_data: None,
        restrictions: None,
        max_clears: None,
        ex_invasion: None,
        continue_data: None,
        enemies,
        rewards: None,
    }
}

#[test]
fn ranges_of_consecutive_ids() {
    assert_eq!(get_ranges(&vec![0, 1, 2, 5, 6, 9]), vec![(0, 2), (5, 6), (9, 9)]);
    assert_eq!(get_ranges(&vec![4]), vec![(4, 4)]);
    assert_eq!(get_ranges(&vec![3, 2, 3]), vec![(3, 3), (2, 3)]);
    assert_eq!(get_range_repr((0, 0)), "1");
    assert_eq!(get_range_repr((0, 2)), "1~3");
}

#[test]
fn enemies_and_magnifications() {
    let stages = vec![
        stage(vec![enemy(35, Single(300)), enemy(42, Single(400)), enemy(42, Single(500)), enemy(35, Single(300))]),
        stage(vec![enemy(7, Single(100))]),
    ];
    let ids = get_enemies_by_id(&stages, &vec![(0, 0), (1, 1)]);
    assert_eq!(ids, vec![35, 42]);
    let lines = enemy_mag_lines(&ids, &stages[0].enemies);
    assert_eq!(lines, vec![vec![Single(300)], vec![Single(400), Single(500)]]);

    let mixed = vec![enemy(1, Split(150, 200)), enemy(1, Single(150)), enemy(1, Split(150, 200))];
    assert_eq!(enemy_mag_lines(&vec![1, 2], &mixed), vec![vec![Split(150, 200), Single(150)], vec![]]);
}

#[test]
fn single_magnification_text() {
    let mut buf = "|".to_string();
    write_single_mag(&mut buf, &Magnification::Split(1_500, 200));
    buf.push_str(", ");
    write_single_mag(&mut buf, &Magnification::Single(12_000));
    assert_eq!(buf, "|1,500% HP/200% AP, 12,000%");
}

#[test]
fn enemy_delays() {
    use_delay();
}

fn use_delay() {
    let mut e = enemy(1, Single(100));
    e.respawn_time = (60, 90);
    let mut buf = String::new();
    rust_wiki::wikitext::stage_info::internal::battlegrounds::write_enemy_delay(&mut buf, &e);
    assert_eq!(buf, ", delay 2~3 seconds<sup>60f~90f</sup>");
    e.respawn_time = (1, 1);
    let mut buf = String::new();
    rust_wiki::wikitext::stage_info::internal::battlegrounds::write_enemy_delay(&mut buf, &e);
    assert_eq!(buf, ", delay 0.03 second<sup>1f</sup>");
    e.respawn_time = (1_500, 1_000);
    let mut buf = String::new();
    rust_wiki::wikitext::stage_info::internal::battlegrounds::write_enemy_delay(&mut buf, &e);
    assert_eq!(buf, ", delay 50 seconds<sup>1,500f</sup>");
}

fn enemy_names() -> EnemyDataContainer {
    let names: Vec<EnemyName> = (0..50u32)
        .map(|n| {
            let name = match n {
                37 => "Kory".to_string(),
                44 => "Bore".to_string(),
                _ => format!("Enemy {n}"),
            };
            EnemyName { id: n, plural: format!("{name}s"), name }
        })
        .collect();
    let enemies = vec![EnemyData { image_id: 35, name: "Kory".to_string(), link: None, hp: 100, attack: 1 }];
    EnemyDataContainer::new(names, enemies)
}

fn treasure_names() -> TreasureMap {
    TreasureMap::new(vec![TreasureEntry { id: 29, name: "[[Cat Capsule#Rare Cat Capsule|Rare Ticket]]".to_string() }])
}

fn gauntlet_stage(enemies: Vec<StageEnemy>, with_ticket: bool) -> Stage {
    let mut s = stage(enemies);
    s.base_hp = 300_000;
    s.energy = Some(200);
    s.xp = Some(1_000);
    if with_ticket {
        s.rewards = Some(StageRewards {
            treasure_type: TreasureType::OnceThenUnlimited,
            treasure_drop: vec![TreasureDrop { item_chance: 100, item_id: 29, item_amt: 3 }],
            score_rewards: vec![],
        });
    }
    s
}

fn gauntlet_stages() -> Vec<Stage> {
    vec![
        gauntlet_stage(vec![enemy(35, Single(300)), enemy(42, Single(400)), enemy(42, Single(500))], true),
        gauntlet_stage(vec![enemy(42, Split(100, 150)), enemy(35, Single(600))], false),
        gauntlet_stage(vec![enemy(35, Single(700)), enemy(42, Single(800))], true),
    ]
}

#[test]
fn gauntlet_table_line() {
    let stages = gauntlet_stages();
    let mut buf = "start\n".to_string();
    write_table_line(&mut buf, &vec![35, 42], &stages[0], &enemy_names(), &treasure_names(), &vec![String::new()]);
    assert_eq!(
        buf,
        "start\n|300%\n|400%, 500%\n|300,000 HP\n|200\n|[[Cat Capsule#Rare Cat Capsule|Rare Ticket]] +3\n|1,000 XP"
    );
    let mut buf = String::new();
    write_table_line(&mut buf, &vec![35, 42], &stages[1], &enemy_names(), &treasure_names(), &vec![]);
    assert_eq!(buf, "|600%\n|100% HP/150% AP\n|300,000 HP\n|200\n|None\n|1,000 XP");
}

#[test]
fn gauntlet_table() {
    let stages = gauntlet_stages();
    let chances = vec![vec![String::new()], vec![], vec![String::new()]];
    let table = get_table(&stages, &vec![(0, 1)], &enemy_names(), &treasure_names(), &chances);
    assert_eq!(
        table,
        "{| class=\"article-table\" border=\"0\" cellpadding=\"1\" cellspacing=\"1\"\n\
        |-\n\
        ! rowspan=\"2\" style=\"text-align: center;\" |Stage\n\
        ! colspan=\"2\" style=\"text-align: center;\" |Strength Magnifications\n\
        ! rowspan=\"2\" style=\"text-align: center;\" |Base HP\n\
        ! rowspan=\"2\" style=\"text-align: center;\" |Energy Cost\n\
        ! colspan=\"2\" style=\"text-align: center;\" |Rewards\n\
        |-\n\
        ! scope=\"col\" |Kory\n\
        ! scope=\"col\" |Bore\n\
        ! style=\"text-align: center;\" |Treasure\n\
        ! style=\"text-align: center;\" |Base XP\n\
        |-\n\
        ! scope=\"row\" |1\n\
        |300%\n\
        |400%, 500%\n\
        |300,000 HP\n\
        |200\n\
        |[[Cat Capsule#Rare Cat Capsule|Rare Ticket]] +3\n\
        |1,000 XP\n\
        |-\n\
        ! scope=\"row\" |2\n\
        |600%\n\
        |100% HP/150% AP\n\
        |300,000 HP\n\
        |200\n\
        |None\n\
        |1,000 XP\n\
        |}"
    );
    let two_ranges = get_table(&stages, &vec![(0, 0), (2, 2)], &enemy_names(), &treasure_names(), &chances);
    assert!(two_ranges.contains("! scope=\"row\" |1\n|300%\n"));
    assert!(two_ranges.contains("! scope=\"row\" |3\n|700%\n|800%\n"));
    assert!(!two_ranges.contains("! scope=\"row\" |2\n"));
}

#[test]
fn ranges_expand_back_to_ids() {
    for ids in [vec![0u32, 1, 2, 5, 6, 9], vec![4], vec![3, 2, 3], vec![7, 8, 9, 10]] {
        let back: Vec<u32> = get_ranges(&ids).iter().flat_map(|&(a, b)| a..=b).collect();
        assert_eq!(back, ids);
    }
}
