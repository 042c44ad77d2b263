use rust_wiki::stage::parsed::stage::{CrownData, Stage};
use rust_wiki::stage::stage_enemy::{BossType, Magnification, StageEnemy};
use rust_wiki::stage::stage_metadata::StageMeta;
use rust_wiki::wiki_data::enemy_data::{EnemyData, EnemyDataContainer, EnemyName};
use rust_wiki::wikitext::stage_info::internal::enemies_list::enemies_list;
use rust_wiki::wikitext::stage_info::internal::information::{base_hp, energy, max_enemies, width, xp};
use rust_wiki::wikitext::template::{param_vec_fold, TemplateParameter};

const NAMES: [(u32, &str, u32); 58] = [
    (0, "Doge", 90),
    (1, "Snache", 100),
    (2, "Those Guys", 100),
    (3, "Gory", 100),
    (4, "Hippoe", 100),
    (9, "Le'boin", 100),
    (21, "Enemy Base", 100),
    (23, "Doge Dark", 100),
    (30, "Gabriel", 100),
    (40, "Pigeon de Sable", 100),
    (41, "Elizabeth the LVIth", 100),
    (42, "Bore Jr.", 100),
    (43, "Kory", 100),
    (44, "Berserkory", 100),
    (45, "Heavy Assault C.A.T.", 100),
    (46, "Mr. Angel", 100),
    (50, "Celeboodle", 100),
    (51, "Relic Doge", 100),
    (52, "Sir Rel", 100),
    (53, "Ururun Wolf", 100),
    (54, "Mystic Mask Yulala", 100),
    (55, "Relic Bun-Bun", 100),
    (56, "Squire Rel", 100),
    (57, "H. Nah", 100),
    (58, "Assassin Bear", 100),
    (59, "Dober P.D", 100),
    (60, "R.Ost", 100),
    (61, "THE SLOTH", 100),
    (62, "Zroco", 100),
    (63, "Zir Zeal", 100),
    (64, "Zigge", 100),
    (65, "Zomboe", 100),
    (66, "B.B.Bunny", 100),
    (67, "Teacher Bun Bun", 100),
    (70, "White Wind", 100),
    (71, "Duche", 100),
    (72, "Red Wind", 100),
    (73, "Gory Black", 100),
    (74, "Black Wind", 100),
    (75, "Bore", 100),
    (76, "Le'noir", 100),
    (651, "Finale Base", 50),
    (657, "Relay Base", 10_000),
    (658, "Relic Doge Base", 3_000),
    (659, "Tower Base", 1_000_000),
    (660, "Heart of Friendship", 3_000),
    (661, "Moai Base", 300_000),
    (80, "Croco", 100),
    (81, "Kang Roo", 100),
    (82, "Shy Boy", 100),
    (83, "Baa Baa", 100),
    (84, "Pigge", 100),
    (85, "Squire Rel II", 100),
    (86, "Sir Seal", 100),
    (87, "Camelle", 100),
    (88, "Jackie Peng", 100),
    (89, "Gory Black II", 100),
    (90, "Doge Dark II", 100),
];

fn data() -> EnemyDataContainer {
    let enemies = NAMES
        .iter()
        .map(|(id, name, hp)| EnemyData {
            image_id: *id,
            name: name.to_string(),
            link: None,
            hp: *hp,
            attack: 8,
        })
        .collect();
    EnemyDataContainer::new(Vec::<EnemyName>::new(), enemies)
}

fn id_of(name: &str) -> u32 {
    NAMES.iter().find(|(_, n, _)| *n == name).unwrap().0
}

fn enemy(name: &str, magnification: Magnification, boss: bool) -> StageEnemy {
    StageEnemy {
        id: id_of(name),
        amount: 0,
        start_frame: 0,
        enforce_start_frame: false,
        respawn_time: (0, 0),
        base_hp: 100,
        layer: (0, 9),
        boss_type: if boss { BossType::Boss } else { BossType::NotBoss },
        magnification,
        kill_count: 0,
    }
}

fn normal(name: &str, mag: u32) -> StageEnemy {
    enemy(name, Magnification::Single(mag), false)
}

fn boss(name: &str, mag: u32) -> StageEnemy {
    enemy(name, Magnification::Single(mag), true)
}

fn crowns(max_difficulty: u8, c2: Option<u32>, c3: Option<u32>, c4: Option<u32>) -> Option<CrownData> {
    Some(CrownData { max_difficulty, crown_2: c2, crown_3: c3, crown_4: c4 })
}

fn stage(selector: &str, enemies: Vec<StageEnemy>, anim_base: Option<&str>, crown_data: Option<CrownData>) -> Stage {
    Stage {
        meta: StageMeta::new(selector).unwrap(),
        base_id: 0,
        width: 0,
        base_hp: 0,
        max_enemies: 0,
        anim_base_id: anim_base.map(|name| id_of(name) + 2),
        time_limit: None,
        energy: None,
        xp: None,
        is_no_continues: false,
        crown_data,
        restrictions: None,
        max_clears: None,
        ex_invasion: None,
        continue_data: None,
        enemies,
        rewards: None,
    }
}

fn p(key: &str, value: &str) -> TemplateParameter {
    TemplateParameter::new(key.to_string(), value.to_string())
}

fn aac() -> Stage {
    stage(
        "ul 0 0",
        vec![normal("Enemy Base", 100), normal("Relic Doge", 100), boss("Relic Bun-Bun", 100), normal("Relic Doge", 100)],
        None,
        crowns(3, Some(150), Some(200), None),
    )
}

fn aac_list() -> Vec<TemplateParameter> {
    vec![
        p("enemies", "{{Magnification|Relic Doge|100%}}"),
        p("boss", "{{Magnification|Relic Bun-Bun|100%}}"),
        p("enemies2", "{{Magnification|Relic Doge|150%}}"),
        p("boss2", "{{Magnification|Relic Bun-Bun|150%}}"),
        p("enemies3", "{{Magnification|Relic Doge|200%}}"),
        p("boss3", "{{Magnification|Relic Bun-Bun|200%}}"),
    ]
}

#[test]
fn simple_case() {
    assert_eq!(enemies_list(&aac(), &data()), aac_list());
}

fn tada() -> Stage {
    stage("ex 63 0", vec![normal("Enemy Base", 100)], None, None)
}

#[test]
fn blank_enemy_list() {
    assert_eq!(enemies_list(&tada(), &data()), vec![]);
}

fn celestial_seas() -> Stage {
    let mut es = vec![normal("Doge", 3_000), normal("Those Guys", 2_000)];
    for mag in [400, 600, 400, 700, 800, 900, 700, 1_000, 2_000, 2_000] {
        es.push(normal("Gabriel", mag));
    }
    es.push(boss("Le'boin", 10_000));
    es.push(normal("Enemy Base", 100));
    stage("n 32 3", es, None, crowns(3, Some(120), Some(140), None))
}

fn celestial_seas_list() -> Vec<TemplateParameter> {
    vec![
        p(
            "enemies",
            "{{Magnification|Doge|3,000%\n\
            |Those Guys|2,000%\n\
            |Gabriel|400%\n\
            |Gabriel|600%\n\
            |Gabriel|700%\n\
            |Gabriel|800%\n\
            |Gabriel|900%\n\
            |Gabriel|1,000%\n\
            |Gabriel|2,000%}}",
        ),
        p("boss", "{{Magnification|Le'boin|10,000%}}"),
        p(
            "enemies2",
            "{{Magnification|Doge|3,600%\n\
            |Those Guys|2,400%\n\
            |Gabriel|480%\n\
            |Gabriel|720%\n\
            |Gabriel|840%\n\
            |Gabriel|960%\n\
            |Gabriel|1,080%\n\
            |Gabriel|1,200%\n\
            |Gabriel|2,400%}}",
        ),
        p("boss2", "{{Magnification|Le'boin|12,000%}}"),
        p(
            "enemies3",
            "{{Magnification|Doge|4,200%\n\
            |Those Guys|2,800%\n\
            |Gabriel|560%\n\
            |Gabriel|840%\n\
            |Gabriel|980%\n\
            |Gabriel|1,120%\n\
            |Gabriel|1,260%\n\
            |Gabriel|1,400%\n\
            |Gabriel|2,800%}}",
        ),
        p("boss3", "{{Magnification|Le'boin|14,000%}}"),
    ]
}

#[test]
fn repeat_and_floating_error() {
    assert_eq!(enemies_list(&celestial_seas(), &data()), celestial_seas_list());
}

fn it_25() -> Stage {
    stage(
        "v 6 24",
        vec![
            normal("Pigeon de Sable", 300),
            normal("Elizabeth the LVIth", 2_000),
            normal("Bore Jr.", 100),
            normal("Kory", 600),
            normal("Berserkory", 200),
            enemy("Heavy Assault C.A.T.", Magnification::Split(100, 150), false),
            normal("Kory", 600),
            normal("Mr. Angel", 300),
        ],
        None,
        None,
    )
}

fn sacrifice_apprenticeship() -> Stage {
    stage(
        "nd 3 3",
        vec![
            normal("Celeboodle", 1_000),
            enemy("Ururun Wolf", Magnification::Split(300, 500), true),
            normal("Relic Doge", 150),
            normal("Sir Rel", 150),
            boss("Mystic Mask Yulala", 100),
        ],
        None,
        crowns(1, None, None, None),
    )
}

fn it_25_list() -> Vec<TemplateParameter> {
        vec![p(
            "enemies",
            "{{Magnification|Pigeon de Sable|300%\n\
            |Elizabeth the LVIth|2,000%\n\
            |Bore Jr.|100%\n\
            |Kory|600%\n\
            |Berserkory|200%\n\
            |Heavy Assault C.A.T.|100/150%\n\
            |Mr. Angel|300%}}"
        )]
}

fn sacrifice_apprenticeship_list() -> Vec<TemplateParameter> {
        vec![
            p(
                "enemies",
                "{{Magnification|Celeboodle|1,000%\n\
                |Relic Doge|150%\n\
                |Sir Rel|150%}}"
            ),
            p(
                "boss",
                "{{Magnification|Ururun Wolf|300/500%\n\
                |Mystic Mask Yulala|100%}}"
            ),
        ]
}

#[test]
fn with_separate_mags() {
    assert_eq!(enemies_list(&it_25(), &data()), it_25_list());
    assert_eq!(enemies_list(&sacrifice_apprenticeship(), &data()), sacrifice_apprenticeship_list());
}

fn sleeping_lion() -> Stage {
    stage(
        "sol 0 7",
        vec![
            normal("Doge", 400),
            normal("Snache", 400),
            normal("Those Guys", 400),
            normal("Gory", 400),
            normal("Hippoe", 400),
            normal("Doge Dark", 100),
            boss("Squire Rel", 100),
            normal("Doge", 400),
        ],
        None,
        crowns(4, Some(150), Some(200), Some(300)),
    )
}

fn sleeping_lion_list() -> Vec<TemplateParameter> {
        vec![
            p(
                "enemies",
                "{{Magnification|Doge|400%\n\
                |Snache|400%\n\
                |Those Guys|400%\n\
                |Gory|400%\n\
                |Hippoe|400%\n\
                |Doge Dark|100%}}"
            ),
            p("boss", "{{Magnification|Squire Rel|100%}}"),
            p(
                "enemies2",
                "{{Magnification|Doge|600%\n\
                |Snache|600%\n\
                |Those Guys|600%\n\
                |Gory|600%\n\
                |Hippoe|600%\n\
                |Doge Dark|150%}}"
            ),
            p("boss2", "{{Magnification|Squire Rel|150%}}"),
            p(
                "enemies3",
                "{{Magnification|Doge|800%\n\
                |Snache|800%\n\
                |Those Guys|800%\n\
                |Gory|800%\n\
                |Hippoe|800%\n\
                |Doge Dark|200%}}"
            ),
            p("boss3", "{{Magnification|Squire Rel|200%}}"),
            p(
                "enemies4",
                "{{Magnification|Doge|1,200%\n\
                |Snache|1,200%\n\
                |Those Guys|1,200%\n\
                |Gory|1,200%\n\
                |Hippoe|1,200%\n\
                |Doge Dark|300%}}"
            ),
            p("boss4", "{{Magnification|Squire Rel|300%}}"),
        ]
}

#[test]
fn simple_4_crown() {
    assert_eq!(enemies_list(&sleeping_lion(), &data()), sleeping_lion_list());
}

fn star_ocean() -> Stage {
    let mut es = vec![normal("Doge", 2_000), normal("Those Guys", 400)];
    for mag in [400, 500, 600, 500, 800, 1_000, 1_200, 2_000, 400] {
        es.push(normal("Doge Dark", mag));
    }
    es.push(boss("H. Nah", 200));
    stage("sol 15 7", es, None, crowns(4, Some(150), Some(200), Some(200)))
}

fn star_ocean_list() -> Vec<TemplateParameter> {
        vec![
            p(
                "enemies",
                "{{Magnification|Doge|2,000%\n\
                |Those Guys|400%\n\
                |Doge Dark|400%\n\
                |Doge Dark|500%\n\
                |Doge Dark|600%\n\
                |Doge Dark|800%\n\
                |Doge Dark|1,000%\n\
                |Doge Dark|1,200%\n\
                |Doge Dark|2,000%}}"
            ),
            p("boss", "{{Magnification|H. Nah|200%}}"),
            p(
                "enemies2",
                "{{Magnification|Doge|3,000%\n\
                |Those Guys|600%\n\
                |Doge Dark|600%\n\
                |Doge Dark|750%\n\
                |Doge Dark|900%\n\
                |Doge Dark|1,200%\n\
                |Doge Dark|1,500%\n\
                |Doge Dark|1,800%\n\
                |Doge Dark|3,000%}}"
            ),
            p("boss2", "{{Magnification|H. Nah|300%}}"),
            p(
                "enemies3",
                "{{Magnification|Doge|4,000%\n\
                |Those Guys|800%\n\
                |Doge Dark|800%\n\
                |Doge Dark|1,000%\n\
                |Doge Dark|1,200%\n\
                |Doge Dark|1,600%\n\
                |Doge Dark|2,000%\n\
                |Doge Dark|2,400%\n\
                |Doge Dark|4,000%}}"
            ),
            p("boss3", "{{Magnification|H. Nah|400%}}"),
            p(
                "enemies4",
                "{{Magnification|Doge|4,000%\n\
                |Those Guys|800%\n\
                |Doge Dark|800%\n\
                |Doge Dark|1,000%\n\
                |Doge Dark|1,200%\n\
                |Doge Dark|1,600%\n\
                |Doge Dark|2,000%\n\
                |Doge Dark|2,400%\n\
                |Doge Dark|4,000%}}"
            ),
            p("boss4", "{{Magnification|H. Nah|400%}}"),
        ]
}

#[test]
fn with_repeated_enemy() {
    assert_eq!(enemies_list(&star_ocean(), &data()), star_ocean_list());
}

fn kugel_schreiber() -> Stage {
    stage(
        "sol 24 2",
        vec![
            boss("Dober P.D", 100),
            normal("Assassin Bear", 200),
            boss("R.Ost", 100),
            boss("THE SLOTH", 200),
            boss("R.Ost", 100),
        ],
        None,
        crowns(4, Some(120), Some(140), Some(110)),
    )
}

fn kugel_schreiber_list() -> Vec<TemplateParameter> {
        vec![
            p("enemies", "{{Magnification|Assassin Bear|200%}}"),
            p(
                "boss",
                "{{Magnification|Dober P.D|100%\n\
                |R.Ost|100%\n\
                |THE SLOTH|200%}}"
            ),
            p("enemies2", "{{Magnification|Assassin Bear|240%}}"),
            p(
                "boss2",
                "{{Magnification|Dober P.D|120%\n\
                |R.Ost|120%\n\
                |THE SLOTH|240%}}"
            ),
            p("enemies3", "{{Magnification|Assassin Bear|280%}}"),
            p(
                "boss3",
                "{{Magnification|Dober P.D|140%\n\
                |R.Ost|140%\n\
                |THE SLOTH|280%}}"
            ),
            p("enemies4", "{{Magnification|Assassin Bear|220%}}"),
            p(
                "boss4",
                "{{Magnification|Dober P.D|110%\n\
                |R.Ost|110%\n\
                |THE SLOTH|220%}}"
            ),
        ]
}

#[test]
fn with_multiple_bosses() {
    assert_eq!(enemies_list(&kugel_schreiber(), &data()), kugel_schreiber_list());
}

fn noble_tribe() -> Stage {
    stage(
        "sol 43 2",
        vec![
            normal("Doge", 120_000),
            normal("Snache", 120_000),
            normal("Those Guys", 120_000),
            boss("Hippoe", 120_000),
        ],
        None,
        crowns(4, Some(120), Some(130), Some(100)),
    )
}

fn noble_tribe_list() -> Vec<TemplateParameter> {
        vec![
            p(
                "enemies",
                "{{Magnification|Doge|120,000%\n\
                |Snache|120,000%\n\
                |Those Guys|120,000%}}"
            ),
            p("boss", "{{Magnification|Hippoe|120,000%}}"),
            p(
                "enemies2",
                "{{Magnification|Doge|144,000%\n\
                |Snache|144,000%\n\
                |Those Guys|144,000%}}"
            ),
            p("boss2", "{{Magnification|Hippoe|144,000%}}"),
            p(
                "enemies3",
                "{{Magnification|Doge|156,000%\n\
                |Snache|156,000%\n\
                |Those Guys|156,000%}}"
            ),
            p("boss3", "{{Magnification|Hippoe|156,000%}}"),
        ]
}

#[test]
fn insane_magnifications() {
    assert_eq!(enemies_list(&noble_tribe(), &data()), noble_tribe_list());
}

#[test]
fn floating_point_error_2() {
    let revenant_road = stage(
        "sol 33 3",
        vec![
            normal("Zroco", 200),
            normal("Zir Zeal", 200),
            normal("Zigge", 200),
            normal("Zomboe", 200),
            normal("B.B.Bunny", 2_800),
            boss("Teacher Bun Bun", 1_500),
        ],
        None,
        crowns(3, Some(120), Some(140), None),
    );
    assert_eq!(
        enemies_list(&revenant_road, &data()),
        vec![
            p(
                "enemies",
                "{{Magnification|Zroco|200%\n\
                |Zir Zeal|200%\n\
                |Zigge|200%\n\
                |Zomboe|200%\n\
                |B.B.Bunny|2,800%}}"
            ),
            p("boss", "{{Magnification|Teacher Bun Bun|1,500%}}"),
            p(
                "enemies2",
                "{{Magnification|Zroco|240%\n\
                |Zir Zeal|240%\n\
                |Zigge|240%\n\
                |Zomboe|240%\n\
                |B.B.Bunny|3,360%}}"
            ),
            p("boss2", "{{Magnification|Teacher Bun Bun|1,800%}}"),
            p(
                "enemies3",
                "{{Magnification|Zroco|280%\n\
                |Zir Zeal|280%\n\
                |Zigge|280%\n\
                |Zomboe|280%\n\
                |B.B.Bunny|3,920%}}"
            ),
            p("boss3", "{{Magnification|Teacher Bun Bun|2,100%}}"),
        ]
    );
}

fn finale() -> Stage {
    let mut s = stage("c 209 0", vec![normal("Finale Base", 100)], Some("Finale Base"), None);
    s.base_hp = 1_000;
    s
}

#[test]
fn with_base() {
    assert_eq!(enemies_list(&finale(), &data()), vec![p("base", "{{Magnification|Finale Base|100%}}")]);
}

#[test]
fn with_insane_base() {
    let relay_1600m = stage(
        "ex 61 2",
        vec![
            normal("Relay Base", 7_500_000),
            normal("White Wind", 700),
            normal("Duche", 300),
            normal("Red Wind", 700),
            normal("Gory Black", 200),
            normal("Black Wind", 700),
            normal("R.Ost", 100),
            normal("Bore", 200),
            boss("Le'noir", 150),
            normal("Duche", 300),
        ],
        Some("Relay Base"),
        None,
    );
    assert_eq!(
        enemies_list(&relay_1600m, &data()),
        vec![
            p("base", "{{Magnification|Relay Base|7,500,000%}}"),
            p(
                "enemies",
                "{{Magnification|White Wind|700%\n\
                |Duche|300%\n\
                |Red Wind|700%\n\
                |Gory Black|200%\n\
                |Black Wind|700%\n\
                |R.Ost|100%\n\
                |Bore|200%}}"
            ),
            p("boss", "{{Magnification|Le'noir|150%}}"),
        ]
    );
}

fn pile_of_guts() -> Stage {
    let mut s = stage(
        "ul 31 5",
        vec![
            boss("Relic Doge Base", 40_000),
            normal("Bore Jr.", 100),
            normal("Celeboodle", 1_000),
            normal("R.Ost", 300),
            boss("THE SLOTH", 400),
        ],
        Some("Relic Doge Base"),
        crowns(3, Some(130), Some(170), None),
    );
    s.base_hp = 1_000_000;
    s
}

#[test]
fn with_weird_base() {
    assert_eq!(
        enemies_list(&pile_of_guts(), &data()),
        vec![
            p("base", "{{Magnification|Relic Doge Base|40,000%}}"),
            p(
                "enemies",
                "{{Magnification|Bore Jr.|100%\n\
                |Celeboodle|1,000%\n\
                |R.Ost|300%}}"
            ),
            p("boss", "{{Magnification|THE SLOTH|400%}}"),
            p("base2", "{{Magnification|Relic Doge Base|52,000%}}"),
            p(
                "enemies2",
                "{{Magnification|Bore Jr.|130%\n\
                |Celeboodle|1,300%\n\
                |R.Ost|390%}}"
            ),
            p("boss2", "{{Magnification|THE SLOTH|520%}}"),
            p("base3", "{{Magnification|Relic Doge Base|68,000%}}"),
            p(
                "enemies3",
                "{{Magnification|Bore Jr.|170%\n\
                |Celeboodle|1,700%\n\
                |R.Ost|510%}}"
            ),
            p("boss3", "{{Magnification|THE SLOTH|680%}}"),
        ]
    );
}

#[test]
fn test_enemies_list() {
    assert_eq!(enemies_list(&aac(), &data()), aac_list());
    assert_eq!(enemies_list(&tada(), &data()), vec![]);
    assert_eq!(enemies_list(&celestial_seas(), &data()), celestial_seas_list());
    assert_eq!(enemies_list(&it_25(), &data()), it_25_list());
    assert_eq!(enemies_list(&sacrifice_apprenticeship(), &data()), sacrifice_apprenticeship_list());
    assert_eq!(enemies_list(&sleeping_lion(), &data()), sleeping_lion_list());
    assert_eq!(enemies_list(&star_ocean(), &data()), star_ocean_list());
    assert_eq!(enemies_list(&kugel_schreiber(), &data()), kugel_schreiber_list());
    assert_eq!(enemies_list(&noble_tribe(), &data()), noble_tribe_list());
}

#[test]
fn enemies_list_separate_mags_at_crowns() {
    let st = stage(
        "sol 1 1",
        vec![enemy("Ururun Wolf", Magnification::Split(300, 500), false)],
        None,
        crowns(2, Some(150), None, None),
    );
    assert_eq!(
        enemies_list(&st, &data()),
        vec![
            p("enemies", "{{Magnification|Ururun Wolf|300/500%}}"),
            p("enemies2", "{{Magnification|Ururun Wolf|450/750%}}"),
        ]
    );
}

fn with_energy(selector: &str, e: Option<u32>) -> Stage {
    let mut s = stage(selector, vec![], None, None);
    s.energy = e;
    s
}

fn energy_text(st: &Stage) -> String {
    energy(st).unwrap().to_string()
}

#[test]
fn test_energy_normal() {
    assert_eq!(energy(&with_energy("ul 0 0", Some(200))), Some(p("energy", "200")));
}

#[test]
fn test_energy_0() {
    assert_eq!(energy(&with_energy("challenge 0 0", Some(0))), Some(p("energy", "0")));
}

#[test]
fn test_energy_ex() {
    assert_eq!(energy(&with_energy("ex 47 0", Some(100))), Some(p("energy", "N/A")));
}

#[test]
fn test_energy_catamin() {
    assert_eq!(energy(&with_energy("b 5 0", Some(100))), Some(p("energy", "N/A")));
}

#[test]
fn test_energy_1_000() {
    assert_eq!(energy(&with_energy("s 326 0", Some(1_000))), Some(p("energy", "1,000")));
}

#[test]
fn test_energy_labyrinth() {
    assert_eq!(energy(&with_energy("l 0 66", None)), None);
}

#[test]
fn test_energy() {
    assert_eq!(&energy_text(&with_energy("ul 0 0", Some(200))), "|energy = 200");
    assert_eq!(&energy_text(&with_energy("challenge 0 0", Some(0))), "|energy = 0");
    assert_eq!(&energy_text(&with_energy("ex 47 0", Some(100))), "|energy = N/A");
    assert_eq!(&energy_text(&with_energy("b 5 0", Some(100))), "|energy = N/A");
    assert_eq!(&energy_text(&with_energy("s 326 0", Some(1_000))), "|energy = 1,000");
    assert_eq!(energy(&with_energy("l 0 66", None)), None);
}

fn ht30() -> Stage {
    let mut s = stage("v 0 29", vec![normal("Doge", 100)], None, None);
    s.base_hp = 1_000_000;
    s
}

fn dojo() -> Stage {
    let mut s = stage("t 0 0", vec![normal("Doge", 100)], None, None);
    s.base_hp = 1_000;
    s.time_limit = Some(5);
    s
}

fn just_friends() -> Stage {
    let mut s = stage(
        "s 302 2",
        vec![normal("Doge", 100), normal("Heart of Friendship", 1_000)],
        Some("Heart of Friendship"),
        None,
    );
    s.base_hp = 10;
    s
}

fn rongorongo() -> Stage {
    let mut s = stage(
        "s 129 5",
        vec![normal("Moai Base", 100), normal("Doge", 400)],
        Some("Moai Base"),
        crowns(4, Some(150), Some(200), Some(300)),
    );
    s.base_hp = 300_000;
    s
}

fn hp(key: &str, value: &str) -> TemplateParameter {
    p(key, value)
}

#[test]
fn test_base_hp_normal() {
    assert_eq!(base_hp(&ht30(), &data()), vec![hp("enemy castle hp", "1,000,000 HP")]);
}

#[test]
fn test_base_hp_dojo() {
    assert_eq!(base_hp(&dojo(), &data()), vec![hp("enemy castle hp", "Unlimited")]);
}

#[test]
fn test_base_hp_mismatch() {
    let just_friends = just_friends();
    assert_eq!(just_friends.base_hp, 10);
    assert_eq!(base_hp(&just_friends, &data()), vec![hp("enemy castle hp", "30,000 HP")]);
    let finale = finale();
    assert_eq!(finale.base_hp, 1_000);
    assert_eq!(base_hp(&finale, &data()), vec![hp("enemy castle hp", "50 HP")]);
}

fn rongorongo_hp() -> Vec<TemplateParameter> {
    vec![
        hp("enemy castle hp", "300,000 HP"),
        hp("enemy castle hp2", "450,000 HP"),
        hp("enemy castle hp3", "600,000 HP"),
        hp("enemy castle hp4", "900,000 HP"),
    ]
}

fn pile_of_guts_hp() -> Vec<TemplateParameter> {
    vec![
        hp("enemy castle hp", "1,200,000 HP"),
        hp("enemy castle hp2", "1,560,000 HP"),
        hp("enemy castle hp3", "2,040,000 HP"),
    ]
}

#[test]
fn test_base_hp_starred() {
    let rongorongo = rongorongo();
    assert_eq!(rongorongo.base_hp, 300_000);
    assert_eq!(base_hp(&rongorongo, &data()), rongorongo_hp());
}

#[test]
fn test_base_hp_mismatch_starred() {
    let pile_of_guts = pile_of_guts();
    assert_eq!(pile_of_guts.base_hp, 1_000_000);
    assert_eq!(base_hp(&pile_of_guts, &data()), pile_of_guts_hp());
}

#[test]
fn test_base_hp() {
    assert_eq!(base_hp(&ht30(), &data()), vec![hp("enemy castle hp", "1,000,000 HP")]);
    assert_eq!(base_hp(&dojo(), &data()), vec![hp("enemy castle hp", "Unlimited")]);
    let just_friends = just_friends();
    assert_eq!(just_friends.base_hp, 10);
    assert_eq!(base_hp(&just_friends, &data()), vec![hp("enemy castle hp", "30,000 HP")]);
    let finale = finale();
    assert_eq!(finale.base_hp, 1_000);
    assert_eq!(base_hp(&finale, &data()), vec![hp("enemy castle hp", "50 HP")]);
    let rongorongo = rongorongo();
    assert_eq!(rongorongo.base_hp, 300_000);
    assert_eq!(base_hp(&rongorongo, &data()), rongorongo_hp());
    let rong_buf = base_hp(&rongorongo, &data()).iter().fold(String::new(), param_vec_fold);
    assert_eq!(
        &rong_buf,
        "\
        |enemy castle hp = 300,000 HP\n\
        |enemy castle hp2 = 450,000 HP\n\
        |enemy castle hp3 = 600,000 HP\n\
        |enemy castle hp4 = 900,000 HP\n\
        "
    );
    let pile_of_guts = pile_of_guts();
    assert_eq!(pile_of_guts.base_hp, 1_000_000);
    assert_eq!(base_hp(&pile_of_guts, &data()), pile_of_guts_hp());
}

#[test]
fn base_hp_four_crowns_same_as_one() {
    let mut s = rongorongo();
    s.crown_data = crowns(4, Some(150), Some(200), Some(100));
    assert_eq!(
        base_hp(&s, &data()),
        vec![
            hp("enemy castle hp", "300,000 HP"),
            hp("enemy castle hp2", "450,000 HP"),
            hp("enemy castle hp3", "600,000 HP"),
        ]
    );
}

#[test]
fn base_hp_split_magnification_uses_hp() {
    let mut s = just_friends();
    s.enemies[1].magnification = Magnification::Split(1_000, 50);
    assert_eq!(base_hp(&s, &data()), vec![hp("enemy castle hp", "30,000 HP")]);
}

fn with_info(selector: &str, xp_amount: Option<u32>, w: u32, max: u32) -> Stage {
    let mut s = stage(selector, vec![], None, None);
    s.xp = xp_amount;
    s.width = w;
    s.max_enemies = max;
    s
}

#[test]
fn test_misc_info() {
    let earthshaker = with_info("n 0 0", Some(950), 4_200, 7);
    assert_eq!(earthshaker.xp, Some(950));
    assert_eq!(xp(&earthshaker), Some(p("XP", "950 XP")));
    assert_eq!(earthshaker.width, 4_200);
    assert_eq!(width(&earthshaker), p("width", "4,200"));
    assert_eq!(earthshaker.max_enemies, 7);
    assert_eq!(max_enemies(&earthshaker), p("max enemies", "7"));

    let labyrinth_67 = with_info("l 0 66", None, 3_900, 30);
    assert_eq!(labyrinth_67.xp, None);
    assert_eq!(xp(&labyrinth_67), None);
    assert_eq!(labyrinth_67.width, 3_900);
    assert_eq!(width(&labyrinth_67), p("width", "3,900"));
    assert_eq!(labyrinth_67.max_enemies, 30);
    assert_eq!(max_enemies(&labyrinth_67), p("max enemies", "30"));
}

#[test]
fn xp_ranking_dojo() {
    assert_eq!(xp(&with_info("rank 0 0", Some(0), 0, 0)), None);
    assert_eq!(xp(&with_info("rank 0 0", Some(1_500), 0, 0)), Some(p("XP", "1,500 XP")));
    assert_eq!(xp(&with_info("s 0 0", Some(0), 0, 0)), Some(p("XP", "0 XP")));
}
