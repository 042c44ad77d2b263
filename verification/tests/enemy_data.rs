use rust_wiki::wiki_data::enemy_data::{EnemyData, EnemyDataContainer, EnemyName};

const MS_SIGN: u32 = 21;

fn data(name: &str, id: u32) -> EnemyData {
    EnemyData { image_id: id, name: name.to_string(), link: None, hp: 1, attack: 1 }
}

fn enemy_data() -> EnemyDataContainer {
    let names = vec![
        EnemyName { id: 0, name: String::new(), plural: String::new() },
        EnemyName { id: 1, name: String::new(), plural: String::new() },
        EnemyName { id: 2, name: "Doge".to_string(), plural: "Doges".to_string() },
    ];
    EnemyDataContainer::new(
        names,
        vec![
            data("Doge", 0),
            data("Ms. Sign", MS_SIGN),
            data("E-644", 644),
            EnemyData {
                image_id: 354,
                name: "Hermit Cat".to_string(),
                link: Some("Hermit Cat (Enemy)".to_string()),
                hp: 1,
                attack: 1,
            },
        ],
    )
}

#[test]
fn test_reverse_map() {
    let enemy_data = enemy_data();
    let id = 0;
    let name = "Doge";
    assert_eq!(enemy_data.get_id_from_name(name).unwrap(), id);

    let id = MS_SIGN;
    let name = "Ms. Sign";
    assert_eq!(enemy_data.get_id_from_name(name).unwrap(), id);

    let id = 644;
    let name = "E-644";
    assert_eq!(enemy_data.get_id_from_name(name).unwrap(), id);
}

#[test]
fn test_case_reverse_map() {
    let enemy_data = enemy_data();
    assert_eq!(enemy_data.get_id_from_name("ms. sign"), enemy_data.get_id_from_name("MS. SIGN"));
    assert_eq!(enemy_data.get_id_from_name("MS. SIGN"), Some(MS_SIGN));
    assert_eq!(enemy_data.get_id_from_name("Nobody"), None);
}

#[test]
fn links_and_names_by_id() {
    let enemy_data = enemy_data();
    assert_eq!(enemy_data.get_data(354).link, Some("Hermit Cat (Enemy)".to_string()));
    assert_eq!(enemy_data.get_data(0).link, None);
    assert_eq!(enemy_data.get_common_name(644), "E-644");
    assert_eq!(enemy_data.get_names(0).name, "Doge");
}
