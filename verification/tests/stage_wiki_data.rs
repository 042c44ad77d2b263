use rust_wiki::meta::stage::map_id::MapID;
use rust_wiki::meta::stage::stage_id::StageID;
use rust_wiki::meta::stage::variant::StageVariant as T;
use rust_wiki::wikitext::data_files::stage_wiki_data::{StageNamesLine, StageWikiDataContainer};

fn line(t: u32, m: Option<u32>, s: Option<u32>, link: &str) -> StageNamesLine {
    StageNamesLine { type_num: t, map_num: m, stage_num: s, link: link.to_string() }
}

fn container() -> StageWikiDataContainer {
    let lines = vec![
        line(0, None, None, "[[Stories of Legend]]"),
        line(0, Some(0), None, "[[The Legend Begins]]"),
        line(0, Some(0), Some(0), "[[Earthshaker]]"),
        line(0, Some(0), Some(1), "[[Return of Terror]]"),
        line(0, Some(1), None, "[[Passion Land]]"),
        line(4, None, None, "[[Extra Stages]]"),
        line(4, Some(3), None, "[[Catfruit Jubilee]]"),
        line(4, Some(3), Some(0), "[[Catfruit Jubilee]]"),
        line(0, Some(1), None, "[[Passion Land (Renamed)]]"),
    ];
    StageWikiDataContainer::new(
        lines,
        vec![Some((1, 2)), None],
        vec![
            ("000-000-000".to_string(), 1),
            ("000-000-001".to_string(), 2),
            ("000-000-000".to_string(), 3),
        ],
    )
}

#[test]
fn names_are_found_where_the_lines_put_them() {
    let c = container();
    assert_eq!(c.stage_type(T::SoL).unwrap().name, "[[Stories of Legend]]");
    assert!(c.stage_type(T::Event).is_none());
    let map = c.stage_map(&MapID::from_components(T::SoL, 0)).unwrap();
    assert_eq!(map.name, "[[The Legend Begins]]");
    assert!(!map.is_empty());
    assert_eq!(map.get(1).unwrap().name, "[[Return of Terror]]");
    assert!(map.get(2).is_none());
    assert_eq!(
        c.stage(&StageID::from_components(T::SoL, 0, 0)).unwrap().name,
        "[[Earthshaker]]"
    );
    assert_eq!(
        c.stage(&StageID::from_components(T::Extra, 3, 0)).unwrap().name,
        "[[Catfruit Jubilee]]"
    );
    assert!(c.stage(&StageID::from_components(T::Extra, 4, 0)).is_none());
}

#[test]
fn a_later_map_line_replaces_the_map() {
    let c = container();
    let map = c.stage_map(&MapID::from_components(T::SoL, 1)).unwrap();
    assert_eq!(map.name, "[[Passion Land (Renamed)]]");
    assert!(map.is_empty());
}

#[test]
fn continue_ids_and_difficulties() {
    let c = container();
    assert_eq!(c.continue_id(0), Some((1, 2)));
    assert_eq!(c.continue_id(1), None);
    assert_eq!(c.difficulty(&StageID::from_components(T::SoL, 0, 0)), Some(&3));
    assert_eq!(c.difficulty(&StageID::from_components(T::SoL, 0, 1)), Some(&2));
    assert_eq!(c.difficulty(&StageID::from_components(T::SoL, 0, 2)), None);
}

#[test]
fn names_lines_out_of_order_are_refused() {
    let c = StageWikiDataContainer::try_new(
        vec![line(0, None, None, "a"), line(0, Some(0), None, "b"), line(0, Some(0), Some(1), "c")],
        vec![],
        vec![],
    );
    assert!(c.is_none());
    let c = StageWikiDataContainer::try_new(vec![line(0, Some(0), None, "b")], vec![], vec![]);
    assert!(c.is_none());
    let c = StageWikiDataContainer::try_new(vec![line(99, None, None, "b")], vec![], vec![]);
    assert!(c.is_none());
    let c = StageWikiDataContainer::try_new(vec![line(3, None, None, "b")], vec![], vec![]);
    assert!(c.is_some());
}
