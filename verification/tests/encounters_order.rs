use rust_wiki::meta::stage::stage_id::StageID;
use rust_wiki::meta::stage::variant::StageVariant as T;
use rust_wiki::wikitext::data_files::stage_wiki_data::{StageNamesLine, StageWikiDataContainer};
use rust_wiki::wikitext::encounters::order::{
    enumerate_meta, get_section_map, key, raw_section, sort_encounters, type_order,
};
use rust_wiki::wikitext::encounters::section::SectionRef as Ref;

#[test]
fn test_type_order() {
    let all = T::all();
    let order = type_order();
    assert_eq!(all.len(), order.len());
    for stype in all {
        assert!(order.contains(&stype), "Type order array does not contain variant {:?}", stype);
    }
    assert_eq!(enumerate_meta(&StageID::from_components(T::MainChapters, 0, 0)), 0);
}

#[test]
fn order_positions() {
    assert_eq!(enumerate_meta(&StageID::from_components(T::EocOutbreak, 0, 0)), 1);
    assert_eq!(enumerate_meta(&StageID::from_components(T::CotcOutbreak, 0, 0)), 1);
    assert_eq!(enumerate_meta(&StageID::from_components(T::Filibuster, 0, 0)), 2);
    assert_eq!(enumerate_meta(&StageID::from_components(T::SoL, 0, 0)), 4);
    assert_eq!(enumerate_meta(&StageID::from_components(T::Championships, 0, 0)), 19);
    assert_eq!(enumerate_meta(&StageID::from_components(T::Extra, 0, 0)), 21);
    let order = type_order();
    for w in order.windows(2) {
        assert!(enumerate_meta(&StageID::from_components(w[0], 0, 0)) <= enumerate_meta(&StageID::from_components(w[1], 0, 0)));
    }
}

#[test]
fn sections_of_stages() {
    assert_eq!(raw_section(&StageID::from_components(T::MainChapters, 0, 3)), Ref::EoC);
    assert_eq!(raw_section(&StageID::from_components(T::MainChapters, 4, 3)), Ref::ItF);
    assert_eq!(raw_section(&StageID::from_components(T::MainChapters, 8, 3)), Ref::CotC);
    assert_eq!(raw_section(&StageID::from_components(T::ItfOutbreak, 1, 0)), Ref::ItfOutbreak);
    assert_eq!(raw_section(&StageID::from_components(T::Filibuster, 0, 0)), Ref::CotC);
    assert_eq!(raw_section(&StageID::from_components(T::Tower, 3, 0)), Ref::Event);
    assert_eq!(raw_section(&StageID::from_components(T::CollabGauntlet, 3, 0)), Ref::Collab);
    assert_eq!(raw_section(&StageID::from_components(T::Championships, 0, 0)), Ref::Dojo);
    assert_eq!(raw_section(&StageID::from_components(T::Catamin, 0, 0)), Ref::Catamin);
}

fn names() -> StageWikiDataContainer {
    let lines = vec![StageNamesLine { type_num: 0, map_num: None, stage_num: None, link: "[[SoL]]".to_string() }];
    StageWikiDataContainer::new(lines, vec![Some((1, 17)), None, Some((30, 0)), Some((3, 4))], vec![])
}

#[test]
fn keys_of_stages() {
    let names = names();
    assert_eq!(key(&StageID::from_components(T::SoL, 2, 5), &names), (4, 2, 5));
    assert_eq!(key(&StageID::from_components(T::Extra, 0, 1), &names), (8, 17, 999));
    assert_eq!(key(&StageID::from_components(T::Extra, 1, 1), &names), (21, 1, 1));
    assert_eq!(key(&StageID::from_components(T::Extra, 2, 4), &names), (3, 0, 999));
    assert_eq!(key(&StageID::from_components(T::Extra, 3, 0), &names), (0, 4, 999));
}

#[test]
fn section_map_groups_in_order() {
    let names = names();
    let ids = vec![
        StageID::from_components(T::SoL, 0, 0),
        StageID::from_components(T::Event, 5, 1),
        StageID::from_components(T::Catamin, 0, 0),
        StageID::from_components(T::SoL, 1, 2),
        StageID::from_components(T::Extra, 0, 0),
        StageID::from_components(T::Extra, 1, 0),
        StageID::from_components(T::Extra, 2, 0),
        StageID::from_components(T::Extra, 3, 0),
        StageID::from_components(T::Tower, 0, 0),
    ];
    let map = get_section_map(&ids, &names);
    assert_eq!(
        map,
        vec![
            (Ref::SoL, vec![ids[0], ids[3]]),
            (Ref::Event, vec![ids[1], ids[4], ids[8]]),
            (Ref::AkuRealms, vec![ids[6]]),
            (Ref::ItF, vec![ids[7]]),
        ]
    );
}

#[test]
fn encounters_sorted_by_key_and_stable() {
    let names = names();
    let mut ids = vec![
        StageID::from_components(T::Event, 17, 3),
        StageID::from_components(T::SoL, 4, 1),
        StageID::from_components(T::Extra, 0, 2),
        StageID::from_components(T::MainChapters, 4, 0),
        StageID::from_components(T::Extra, 0, 0),
        StageID::from_components(T::SoL, 2, 9),
        StageID::from_components(T::Catamin, 0, 0),
        StageID::from_components(T::EocOutbreak, 1, 0),
        StageID::from_components(T::CotcOutbreak, 0, 5),
    ];
    sort_encounters(&mut ids, &names);
    assert_eq!(
        ids,
        vec![
            StageID::from_components(T::MainChapters, 4, 0),
            StageID::from_components(T::CotcOutbreak, 0, 5),
            StageID::from_components(T::EocOutbreak, 1, 0),
            StageID::from_components(T::SoL, 2, 9),
            StageID::from_components(T::SoL, 4, 1),
            StageID::from_components(T::Event, 17, 3),
            StageID::from_components(T::Extra, 0, 2),
            StageID::from_components(T::Extra, 0, 0),
            StageID::from_components(T::Catamin, 0, 0),
        ]
    );
}
