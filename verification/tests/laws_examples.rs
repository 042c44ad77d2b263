use rust_wiki::meta::stage::stage_id::StageID;
use rust_wiki::meta::stage::stage_types::parse::parse_stage::parse_stage_file;
use rust_wiki::meta::stage::stage_types::transform::transform_stage::stage_data_file;
use rust_wiki::meta::stage::variant::StageVariant as T;
use rust_wiki::stage::stage_type::StageType;
use rust_wiki::wiki_data::cat_data::{CatDataContainer, CatName};
use rust_wiki::wikitext::tabber::{Tabber, TabberTab, TabberType};
use rust_wiki::wikitext::template::{Template, TemplateParameter};

fn cat(id: u32, normal: &str, evolved: Option<&str>) -> CatName {
    CatName {
        id,
        normal: normal.to_string(),
        evolved: evolved.map(|s| s.to_string()),
        true_form: None,
        ultra: None,
        page: normal.to_string(),
        rarity: "Normal".to_string(),
    }
}

#[test]
fn moon_stage_file_names_round_trip() {
    let moon = StageID::from_components(T::EocOutbreak, 1, 49);
    let name = stage_data_file(&moon);
    assert_eq!(name, "stageZ01_49.csv");
    let parsed = parse_stage_file(&name).unwrap();
    assert_eq!(parsed, StageID::from_components(T::EocOutbreak, 1, 47));
    assert_eq!(stage_data_file(&parsed), name);
}

#[test]
fn early_main_chapter_file_names_round_trip() {
    let stage = StageID::from_components(T::MainChapters, 2, 5);
    let name = stage_data_file(&stage);
    assert_eq!(name, "stage05.csv");
    let parsed = parse_stage_file(&name).unwrap();
    assert_eq!(parsed, StageID::from_components(T::MainChapters, 0, 5));
    assert_eq!(stage_data_file(&parsed), name);
}

#[test]
fn stage_type_file_round_trip() {
    for (code, map, stage) in [("N", 3, 4), ("S", 1000, 2), ("L", 0, 7), ("RE|EX", 61, 2)] {
        let st = StageType::from_split_parsed(code, map, stage).unwrap();
        assert_eq!(StageType::from_file(&st.stage_file_name).unwrap(), st);
    }
}

#[test]
fn cat_lookup_takes_first_match() {
    let cats = CatDataContainer::new(
        vec![cat(0, "Cat", None), cat(1, "Tank Cat", Some("Wall Cat")), cat(2, "Wall Cat", None)],
        vec![("Cat".to_string(), "Kitty".to_string()), ("Cat".to_string(), "Other".to_string())],
    );
    assert_eq!(cats.get_id_from_name("wall cat"), Some(1));
    assert_eq!(cats.get_id_from_name("CAT"), Some(0));
    assert_eq!(cats.get_id_from_name("Nobody"), None);
    assert_eq!(cats.get_cat_replacement("Cat"), Some("Kitty"));
    assert_eq!(cats.get_cat_replacement("Dog"), None);
}

#[test]
fn added_params_come_before_closing() {
    let t = Template::named("Stage Info".to_string())
        .add_params(TemplateParameter::new("a".to_string(), "1".to_string()))
        .add_params(vec![
            TemplateParameter::new("b".to_string(), "2".to_string()),
            TemplateParameter::new("c".to_string(), "3".to_string()),
        ]);
    assert_eq!(t.to_string(), "{{Stage Info\n|a = 1\n|b = 2\n|c = 3\n}}");
}

#[test]
fn tabber_tabs_are_separated() {
    let tabs = vec![
        TabberTab::new("A".to_string(), "one".to_string()),
        TabberTab::new("B".to_string(), "two".to_string()),
        TabberTab::new("C".to_string(), "three".to_string()),
    ];
    let t = Tabber::new(TabberType::Tabber, tabs);
    assert_eq!(t.to_string(), "<tabber>\nA=\none\n\n|-|\nB=\ntwo\n\n|-|\nC=\nthree\n</tabber>");
}
