use rust_wiki::meta::stage::map_id::MapID;
use rust_wiki::meta::stage::stage_id::StageID;
use rust_wiki::meta::stage::stage_types::data::{
    get_data_matcher, get_stage_type, raw_stage_types, MAX_VARIANT_NUMBER, SELECTOR_SEPARATOR,
};
use rust_wiki::meta::stage::stage_types::parse::parse_map::{
    parse_general_map_id, parse_map_file, parse_map_selector,
};
use rust_wiki::meta::stage::stage_types::parse::parse_stage::{
    parse_general_stage_id, parse_stage_file, parse_stage_ref, parse_stage_selector,
};
use rust_wiki::meta::stage::stage_types::parse::StageTypeParseError as E;
use rust_wiki::meta::stage::stage_types::transform::transform_map::{map_data_file, map_img_code};
use rust_wiki::meta::stage::stage_types::transform::transform_stage::stage_data_file;
use rust_wiki::meta::stage::stage_types::types::StageCodeType as C;
use rust_wiki::meta::stage::variant::StageVariant as T;
use std::collections::HashSet;

#[test]
fn data_test_variants() {
    for variant in T::all() {
        let count = raw_stage_types()
            .iter()
            .filter(|st| st.variant_id == variant)
            .count();
        assert_eq!(count, 1, "{variant:?} should appear exactly once.");
        assert!(
            variant.num() <= MAX_VARIANT_NUMBER,
            "Variant {variant:?} has a value higher than {MAX_VARIANT_NUMBER}."
        );
    }
}

#[test]
fn stage_types_test_variants() {
    for variant in T::all() {
        let is_in_map = raw_stage_types()
            .into_iter()
            .filter(|st| st.variant_id == variant)
            .collect::<Vec<_>>();
        let len = is_in_map.len();
        assert_eq!(len, 1, "{variant:?} should appear exactly once.");
        assert_eq!(get_stage_type(variant).variant_id, variant);

        let variant_num = usize::try_from(variant.num())
            .expect("Error when converting from stage variant number to usize.");
        assert!(
            variant_num <= MAX_VARIANT_NUMBER as usize,
            "Variant {variant:?} has a value higher than {MAX_VARIANT_NUMBER}."
        );
    }
}

#[test]
fn assert_iter_correct() {
    let raw = raw_stage_types();
    let mut counter = 0;
    for (variant, st) in T::all().into_iter().zip(raw.iter()) {
        counter += 1;
        assert_eq!(get_stage_type(variant), *st);
    }
    assert_eq!(counter, raw.len());
    assert_eq!(counter, 24);
}

#[test]
fn has_valid_map_and_stage_codes() {
    for raw in raw_stage_types() {
        if raw.map_code.is_none() || raw.stage_code == C::Custom {
            assert!(
                raw.map_code.is_none() && raw.stage_code == C::Custom,
                "{t:?} has undefined behaviour with stage and map codes.",
                t = raw.variant_id
            );
        }
    }
}

#[test]
fn assert_matchers_are_unique_and_valid() {
    let mut seen = HashSet::new();
    for st in raw_stage_types() {
        for pattern in get_data_matcher(&st).arr {
            assert!(!pattern.contains(SELECTOR_SEPARATOR));
            assert!(
                seen.insert(pattern.clone()),
                "Duplicated matcher pattern {pattern:?} found for stage type {:?}",
                st.variant_id
            );
        }
    }
}

#[test]
fn assert_upper_codes() {
    fn is_upper(s: &str) -> bool {
        s.chars().all(|c| c.is_ascii_uppercase())
    }

    for raw in raw_stage_types() {
        if let Some(s) = raw.map_code {
            assert!(is_upper(s));
        }
        match raw.stage_code {
            C::Other(s) => assert!(is_upper(s)),
            C::SameAsMap | C::RPrefix | C::Custom => (),
        }
    }
}

#[test]
fn assert_main_selector() {
    let desired: Vec<&str> = "main|EoC|ItF|W|CotC|Space|3".split('|').collect();
    let main = get_stage_type(T::MainChapters);
    assert_eq!(desired, get_data_matcher(&main).arr);
}

#[test]
fn test_custom_stypes() {
    for data in raw_stage_types() {
        if data.map_code.is_none() || data.stage_code == C::Custom {
            assert!(matches!(
                data.variant_id,
                T::MainChapters | T::EocOutbreak | T::ItfOutbreak | T::CotcOutbreak | T::Filibuster
            ));
        }
    }
}

#[test]
fn test_general_case() {
    let earthshaker = StageID::from_components(T::SoL, 0, 0);
    assert_eq!(stage_data_file(&earthshaker), "stageRN000_00.csv");
}

#[test]
fn test_outbreak_coercion() {
    let stage = StageID::from_components(T::EocOutbreak, 1, 47);
    assert_eq!(stage_data_file(&stage), "stageZ01_49.csv");

    let stage = StageID::from_components(T::EocOutbreak, 2, 47);
    assert_eq!(stage_data_file(&stage), "stageZ02_50.csv");

    let stage = StageID::from_components(T::ItfOutbreak, 0, 47);
    assert_eq!(stage_data_file(&stage), "stageZ04_47.csv");

    let stage = StageID::from_components(T::EocOutbreak, 1, 47);
    assert_eq!(parse_stage_file(&stage_data_file(&stage)).unwrap(), stage);
}

#[test]
fn test_parse_selector_sol() {
    let answer = StageID::from_components(T::SoL, 0, 0);
    assert_eq!(parse_stage_selector("SoL 0 0").unwrap(), answer);
    assert_eq!(parse_stage_selector("sol 0 0").unwrap(), answer);
    assert_eq!(parse_stage_selector("n 0 0").unwrap(), answer);
    assert_eq!(parse_stage_selector("rn 0 0").unwrap(), answer);
}

#[test]
fn test_parse_selector_ex() {
    let answer = StageID::from_components(T::Extra, 0, 0);
    assert_eq!(parse_stage_selector("eXTRA 0 0").unwrap(), answer);
    assert_eq!(parse_stage_selector("extra 0 0").unwrap(), answer);
    assert_eq!(parse_stage_selector("4 0 0").unwrap(), answer);
    assert_eq!(parse_stage_selector("RE 0 0").unwrap(), answer);
    assert_eq!(parse_stage_selector("EX 0 0").unwrap(), answer);
}

#[test]
fn test_parse_selector_main() {
    let eoc1 = StageID::from_components(T::MainChapters, 0, 0);
    assert_eq!(parse_stage_selector("eoc 0").unwrap(), eoc1);
    assert_eq!(parse_stage_selector("main 0 0").unwrap(), eoc1);
    assert_eq!(parse_stage_selector("3 0 0").unwrap(), eoc1);

    let itf1 = StageID::from_components(T::MainChapters, 3, 0);
    assert_eq!(parse_stage_selector("itf 1 0").unwrap(), itf1);
    assert_eq!(parse_stage_selector("main 3 0").unwrap(), itf1);
    assert_eq!(parse_stage_selector("3 3 0").unwrap(), itf1);

    let cotc1 = StageID::from_components(T::MainChapters, 6, 0);
    assert_eq!(parse_stage_selector("cotc 1 0").unwrap(), cotc1);
    assert_eq!(parse_stage_selector("main 6 0").unwrap(), cotc1);
    assert_eq!(parse_stage_selector("3 6 0").unwrap(), cotc1);
}

#[test]
fn test_parse_single_stage() {
    let filibuster = StageID::from_components(T::Filibuster, 0, 0);
    assert_eq!(parse_stage_selector("filibuster").unwrap(), filibuster);
    assert_eq!(parse_stage_selector("filibuster 30 12").unwrap(), filibuster);

    let challenge = StageID::from_components(T::Challenge, 0, 0);
    assert_eq!(parse_stage_selector("challenge").unwrap(), challenge);
    assert_eq!(parse_stage_selector("challenge 30 12").unwrap(), challenge);
}

#[test]
fn test_parse_single_map() {
    let cases = [
        ("aku 0", T::AkuRealms, 0),
        ("aku 1", T::AkuRealms, 1),
        ("aku 0 1", T::AkuRealms, 1),
        ("aku 0 0 0 0 0 1", T::AkuRealms, 1),
        ("labyrinth 0", T::Labyrinth, 0),
        ("labyrinth 1", T::Labyrinth, 1),
        ("labyrinth 0 1", T::Labyrinth, 1),
        ("labyrinth 0 0 0 0 0 1", T::Labyrinth, 1),
        ("eoc 0", T::MainChapters, 0),
        ("eoc 1", T::MainChapters, 1),
        ("eoc 0 1", T::MainChapters, 1),
        ("eoc 0 0 0 0 0 1", T::MainChapters, 1),
    ];
    for (selector, variant, stage) in cases {
        assert_eq!(
            parse_stage_selector(selector).unwrap(),
            StageID::from_components(variant, 0, stage)
        );
    }
}

#[test]
fn test_parse_selector_fail() {
    let st = parse_stage_selector("invalid_selector 0 0");
    assert_eq!(st, Err(E::UnknownMatcher));
}

#[test]
fn parse_stage_test_from_selector() {
    assert_eq!(parse_stage_selector("N 0 0").unwrap(), StageID::from_components(T::SoL, 0, 0));
    assert_eq!(parse_stage_selector("sol 0 0").unwrap(), StageID::from_components(T::SoL, 0, 0));
    assert_eq!(parse_stage_selector("T 0 0").unwrap(), StageID::from_components(T::Dojo, 0, 0));
    assert_eq!(parse_stage_selector("EX 0 0").unwrap(), StageID::from_components(T::Extra, 0, 0));
    assert_eq!(
        parse_stage_selector("COTC 1 0").unwrap(),
        StageID::from_components(T::MainChapters, 6, 0)
    );
}

#[test]
fn parse_stage_test_from_file() {
    assert_eq!(parse_stage_file("stageRN000_00.csv").unwrap(), StageID::from_components(T::SoL, 0, 0));
    assert_eq!(parse_stage_file("stageRT000_00.csv").unwrap(), StageID::from_components(T::Dojo, 0, 0));
    assert_eq!(parse_stage_file("stageL000_00.csv").unwrap(), StageID::from_components(T::Labyrinth, 0, 0));
    assert_eq!(parse_stage_file("stageEX000_00.csv").unwrap(), StageID::from_components(T::Extra, 0, 0));
}

#[test]
fn parse_stage_test_from_file_main() {
    assert_eq!(
        parse_stage_file("stageSpace07_00.csv").unwrap(),
        StageID::from_components(T::MainChapters, 6, 0)
    );
    assert_eq!(
        parse_stage_file("stageZ00_00.csv").unwrap(),
        StageID::from_components(T::EocOutbreak, 0, 0)
    );
}

#[test]
fn parse_stage_test_from_ref() {
    let answer = StageID::from_components(T::SoL, 0, 0);
    assert_eq!(parse_stage_ref("*https://battlecats-db.com/stage/s00000-01.html").unwrap(), answer);
    assert_eq!(parse_stage_ref("https://battlecats-db.com/stage/s00000-01.html").unwrap(), answer);
    assert_eq!(parse_stage_ref("s00000-01").unwrap(), answer);
}

#[test]
fn parse_stage_test_new() {
    let selector = "*https://battlecats-db.com/stage/s01382-03.html";
    assert_eq!(parse_stage_ref(selector).unwrap(), parse_general_stage_id(selector).unwrap());
    assert_eq!(parse_general_stage_id(selector).unwrap(), StageID::from_components(T::Event, 382, 2));

    let selector = "ItF 1 48";
    assert_eq!(parse_stage_selector(selector).unwrap(), parse_general_stage_id(selector).unwrap());
    assert_eq!(parse_stage_selector(selector).unwrap(), StageID::from_components(T::MainChapters, 3, 48));

    let selector = "DM 0";
    assert_eq!(parse_stage_selector(selector).unwrap(), parse_general_stage_id(selector).unwrap());
    assert_eq!(parse_stage_selector(selector).unwrap(), StageID::from_components(T::AkuRealms, 0, 0));

    let selector = "Filibuster";
    assert_eq!(parse_stage_selector(selector).unwrap(), parse_general_stage_id(selector).unwrap());
    assert_eq!(parse_stage_selector(selector).unwrap(), StageID::from_components(T::Filibuster, 0, 0));

    let selector = "itfz 1 0";
    assert_eq!(parse_stage_selector(selector).unwrap(), parse_general_stage_id(selector).unwrap());
    assert_eq!(parse_stage_selector(selector).unwrap(), StageID::from_components(T::ItfOutbreak, 1, 0));

    let selector = "stageRN013_05.csv";
    assert_eq!(parse_stage_file(selector).unwrap(), parse_general_stage_id(selector).unwrap());
    assert_eq!(parse_stage_file(selector).unwrap(), StageID::from_components(T::SoL, 13, 5));

    let selector = "stageRN000_00.csv";
    assert_eq!(parse_stage_file(selector).unwrap(), parse_general_stage_id(selector).unwrap());
    assert_eq!(parse_stage_file(selector).unwrap(), StageID::from_components(T::SoL, 0, 0));

    let selector = "stageW04_05.csv";
    assert_eq!(parse_stage_file(selector).unwrap(), parse_general_stage_id(selector).unwrap());
    assert_eq!(parse_stage_file(selector).unwrap(), StageID::from_components(T::MainChapters, 3, 5));

    let selector = "stageW04_05.csv";
    assert_eq!(parse_general_stage_id(&String::from(selector)), parse_general_stage_id(selector));
    assert_eq!(
        parse_general_stage_id(&String::from(selector)).unwrap(),
        StageID::from_components(T::MainChapters, 3, 5)
    );
}

#[test]
fn parse_stage_test_stage_type_error() {
    assert_eq!(parse_general_stage_id("unknown 0"), None);
    assert_eq!(parse_stage_file("file no exist"), Err(E::InvalidFormat));
    assert_eq!(parse_stage_ref("not a reference"), Err(E::InvalidFormat));
}

#[test]
fn parse_stage_test_negative_selector() {
    assert_eq!(parse_stage_selector("Q 2 -1"), Err(E::InvalidNumber));
}

#[test]
fn parse_stage_test_non_numeric_selector() {
    assert_eq!(parse_stage_selector("Labyrinth two three"), Err(E::InvalidNumber));
}

#[test]
fn parse_stage_test_not_enough_args() {
    assert_eq!(parse_stage_selector("itf"), Err(E::NoMapNumber));
}

/// Stages spread over each variant's range, standing in for random draws.
fn sample_stages(var: T) -> Vec<(u32, u32)> {
    let picks: [(u32, u32); 8] = [(0, 0), (1, 1), (7, 42), (13, 5), (99, 99), (382, 2), (500, 750), (999, 999)];
    picks
        .iter()
        .map(|&(map, stage)| {
            if var == T::Challenge || var == T::Filibuster {
                (0, 0)
            } else if var == T::AkuRealms || var == T::Labyrinth {
                (0, stage)
            } else if var.is_outbreak() {
                (map % 3, stage)
            } else {
                (map, stage)
            }
        })
        .collect()
}

fn check_properties(var: T, map: u32, stage: u32) {
    let st = StageID::from_components(var, map, stage);
    let file_name = stage_data_file(&st);
    assert_eq!(file_name, stage_data_file(&parse_stage_file(&file_name).unwrap()));
    assert_eq!(st, parse_stage_selector(&format!("{} {map} {stage}", var.num())).unwrap());
    assert_eq!(
        st,
        parse_stage_ref(&format!("s{:02}{:03}-{:02}", var.num(), map, stage + 1)).unwrap()
    );
}

#[test]
fn parse_stage_test_random_properties() {
    for var in T::all() {
        if var == T::MainChapters {
            continue;
        }
        for (map, stage) in sample_stages(var) {
            check_properties(var, map, stage);
        }
    }
}

#[test]
fn parse_stage_test_random_properties_main() {
    let var = T::MainChapters;
    for stage in [0, 1, 9, 10, 47, 48, 99] {
        check_properties(var, 0, stage);
    }
    for map in 3..=8 {
        for stage in [0, 5, 48, 100, 999] {
            check_properties(var, map, stage);
        }
    }
}

#[test]
fn map_selector_offsets() {
    assert_eq!(parse_map_selector("itf 1").unwrap(), MapID::from_components(T::MainChapters, 3));
    assert_eq!(parse_map_selector("space 3").unwrap(), MapID::from_components(T::MainChapters, 8));
    assert_eq!(parse_map_selector("EoC 7").unwrap(), MapID::from_components(T::MainChapters, 0));
    assert_eq!(parse_map_selector("main 7").unwrap(), MapID::from_components(T::MainChapters, 7));
    assert_eq!(parse_map_selector("aku").unwrap(), MapID::from_components(T::AkuRealms, 0));
    assert_eq!(parse_map_selector("sol"), Err(E::NoMapNumber));
    assert_eq!(parse_map_selector("sol x"), Err(E::InvalidNumber));
    assert_eq!(parse_map_selector("nothing 1"), Err(E::UnknownMatcher));
}

#[test]
fn map_file_names() {
    assert_eq!(parse_map_file("MapStageDataN_000.csv").unwrap(), MapID::from_components(T::SoL, 0));
    assert_eq!(parse_map_file("MapStageDataN_013.csv").unwrap(), MapID::from_components(T::SoL, 13));
    assert_eq!(parse_map_file("MapStageDataN_\u{661}\u{663}.csv"), Err(E::InvalidNumber));
    assert_eq!(parse_map_file("MapStageDataNothing_013.csv"), Err(E::UnknownMatcher));
    assert_eq!(parse_general_map_id("MapStageDataN_013.csv").unwrap(), MapID::from_components(T::SoL, 13));
    assert_eq!(
        parse_map_file("MapStageDataAku_.csv").unwrap(),
        MapID::from_components(T::AkuRealms, 0)
    );
    assert_eq!(
        parse_general_map_id("MapStageDataLabyrinth_.csv").unwrap(),
        MapID::from_components(T::Labyrinth, 0)
    );
    assert_eq!(map_data_file(&MapID::from_components(T::SoL, 4)), "MapStageDataN_004.csv");
    assert_eq!(map_data_file(&MapID::from_components(T::MainChapters, 4)), "stageNormal1_1.csv");
    assert_eq!(map_data_file(&MapID::from_components(T::MainChapters, 8)), "stageNormal2_2.csv");
    assert_eq!(map_data_file(&MapID::from_components(T::MainChapters, 1)), "stageNormal0.csv");
    assert_eq!(map_data_file(&MapID::from_components(T::ItfOutbreak, 2)), "stageNormal1_2_Z.csv");
    assert_eq!(map_data_file(&MapID::from_components(T::Filibuster, 0)), "stageNormal2_2_Invasion.csv");
    assert_eq!(map_img_code(&MapID::from_components(T::Extra, 0)), "ex");
    assert_eq!(map_img_code(&MapID::from_components(T::SoL, 0)), "n");
    assert_eq!(map_img_code(&MapID::from_components(T::MainChapters, 0)), "main");
}

#[test]
fn stage_files_and_refs() {
    assert_eq!(parse_stage_file("stage05.csv").unwrap(), StageID::from_components(T::MainChapters, 0, 5));
    assert_eq!(parse_stage_file("stage5x.csv"), Err(E::InvalidNumber));
    assert_eq!(parse_stage_file("MapStageDataN_000.csv"), Err(E::InvalidFormat));
    assert_eq!(parse_stage_file("stage05.txt"), Err(E::InvalidFormat));
    assert_eq!(parse_general_stage_id("MapStageDataN_000.csv"), None);
    assert_eq!(parse_stage_file("stageRN\u{661}\u{663}_05.csv"), Err(E::InvalidNumber));
    assert_eq!(parse_stage_file("stageZ02_50.csv").unwrap(), StageID::from_components(T::EocOutbreak, 2, 47));
    assert_eq!(parse_stage_file("stageZ08_03.csv").unwrap(), StageID::from_components(T::CotcOutbreak, 1, 3));
    assert_eq!(
        parse_stage_file("stageSpace09_Invasion_00.csv").unwrap(),
        StageID::from_components(T::Filibuster, 0, 0)
    );
    assert_eq!(parse_stage_ref("s01382-3"), Err(E::InvalidFormat));
    assert_eq!(parse_stage_ref("https://battlecats-db.com/stage/s01382-03html"), Err(E::InvalidFormat));
    assert_eq!(StageID::from_components(T::Event, 382, 2).to_string(), "001-382-002");
}
