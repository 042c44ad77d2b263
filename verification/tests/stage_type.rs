use rust_wiki::stage::stage_type::{get_st_obj, StageCode, StageType, StageTypeError};

#[test]
fn stage_type_test_from_split_sol() {
    let answer = StageType {
        type_full_name: "Stories of Legend",
        type_code: "N",
        type_num: 0,
        map_num: 0,
        stage_num: 0,
        map_file_name: "MapStageDataN_000.csv".to_string(),
        stage_file_name: "stageRN000_00.csv".to_string(),
    };

    let st = StageType::from_split("SoL", 0, 0).unwrap();
    assert_eq!(st, answer);
    let st = StageType::from_split("sol", 0, 0).unwrap();
    assert_eq!(st, answer);
    let st = StageType::from_split("n", 0, 0).unwrap();
    assert_eq!(st, answer);
    let st = StageType::from_split("rn", 0, 0).unwrap();
    assert_eq!(st, answer);
}

#[test]
fn stage_type_test_from_split_ex() {
    let answer = StageType {
        type_full_name: "Extra Stages",
        type_code: "EX",
        type_num: 4,
        map_num: 0,
        stage_num: 0,
        map_file_name: "MapStageDataRE_000.csv".to_string(),
        stage_file_name: "stageEX000_00.csv".to_string(),
    };

    let st = StageType::from_split("eXTRA", 0, 0).unwrap();
    assert_eq!(st, answer);
    let st = StageType::from_split("extra", 0, 0).unwrap();
    assert_eq!(st, answer);
    let st = StageType::from_split("4", 0, 0).unwrap();
    assert_eq!(st, answer);
    let st = StageType::from_split("RE", 0, 0).unwrap();
    assert_eq!(st, answer);
    let st = StageType::from_split("EX", 0, 0).unwrap();
    assert_eq!(st, answer);
}

#[test]
fn stage_type_test_from_selector_main() {
    let st = StageType::from_selector_main(vec!["eoc", "0"]).unwrap();
    assert_eq!(
        st,
        StageType {
            type_full_name: "Main Chapters",
            type_code: "main",
            type_num: 3,
            map_num: 9,
            stage_num: 0,
            map_file_name: "stageNormal0.csv".to_string(),
            stage_file_name: "stage00.csv".to_string()
        }
    );

    let st = StageType::from_selector_main(vec!["itf", "1", "0"]).unwrap();
    assert_eq!(
        st,
        StageType {
            type_full_name: "Main Chapters",
            type_code: "main",
            type_num: 3,
            map_num: 3,
            stage_num: 0,
            map_file_name: "stageNormal1_0.csv".to_string(),
            stage_file_name: "stageW04_00.csv".to_string()
        }
    );

    let st = StageType::from_selector_main(vec!["cotc", "1", "0"]).unwrap();
    assert_eq!(
        st,
        StageType {
            type_full_name: "Main Chapters",
            type_code: "main",
            type_num: 3,
            map_num: 6,
            stage_num: 0,
            map_file_name: "stageNormal2_0.csv".to_string(),
            stage_file_name: "stageSpace07_00.csv".to_string()
        }
    );

    let st = StageType::from_selector_main(vec!["aku", "0"]).unwrap();
    assert_eq!(
        st,
        StageType {
            type_full_name: "Main Chapters",
            type_code: "main",
            type_num: 3,
            map_num: 14,
            stage_num: 0,
            map_file_name: "MapStageDataDM_000.csv".to_string(),
            stage_file_name: "stageDM000_00.csv".to_string()
        }
    );

    let st = StageType::from_selector_main(vec!["filibuster"]).unwrap();
    assert_eq!(
        st,
        StageType {
            type_full_name: "Main Chapters",
            type_code: "main",
            type_num: 3,
            map_num: 11,
            stage_num: 0,
            map_file_name: "stageNormal2_2_Invasion.csv".to_string(),
            stage_file_name: "stageSpace09_Invasion_00.csv".to_string()
        }
    );

    let st = StageType::from_selector_main(vec!["z", "7", "0"]).unwrap();
    assert_eq!(
        st,
        StageType {
            type_full_name: "Main Chapters",
            type_code: "main",
            type_num: 3,
            map_num: 15,
            stage_num: 0,
            map_file_name: "stageNormal2_0_Z.csv".to_string(),
            stage_file_name: "stageZ07_00.csv".to_string()
        }
    );
}

#[test]
fn stage_type_test_from_split_fail() {
    let st = StageType::from_split("doesn't exist", 0, 0);
    assert_eq!(st, Err(StageTypeError::Invalid));
}

#[test]
fn stage_type_test_from_selector() {
    let st = StageType::from_selector("N 0 0").unwrap();
    assert_eq!(
        st,
        StageType {
            type_full_name: "Stories of Legend",
            type_code: "N",
            type_num: 0,
            map_num: 0,
            stage_num: 0,
            map_file_name: "MapStageDataN_000.csv".to_string(),
            stage_file_name: "stageRN000_00.csv".to_string(),
        }
    );

    let st = StageType::from_selector("sol 0 0").unwrap();
    assert_eq!(
        st,
        StageType {
            type_full_name: "Stories of Legend",
            type_code: "N",
            type_num: 0,
            map_num: 0,
            stage_num: 0,
            map_file_name: "MapStageDataN_000.csv".to_string(),
            stage_file_name: "stageRN000_00.csv".to_string(),
        }
    );

    let st = StageType::from_selector("T 0 0").unwrap();
    assert_eq!(
        st,
        StageType {
            type_full_name: "Catclaw Dojo",
            type_code: "T",
            type_num: 6,
            map_num: 0,
            stage_num: 0,
            map_file_name: "MapStageDataT_000.csv".to_string(),
            stage_file_name: "stageRT000_00.csv".to_string(),
        }
    );

    let st = StageType::from_selector("EX 0 0").unwrap();
    assert_eq!(
        st,
        StageType {
            type_full_name: "Extra Stages",
            type_code: "EX",
            type_num: 4,
            map_num: 0,
            stage_num: 0,
            map_file_name: "MapStageDataRE_000.csv".to_string(),
            stage_file_name: "stageEX000_00.csv".to_string(),
        }
    );

    let st = StageType::from_selector("COTC 1 0").unwrap();
    assert_eq!(
        st,
        StageType {
            type_full_name: "Main Chapters",
            type_code: "main",
            type_num: 3,
            map_num: 6,
            stage_num: 0,
            map_file_name: "stageNormal2_0.csv".to_string(),
            stage_file_name: "stageSpace07_00.csv".to_string()
        }
    );
}

#[test]
fn stage_type_test_from_file() {
    let st = StageType::from_file("stageRN000_00.csv").unwrap();
    assert_eq!(
        st,
        StageType {
            type_full_name: "Stories of Legend",
            type_code: "N",
            type_num: 0,
            map_num: 0,
            stage_num: 0,
            map_file_name: "MapStageDataN_000.csv".to_string(),
            stage_file_name: "stageRN000_00.csv".to_string(),
        }
    );

    let st = StageType::from_file("stageRT000_00.csv").unwrap();
    assert_eq!(
        st,
        StageType {
            type_full_name: "Catclaw Dojo",
            type_code: "T",
            type_num: 6,
            map_num: 0,
            stage_num: 0,
            map_file_name: "MapStageDataT_000.csv".to_string(),
            stage_file_name: "stageRT000_00.csv".to_string(),
        }
    );

    let st = StageType::from_file("stageL000_00.csv").unwrap();
    assert_eq!(
        st,
        StageType {
            type_full_name: "Labyrinth",
            type_code: "L",
            type_num: 33,
            map_num: 0,
            stage_num: 0,
            map_file_name: "MapStageDataL_000.csv".to_string(),
            stage_file_name: "stageL000_00.csv".to_string(),
        }
    );

    let st = StageType::from_file("stageEX000_00.csv").unwrap();
    assert_eq!(
        st,
        StageType {
            type_full_name: "Extra Stages",
            type_code: "EX",
            type_num: 4,
            map_num: 0,
            stage_num: 0,
            map_file_name: "MapStageDataRE_000.csv".to_string(),
            stage_file_name: "stageEX000_00.csv".to_string(),
        }
    );
}

#[test]
fn stage_type_test_from_file_main() {
    let st = StageType::from_file("stageSpace07_00.csv").unwrap();
    assert_eq!(
        st,
        StageType {
            type_full_name: "Main Chapters",
            type_code: "main",
            type_num: 3,
            map_num: 6,
            stage_num: 0,
            map_file_name: "stageNormal2_0.csv".to_string(),
            stage_file_name: "stageSpace07_00.csv".to_string()
        }
    );

    let st = StageType::from_file("stageZ00_00.csv").unwrap();
    assert_eq!(
        st,
        StageType {
            type_full_name: "Main Chapters",
            type_code: "main",
            type_num: 3,
            map_num: 0,
            stage_num: 0,
            map_file_name: "stageNormal0_0_Z.csv".to_string(),
            stage_file_name: "stageZ00_00.csv".to_string()
        }
    );
}

#[test]
fn stage_type_test_from_ref() {
    let answer = StageType {
        type_full_name: "Stories of Legend",
        type_code: "N",
        type_num: 0,
        map_num: 0,
        stage_num: 0,
        map_file_name: "MapStageDataN_000.csv".to_string(),
        stage_file_name: "stageRN000_00.csv".to_string(),
    };

    let st = StageType::from_ref("*https://battlecats-db.com/stage/s00000-01.html").unwrap();
    assert_eq!(st, answer);
    let st = StageType::from_ref("https://battlecats-db.com/stage/s00000-01.html").unwrap();
    assert_eq!(st, answer);
    let st = StageType::from_ref("s00000-01").unwrap();
    assert_eq!(st, answer);
}

#[test]
fn stage_type_test_new() {
    let selector = "*https://battlecats-db.com/stage/s01382-03.html";
    assert_eq!(StageType::from_ref(selector), StageType::new(selector));
    assert_eq!(
        StageType::new(selector).unwrap(),
        StageType {
            type_full_name: "Event Stages",
            type_code: "S",
            type_num: 1,
            map_num: 382,
            stage_num: 2,
            map_file_name: "MapStageDataS_382.csv".to_string(),
            stage_file_name: "stageRS382_02.csv".to_string()
        }
    );

    let selector = "ItF 1 48";
    assert_eq!(StageType::from_selector(selector), StageType::new(selector));
    assert_eq!(
        StageType::from_selector(selector).unwrap(),
        StageType {
            type_full_name: "Main Chapters",
            type_code: "main",
            type_num: 3,
            map_num: 3,
            stage_num: 48,
            map_file_name: "stageNormal1_0.csv".to_string(),
            stage_file_name: "stageW04_48.csv".to_string()
        }
    );

    let selector = "DM 0";
    assert_eq!(StageType::from_selector(selector), StageType::new(selector));
    assert_eq!(
        StageType::from_selector(selector).unwrap(),
        StageType {
            type_full_name: "Main Chapters",
            type_code: "main",
            type_num: 3,
            map_num: 14,
            stage_num: 0,
            map_file_name: "MapStageDataDM_000.csv".to_string(),
            stage_file_name: "stageDM000_00.csv".to_string()
        }
    );

    let selector = "Filibuster";
    assert_eq!(StageType::from_selector(selector), StageType::new(selector));
    assert_eq!(
        StageType::from_selector(selector).unwrap(),
        StageType {
            type_full_name: "Main Chapters",
            type_code: "main",
            type_num: 3,
            map_num: 11,
            stage_num: 0,
            map_file_name: "stageNormal2_2_Invasion.csv".to_string(),
            stage_file_name: "stageSpace09_Invasion_00.csv".to_string()
        }
    );

    let selector = "z 5 0";
    assert_eq!(StageType::from_selector(selector), StageType::new(selector));
    assert_eq!(
        StageType::from_selector(selector).unwrap(),
        StageType {
            type_full_name: "Main Chapters",
            type_code: "main",
            type_num: 3,
            map_num: 12,
            stage_num: 0,
            map_file_name: "stageNormal1_1_Z.csv".to_string(),
            stage_file_name: "stageZ05_00.csv".to_string()
        }
    );

    let selector = "stageRN013_05.csv";
    assert_eq!(StageType::from_file(selector), StageType::new(selector));
    assert_eq!(
        StageType::from_file(selector).unwrap(),
        StageType {
            type_full_name: "Stories of Legend",
            type_code: "N",
            type_num: 0,
            map_num: 13,
            stage_num: 5,
            map_file_name: "MapStageDataN_013.csv".to_string(),
            stage_file_name: "stageRN013_05.csv".to_string()
        }
    );

    let selector = "stageRN000_00.csv";
    assert_eq!(StageType::from_file(selector), StageType::new(selector));
    assert_eq!(
        StageType::from_file(selector).unwrap(),
        StageType {
            type_full_name: "Stories of Legend",
            type_code: "N",
            type_num: 0,
            map_num: 0,
            stage_num: 0,
            map_file_name: "MapStageDataN_000.csv".to_string(),
            stage_file_name: "stageRN000_00.csv".to_string()
        }
    );

    let selector = "stageW04_05.csv";
    assert_eq!(StageType::from_file(selector), StageType::new(selector));
    assert_eq!(
        StageType::from_file(selector).unwrap(),
        StageType {
            type_full_name: "Main Chapters",
            type_code: "main",
            type_num: 3,
            map_num: 3,
            stage_num: 5,
            map_file_name: "stageNormal1_0.csv".to_string(),
            stage_file_name: "stageW04_05.csv".to_string()
        }
    );

    let selector = "stageW04_05.csv";
    assert_eq!(
        StageType::new(&String::from(selector)),
        StageType::new(selector)
    );
    assert_eq!(
        StageType::new(&String::from(selector)).unwrap(),
        StageType {
            type_full_name: "Main Chapters",
            type_code: "main",
            type_num: 3,
            map_num: 3,
            stage_num: 5,
            map_file_name: "stageNormal1_0.csv".to_string(),
            stage_file_name: "stageW04_05.csv".to_string()
        }
    );
}

#[test]
fn stage_type_test_stage_type_error() {
    assert_eq!(StageType::new("unknown 0"), Err(StageTypeError::Invalid));
    assert_eq!(
        StageType::from_file("file no exist"),
        Err(StageTypeError::Rejected)
    );
    assert_eq!(
        StageType::from_ref("not a reference"),
        Err(StageTypeError::Rejected)
    );
    assert_eq!(
        StageType::from_selector_main(vec!["none"]),
        Err(StageTypeError::Invalid)
    );
}

#[test]
fn stage_type_test_get_selector_type() {
    assert_eq!(StageType::get_selector_type("itf").unwrap(), "main");
    assert_eq!(
        StageType::get_selector_type("itf2"),
        Err(StageTypeError::Invalid)
    );
}

#[test]
fn test_get_stage_code() {
    assert_eq!(
        StageType::get_stage_code("main"),
        StageCode { name: "Main Chapters", number: 3, code: "main", has_r_prefix: false }
    );
}

#[test]
fn stage_type_test_random_properties_main(){
}

#[test]
fn stage_type_reference_needs_two_digits() {
    assert_eq!(StageType::from_ref("s00000-100"), Err(StageTypeError::Rejected));
    assert_eq!(StageType::from_ref("s00000-10").unwrap().stage_num, 9);
    assert_eq!(get_st_obj("N 0 0"), "N 0 0");
    assert_eq!(StageType::from_split_parsed("RE|EX", 1, 2).unwrap().stage_file_name, "stageEX001_02.csv");
}
