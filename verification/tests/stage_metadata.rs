use rust_wiki::stage::stage_metadata::consts::{get_selector_type, get_stage_type_code, stage_type_at};
use rust_wiki::stage::stage_metadata::{StageMeta, StageMetaParseError};

#[test]
fn stage_metadata_test_get_selector_type() {
        assert_eq!(get_selector_type("ITF").unwrap().code, "main");
        assert_eq!(get_selector_type("itf").unwrap().code, "main");
        assert_eq!(get_selector_type("itf2"), None);
    }

#[test]
fn test_get_stage_type_code() {
        assert_eq!(get_stage_type_code("main"), stage_type_at(3));
    }

#[test]
fn stage_metadata_test_from_split_sol() {
    let answer = StageMeta {
        type_full_name: "Stories of Legend",
        type_code: "N",
        type_num: 0,
        map_num: 0,
        stage_num: 0,
        map_file_name: "MapStageDataN_000.csv".to_string(),
        stage_file_name: "stageRN000_00.csv".to_string(),
    };

    let st = StageMeta::from_split("SoL", 0, 0).unwrap();
    assert_eq!(st, answer);
    let st = StageMeta::from_split("sol", 0, 0).unwrap();
    assert_eq!(st, answer);
    let st = StageMeta::from_split("n", 0, 0).unwrap();
    assert_eq!(st, answer);
    let st = StageMeta::from_split("rn", 0, 0).unwrap();
    assert_eq!(st, answer);
}

#[test]
fn stage_metadata_test_from_split_ex() {
    let answer = StageMeta {
        type_full_name: "Extra Stages",
        type_code: "EX",
        type_num: 4,
        map_num: 0,
        stage_num: 0,
        map_file_name: "MapStageDataRE_000.csv".to_string(),
        stage_file_name: "stageEX000_00.csv".to_string(),
    };

    let st = StageMeta::from_split("eXTRA", 0, 0).unwrap();
    assert_eq!(st, answer);
    let st = StageMeta::from_split("extra", 0, 0).unwrap();
    assert_eq!(st, answer);
    let st = StageMeta::from_split("4", 0, 0).unwrap();
    assert_eq!(st, answer);
    let st = StageMeta::from_split("RE", 0, 0).unwrap();
    assert_eq!(st, answer);
    let st = StageMeta::from_split("EX", 0, 0).unwrap();
    assert_eq!(st, answer);
}

#[test]
fn stage_metadata_test_from_selector_main() {
    let st = StageMeta::from_selector_main(&vec!["eoc", "0"]).unwrap();
    assert_eq!(
        st,
        StageMeta {
            type_full_name: "Main Chapters",
            type_code: "main",
            type_num: 3,
            map_num: 9,
            stage_num: 0,
            map_file_name: "stageNormal0.csv".to_string(),
            stage_file_name: "stage00.csv".to_string()
        }
    );

    let st = StageMeta::from_selector_main(&vec!["itf", "1", "0"]).unwrap();
    assert_eq!(
        st,
        StageMeta {
            type_full_name: "Main Chapters",
            type_code: "main",
            type_num: 3,
            map_num: 3,
            stage_num: 0,
            map_file_name: "stageNormal1_0.csv".to_string(),
            stage_file_name: "stageW04_00.csv".to_string()
        }
    );

    let st = StageMeta::from_selector_main(&vec!["cotc", "1", "0"]).unwrap();
    assert_eq!(
        st,
        StageMeta {
            type_full_name: "Main Chapters",
            type_code: "main",
            type_num: 3,
            map_num: 6,
            stage_num: 0,
            map_file_name: "stageNormal2_0.csv".to_string(),
            stage_file_name: "stageSpace07_00.csv".to_string()
        }
    );

    let st = StageMeta::from_selector_main(&vec!["aku", "0"]).unwrap();
    assert_eq!(
        st,
        StageMeta {
            type_full_name: "Main Chapters",
            type_code: "main",
            type_num: 3,
            map_num: 14,
            stage_num: 0,
            map_file_name: "MapStageDataDM_000.csv".to_string(),
            stage_file_name: "stageDM000_00.csv".to_string()
        }
    );

    let st = StageMeta::from_selector_main(&vec!["filibuster"]).unwrap();
    assert_eq!(
        st,
        StageMeta {
            type_full_name: "Main Chapters",
            type_code: "main",
            type_num: 3,
            map_num: 11,
            stage_num: 0,
            map_file_name: "stageNormal2_2_Invasion.csv".to_string(),
            stage_file_name: "stageSpace09_Invasion_00.csv".to_string()
        }
    );

    let st = StageMeta::from_selector_main(&vec!["z", "7", "0"]).unwrap();
    assert_eq!(
        st,
        StageMeta {
            type_full_name: "Main Chapters",
            type_code: "main",
            type_num: 3,
            map_num: 15,
            stage_num: 0,
            map_file_name: "stageNormal2_0_Z.csv".to_string(),
            stage_file_name: "stageZ07_00.csv".to_string()
        }
    );
}

#[test]
fn stage_metadata_test_from_split_fail() {
    let st = StageMeta::from_split("doesn't exist", 0, 0);
    assert_eq!(st, Err(StageMetaParseError::Invalid));
}

#[test]
fn stage_metadata_test_from_selector() {
    let st = StageMeta::from_selector("N 0 0").unwrap();
    assert_eq!(
        st,
        StageMeta {
            type_full_name: "Stories of Legend",
            type_code: "N",
            type_num: 0,
            map_num: 0,
            stage_num: 0,
            map_file_name: "MapStageDataN_000.csv".to_string(),
            stage_file_name: "stageRN000_00.csv".to_string(),
        }
    );

    let st = StageMeta::from_selector("sol 0 0").unwrap();
    assert_eq!(
        st,
        StageMeta {
            type_full_name: "Stories of Legend",
            type_code: "N",
            type_num: 0,
            map_num: 0,
            stage_num: 0,
            map_file_name: "MapStageDataN_000.csv".to_string(),
            stage_file_name: "stageRN000_00.csv".to_string(),
        }
    );

    let st = StageMeta::from_selector("T 0 0").unwrap();
    assert_eq!(
        st,
        StageMeta {
            type_full_name: "Catclaw Dojo",
            type_code: "T",
            type_num: 6,
            map_num: 0,
            stage_num: 0,
            map_file_name: "MapStageDataT_000.csv".to_string(),
            stage_file_name: "stageRT000_00.csv".to_string(),
        }
    );

    let st = StageMeta::from_selector("EX 0 0").unwrap();
    assert_eq!(
        st,
        StageMeta {
            type_full_name: "Extra Stages",
            type_code: "EX",
            type_num: 4,
            map_num: 0,
            stage_num: 0,
            map_file_name: "MapStageDataRE_000.csv".to_string(),
            stage_file_name: "stageEX000_00.csv".to_string(),
        }
    );

    let st = StageMeta::from_selector("COTC 1 0").unwrap();
    assert_eq!(
        st,
        StageMeta {
            type_full_name: "Main Chapters",
            type_code: "main",
            type_num: 3,
            map_num: 6,
            stage_num: 0,
            map_file_name: "stageNormal2_0.csv".to_string(),
            stage_file_name: "stageSpace07_00.csv".to_string()
        }
    );
}

#[test]
fn stage_metadata_test_from_file() {
    let st = StageMeta::from_file("stageRN000_00.csv").unwrap();
    assert_eq!(
        st,
        StageMeta {
            type_full_name: "Stories of Legend",
            type_code: "N",
            type_num: 0,
            map_num: 0,
            stage_num: 0,
            map_file_name: "MapStageDataN_000.csv".to_string(),
            stage_file_name: "stageRN000_00.csv".to_string(),
        }
    );

    let st = StageMeta::from_file("stageRT000_00.csv").unwrap();
    assert_eq!(
        st,
        StageMeta {
            type_full_name: "Catclaw Dojo",
            type_code: "T",
            type_num: 6,
            map_num: 0,
            stage_num: 0,
            map_file_name: "MapStageDataT_000.csv".to_string(),
            stage_file_name: "stageRT000_00.csv".to_string(),
        }
    );

    let st = StageMeta::from_file("stageL000_00.csv").unwrap();
    assert_eq!(
        st,
        StageMeta {
            type_full_name: "Labyrinth",
            type_code: "L",
            type_num: 33,
            map_num: 0,
            stage_num: 0,
            map_file_name: "MapStageDataL_000.csv".to_string(),
            stage_file_name: "stageL000_00.csv".to_string(),
        }
    );

    let st = StageMeta::from_file("stageEX000_00.csv").unwrap();
    assert_eq!(
        st,
        StageMeta {
            type_full_name: "Extra Stages",
            type_code: "EX",
            type_num: 4,
            map_num: 0,
            stage_num: 0,
            map_file_name: "MapStageDataRE_000.csv".to_string(),
            stage_file_name: "stageEX000_00.csv".to_string(),
        }
    );
}

#[test]
fn stage_metadata_test_from_file_main() {
    let st = StageMeta::from_file("stageSpace07_00.csv").unwrap();
    assert_eq!(
        st,
        StageMeta {
            type_full_name: "Main Chapters",
            type_code: "main",
            type_num: 3,
            map_num: 6,
            stage_num: 0,
            map_file_name: "stageNormal2_0.csv".to_string(),
            stage_file_name: "stageSpace07_00.csv".to_string()
        }
    );

    let st = StageMeta::from_file("stageZ00_00.csv").unwrap();
    assert_eq!(
        st,
        StageMeta {
            type_full_name: "Main Chapters",
            type_code: "main",
            type_num: 3,
            map_num: 0,
            stage_num: 0,
            map_file_name: "stageNormal0_0_Z.csv".to_string(),
            stage_file_name: "stageZ00_00.csv".to_string()
        }
    );
}

#[test]
fn stage_metadata_test_from_ref() {
    let answer = StageMeta {
        type_full_name: "Stories of Legend",
        type_code: "N",
        type_num: 0,
        map_num: 0,
        stage_num: 0,
        map_file_name: "MapStageDataN_000.csv".to_string(),
        stage_file_name: "stageRN000_00.csv".to_string(),
    };

    let st = StageMeta::from_ref("*https://battlecats-db.com/stage/s00000-01.html").unwrap();
    assert_eq!(st, answer);
    let st = StageMeta::from_ref("https://battlecats-db.com/stage/s00000-01.html").unwrap();
    assert_eq!(st, answer);
    let st = StageMeta::from_ref("s00000-01").unwrap();
    assert_eq!(st, answer);
}

#[test]
fn stage_metadata_test_new() {
    let selector = "*https://battlecats-db.com/stage/s01382-03.html";
    assert_eq!(StageMeta::from_ref(selector), StageMeta::new(selector));
    assert_eq!(
        StageMeta::new(selector).unwrap(),
        StageMeta {
            type_full_name: "Event Stages",
            type_code: "S",
            type_num: 1,
            map_num: 382,
            stage_num: 2,
            map_file_name: "MapStageDataS_382.csv".to_string(),
            stage_file_name: "stageRS382_02.csv".to_string()
        }
    );

    let selector = "ItF 1 48";
    assert_eq!(StageMeta::from_selector(selector), StageMeta::new(selector));
    assert_eq!(
        StageMeta::from_selector(selector).unwrap(),
        StageMeta {
            type_full_name: "Main Chapters",
            type_code: "main",
            type_num: 3,
            map_num: 3,
            stage_num: 48,
            map_file_name: "stageNormal1_0.csv".to_string(),
            stage_file_name: "stageW04_48.csv".to_string()
        }
    );

    let selector = "DM 0";
    assert_eq!(StageMeta::from_selector(selector), StageMeta::new(selector));
    assert_eq!(
        StageMeta::from_selector(selector).unwrap(),
        StageMeta {
            type_full_name: "Main Chapters",
            type_code: "main",
            type_num: 3,
            map_num: 14,
            stage_num: 0,
            map_file_name: "MapStageDataDM_000.csv".to_string(),
            stage_file_name: "stageDM000_00.csv".to_string()
        }
    );

    let selector = "Filibuster";
    assert_eq!(StageMeta::from_selector(selector), StageMeta::new(selector));
    assert_eq!(
        StageMeta::from_selector(selector).unwrap(),
        StageMeta {
            type_full_name: "Main Chapters",
            type_code: "main",
            type_num: 3,
            map_num: 11,
            stage_num: 0,
            map_file_name: "stageNormal2_2_Invasion.csv".to_string(),
            stage_file_name: "stageSpace09_Invasion_00.csv".to_string()
        }
    );

    let selector = "z 5 0";
    assert_eq!(StageMeta::from_selector(selector), StageMeta::new(selector));
    assert_eq!(
        StageMeta::from_selector(selector).unwrap(),
        StageMeta {
            type_full_name: "Main Chapters",
            type_code: "main",
            type_num: 3,
            map_num: 12,
            stage_num: 0,
            map_file_name: "stageNormal1_1_Z.csv".to_string(),
            stage_file_name: "stageZ05_00.csv".to_string()
        }
    );

    let selector = "stageRN013_05.csv";
    assert_eq!(StageMeta::from_file(selector), StageMeta::new(selector));
    assert_eq!(
        StageMeta::from_file(selector).unwrap(),
        StageMeta {
            type_full_name: "Stories of Legend",
            type_code: "N",
            type_num: 0,
            map_num: 13,
            stage_num: 5,
            map_file_name: "MapStageDataN_013.csv".to_string(),
            stage_file_name: "stageRN013_05.csv".to_string()
        }
    );

    let selector = "stageRN000_00.csv";
    assert_eq!(StageMeta::from_file(selector), StageMeta::new(selector));
    assert_eq!(
        StageMeta::from_file(selector).unwrap(),
        StageMeta {
            type_full_name: "Stories of Legend",
            type_code: "N",
            type_num: 0,
            map_num: 0,
            stage_num: 0,
            map_file_name: "MapStageDataN_000.csv".to_string(),
            stage_file_name: "stageRN000_00.csv".to_string()
        }
    );

    let selector = "stageW04_05.csv";
    assert_eq!(StageMeta::from_file(selector), StageMeta::new(selector));
    assert_eq!(
        StageMeta::from_file(selector).unwrap(),
        StageMeta {
            type_full_name: "Main Chapters",
            type_code: "main",
            type_num: 3,
            map_num: 3,
            stage_num: 5,
            map_file_name: "stageNormal1_0.csv".to_string(),
            stage_file_name: "stageW04_05.csv".to_string()
        }
    );

    let selector = "stageW04_05.csv";
    assert_eq!(
        StageMeta::new(&String::from(selector)),
        StageMeta::new(selector)
    );
    assert_eq!(
        StageMeta::new(&String::from(selector)).unwrap(),
        StageMeta {
            type_full_name: "Main Chapters",
            type_code: "main",
            type_num: 3,
            map_num: 3,
            stage_num: 5,
            map_file_name: "stageNormal1_0.csv".to_string(),
            stage_file_name: "stageW04_05.csv".to_string()
        }
    );
}

#[test]
fn stage_metadata_test_stage_type_error() {
    assert_eq!(
        StageMeta::new("unknown 0"),
        Err(StageMetaParseError::Invalid)
    );
    assert_eq!(
        StageMeta::from_file("file no exist"),
        Err(StageMetaParseError::Rejected)
    );
    assert_eq!(
        StageMeta::from_ref("not a reference"),
        Err(StageMetaParseError::Rejected)
    );
    assert_eq!(
        StageMeta::from_selector_main(&vec!["none"]),
        Err(StageMetaParseError::Invalid)
    );
}

#[test]
fn stage_meta_outbreak_and_aku_files() {
    let st = StageMeta::from_file("stageZ04_07.csv").unwrap();
    assert_eq!(st.map_num, 10);
    assert_eq!(st.stage_num, 7);
    assert_eq!(st.map_file_name, "stageNormal1_0_Z.csv");
    assert_eq!(st.stage_file_name, "stageZ04_07.csv");
    let st = StageMeta::from_file("stageDM000_03.csv").unwrap();
    assert_eq!(st.map_num, 14);
    assert_eq!(st.stage_num, 3);
    assert_eq!(st.stage_file_name, "stageDM000_03.csv");
    let st = StageMeta::from_file("stage42.csv").unwrap();
    assert_eq!(st.map_num, 9);
    assert_eq!(st.stage_num, 42);
    assert_eq!(st.stage_file_name, "stage42.csv");
    assert_eq!(StageMeta::from_file("stageXY000_00.csv"), Err(StageMetaParseError::Invalid));
}

#[test]
fn stage_meta_round_trip_files() {
    for selector in ["N 0 0", "S 382 2", "EX 5 12", "T 1 0", "L 0 31", "ND 106 702", "A 17 3"] {
        let st = StageMeta::from_selector(selector).unwrap();
        let back = StageMeta::from_file(&st.stage_file_name).unwrap();
        assert_eq!(back.stage_file_name, st.stage_file_name);
        assert_eq!(back, st);
    }
}

#[test]
fn stage_meta_long_reference() {
    let st = StageMeta::from_ref("s00000-100").unwrap();
    assert_eq!(st.stage_num, 99);
    assert_eq!(st.stage_file_name, "stageRN000_99.csv");
}
