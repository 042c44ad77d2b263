use rust_wiki::stage::stage_data::csv_types::{HeaderCSV, Line2CSV, RawCSVData, StageEnemyCSV};
use rust_wiki::stage::stage_data::StageData;
use rust_wiki::stage::stage_metadata::StageMeta;
use rust_wiki::wikitext::encounters::get_stage_mags;

fn enemy(num: u32, mag: Option<u32>, atk: Option<u32>) -> StageEnemyCSV {
    StageEnemyCSV {
        num,
        amt: 0,
        start_frame: 0,
        respawn_frame_min: 0,
        respawn_frame_max: 0,
        base_hp: 100,
        layer_min: 0,
        layer_max: 9,
        boss_type: 0,
        magnification: mag,
        attack_magnification: atk,
        is_spawn_delay: None,
        kill_count: None,
    }
}

fn stage_with(meta: StageMeta, enemies: Vec<StageEnemyCSV>) -> StageData {
    let line2 = Line2CSV {
        width: 4000,
        base_hp: 1000,
        background_id: 0,
        max_enemies: 8,
        animbase_id: 0,
        time_limit: 0,
        indestructible: 0,
    };
    StageData::new(meta, RawCSVData { header: HeaderCSV::default(), line2, enemies })
}

fn stage(selector: &str, enemies: Vec<StageEnemyCSV>) -> StageData {
    stage_with(StageMeta::new(selector).unwrap(), enemies)
}

#[test]
fn mags_sorted_and_deduplicated() {
    let s = stage(
        "sol 0 0",
        vec![
            enemy(5, Some(400), None),
            enemy(5, Some(150), Some(0)),
            enemy(7, Some(100), None),
            enemy(5, Some(1_500), Some(200)),
            enemy(5, Some(150), None),
            enemy(5, None, None),
            enemy(5, Some(1_500), Some(100)),
        ],
    );
    assert_eq!(
        get_stage_mags(&s, 5),
        "(100%, 150%, 400%, 1,500% HP/100% AP, 1,500% HP/200% AP)"
    );
    assert_eq!(get_stage_mags(&s, 7), "(100%)");
}

#[test]
fn mags_hidden_in_first_eoc_chapter() {
    let meta = StageMeta {
        type_full_name: "Main Chapters",
        type_code: "main",
        type_num: 3,
        map_num: 0,
        stage_num: 0,
        map_file_name: "stageNormal0.csv".to_string(),
        stage_file_name: "stage00.csv".to_string(),
    };
    let s = stage_with(meta, vec![enemy(5, Some(400), None)]);
    assert_eq!(get_stage_mags(&s, 5), "");
    let later = stage("eoc 0", vec![enemy(5, Some(400), None)]);
    assert_eq!(get_stage_mags(&later, 5), "(400%)");
}
