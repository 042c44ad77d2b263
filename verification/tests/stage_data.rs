use rust_wiki::stage::stage_data::csv_types::{RawCSVData, StageEnemyCSV};

fn record(line: &str) -> Vec<Vec<u8>> {
    line.split(',').map(|f| f.as_bytes().to_vec()).collect()
}

fn enemy(num: u32) -> StageEnemyCSV {
    StageEnemyCSV {
        num,
        amt: 1,
        start_frame: 0,
        respawn_frame_min: 0,
        respawn_frame_max: 0,
        base_hp: 100,
        layer_min: 0,
        layer_max: 9,
        boss_type: 0,
        magnification: None,
        attack_magnification: None,
        is_spawn_delay: None,
        kill_count: None,
    }
}

#[test]
fn header_lines() {
    assert!(RawCSVData::first_line_is_header(&record("0,0,0,0,0,0")));
    assert!(RawCSVData::first_line_is_header(&record("0,0,0,0,0,0,,")));
    assert!(!RawCSVData::first_line_is_header(&record("4200,60000,1,5,0,8,1,0,0")));
}

#[test]
fn enemies_until_terminator() {
    let es = RawCSVData::collect_enemies(vec![Some(enemy(5)), None, Some(enemy(7)), Some(enemy(0)), Some(enemy(9))]);
    assert_eq!(es, vec![enemy(5), enemy(7)]);
    assert_eq!(RawCSVData::collect_enemies(vec![None, Some(enemy(3))]), vec![enemy(3)]);
    assert!(RawCSVData::collect_enemies(vec![]).is_empty());
}
