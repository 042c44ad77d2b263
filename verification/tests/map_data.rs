use rust_wiki::stage::map_data::{
    parse_i32_bytes, parse_u32_bytes, GameMap, ScoreRewardsCSV, StageInfoCSVFixed, TreasureCSV,
};

fn record(line: &str) -> Vec<Vec<u8>> {
    line.split(',').map(|f| f.as_bytes().to_vec()).collect()
}

fn fixed() -> StageInfoCSVFixed {
    StageInfoCSVFixed { energy: 50, xp: 950, inittrack: 3, basedrop: 0, secondtrack: 0 }
}

#[test]
fn stage_line_without_treasure() {
    let l = GameMap::parse_stage_line(fixed(), &record("50,950,3,0,0,0"));
    assert_eq!(l.fixed, fixed());
    assert!(l.time.is_empty());
    assert!(l.drop.is_empty());
    assert_eq!(l.rand, 0);
}

#[test]
fn stage_line_single_treasure() {
    let l = GameMap::parse_stage_line(fixed(), &record("50,950,3,0,0,100,22,5"));
    assert_eq!(l.drop, vec![TreasureCSV { itemchance: 100, itemnum: 22, itemlimit: 5 }]);
    assert!(l.time.is_empty());
    assert_eq!(l.rand, 0);
}

#[test]
fn stage_line_several_treasures() {
    let l = GameMap::parse_stage_line(fixed(), &record("10,20,1,2,3,30,6,1000,-4,70,6,500,0"));
    assert_eq!(
        l.drop,
        vec![
            TreasureCSV { itemchance: 30, itemnum: 6, itemlimit: 1000 },
            TreasureCSV { itemchance: 70, itemnum: 6, itemlimit: 500 },
        ]
    );
    assert_eq!(l.rand, -4);
    assert!(l.time.is_empty());
}

#[test]
fn stage_line_timed_scores() {
    let l = GameMap::parse_stage_line(
        fixed(),
        &record("0,0,0,0,0,0,0,0,-2,-2,-2,-2,-2,-2,-2,0,8500,22,10,5000,6,25000,0"),
    );
    assert_eq!(
        l.time,
        vec![
            ScoreRewardsCSV { score: 8500, item_id: 22, itemquant: 10 },
            ScoreRewardsCSV { score: 5000, item_id: 6, itemquant: 25000 },
        ]
    );
    assert_eq!(l.drop, vec![TreasureCSV { itemchance: 0, itemnum: 0, itemlimit: 0 }]);
    assert_eq!(l.rand, 0);
}

#[test]
fn stage_line_not_timed_when_a_field_differs() {
    let l = GameMap::parse_stage_line(
        fixed(),
        &record("0,0,0,0,0,5,6,7,1,2,3,4,5,6,7,0,8500,22,10"),
    );
    assert!(l.time.is_empty());
    assert_eq!(l.rand, 1);
    assert_eq!(l.drop.len(), 4);
    assert_eq!(l.drop[0], TreasureCSV { itemchance: 5, itemnum: 6, itemlimit: 7 });
    assert_eq!(l.drop[1], TreasureCSV { itemchance: 2, itemnum: 3, itemlimit: 4 });
    assert_eq!(l.drop[3], TreasureCSV { itemchance: 0, itemnum: 8500, itemlimit: 22 });
}

#[test]
fn field_parsing() {
    assert_eq!(parse_u32_bytes(&b"+5".to_vec()), Some(5));
    assert_eq!(parse_u32_bytes(&b"4294967295".to_vec()), Some(u32::MAX));
    assert_eq!(parse_u32_bytes(&b"4294967296".to_vec()), None);
    assert_eq!(parse_u32_bytes(&b"-1".to_vec()), None);
    assert_eq!(parse_u32_bytes(&b"".to_vec()), None);
    assert_eq!(parse_u32_bytes(&b"+".to_vec()), None);
    assert_eq!(parse_u32_bytes(&b"1a".to_vec()), None);
    assert_eq!(parse_i32_bytes(&b"-2147483648".to_vec()), Some(i32::MIN));
    assert_eq!(parse_i32_bytes(&b"-2147483649".to_vec()), None);
    assert_eq!(parse_i32_bytes(&b"2147483647".to_vec()), Some(i32::MAX));
    assert_eq!(parse_i32_bytes(&b"2147483648".to_vec()), None);
    assert_eq!(parse_i32_bytes(&b"-+1".to_vec()), None);
    assert_eq!(parse_i32_bytes(&b"-4".to_vec()), Some(-4));
    for s in ["0", "+7", "-0", "12", "-", "", "99999999999", "-12", "+-3", " 1"] {
        assert_eq!(parse_i32_bytes(&s.as_bytes().to_vec()), s.parse::<i32>().ok());
        assert_eq!(parse_u32_bytes(&s.as_bytes().to_vec()), s.parse::<u32>().ok());
    }
}

#[test]
fn cleaning_stage_lines() {
    assert_eq!(GameMap::clean_stage_line("1,2,3,// comment"), Some("1,2,3".to_string()));
    assert_eq!(GameMap::clean_stage_line("  // only a comment "), None);
    assert_eq!(GameMap::clean_stage_line(" 4,5 "), Some("4,5".to_string()));
    assert_eq!(GameMap::clean_stage_line("4,5,,"), Some("4,5,".to_string()));
    assert_eq!(GameMap::clean_stage_line(""), None);
    assert_eq!(GameMap::clean_stage_line("a/b//c"), Some("a/b".to_string()));
}

#[test]
fn stage_lines_that_cannot_be_read() {
    assert!(GameMap::try_parse_stage_line(fixed(), &record("1,2,3,4,5")).is_none());
    assert!(GameMap::try_parse_stage_line(fixed(), &record("1,2,3,4,5,6,7")).is_none());
    assert!(GameMap::try_parse_stage_line(fixed(), &record("1,2,3,4,5,x,6,7")).is_none());
    assert!(GameMap::try_parse_stage_line(fixed(), &record("1,2,3,4,5,6,7,8,y,9,10,11")).is_none());
    assert!(GameMap::try_parse_stage_line(fixed(), &record("0,0,0,0,0,0,0,0,-2,-2,-2,-2,-2,-2,-2,0")).is_none());
    assert!(GameMap::try_parse_stage_line(fixed(), &record("1,2,3,4,5,6,7,8")).is_some());
}
