use rust_wiki::stage::stage_option::charagroups::{CharaGroup, CharaGroupType, CharaGroups};

fn record(line: &str) -> Vec<Vec<u8>> {
    line.split(',').map(|f| f.as_bytes().to_vec()).collect()
}

#[test]
fn group_from_line() {
    let g = CharaGroup::from_record(0, &record("1,text,0,5,6,"));
    assert_eq!(g.group_type, CharaGroupType::OnlyUse);
    assert_eq!(g.units, vec![5, 6]);
    let g = CharaGroup::from_record(2, &record("2,x,2,7"));
    assert_eq!(g.group_type, CharaGroupType::CannotUse);
    assert_eq!(g.units, vec![7]);
    let g = CharaGroup::from_record(2, &record("3,x,2"));
    assert!(g.units.is_empty());
    let g = CharaGroup::from_record(0, &record("4,x,0,"));
    assert!(g.units.is_empty());
}

#[test]
fn groups_by_id() {
    let groups = CharaGroups::new(vec![
        CharaGroup::from_record(0, &record("1,a,0,1")),
        CharaGroup::from_record(2, &record("2,b,2,3,4")),
    ]);
    assert_eq!(groups.get_charagroup(2).unwrap().units, vec![3, 4]);
    assert!(groups.get_charagroup(3).is_none());
}

#[test]
fn group_lines_that_cannot_be_read() {
    assert!(CharaGroup::try_from_record(1, &record("1,a,1,5")).is_none());
    assert!(CharaGroup::try_from_record(0, &record("1,a,0,x")).is_none());
    assert!(CharaGroup::try_from_record(0, &record("1,a,0,5")).is_some());
}
