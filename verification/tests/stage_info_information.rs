use rust_wiki::stage::parsed::stage::Stage;
use rust_wiki::stage::stage_metadata::StageMeta;
use rust_wiki::wikitext::stage_info::variables::reference;
use rust_wiki::wikitext::stage_info::internal::information::{
    stage_location, stage_location_with_code, stage_name, stage_name_with_code,
};

fn stage(selector: &str, base_id: i32, anim_base_id: Option<u32>) -> Stage {
    Stage {
        meta: StageMeta::new(selector).unwrap(),
        base_id,
        width: 0,
        base_hp: 0,
        max_enemies: 0,
        anim_base_id,
        time_limit: None,
        energy: None,
        xp: None,
        is_no_continues: false,
        crown_data: None,
        restrictions: None,
        max_clears: None,
        ex_invasion: None,
        continue_data: None,
        enemies: vec![],
        rewards: None,
    }
}

#[test]
fn information_test_stage_name_and_loc() {
    let great_escaper = stage("n 17 5", 6, None);
    let mut buf = "".to_string();
    buf.push_str(&stage_name(&great_escaper).to_string());
    buf.push_str("\n");
    buf.push_str(&stage_location(&great_escaper).to_string());
    assert_eq!(
        buf,
        "\
        |stage name = [[File:rc006.png]]\n\
        [[File:Mapsn017 05 n en.png]]\n\
        |stage location = [[File:Mapname017 n en.png]]\
        "
    );

    let red_summit = stage("h 10 0", 2, None);
    let mut buf = "".to_string();
    buf.push_str(&stage_name(&red_summit).to_string());
    buf.push_str("\n");
    buf.push_str(&stage_location(&red_summit).to_string());
    assert_eq!(
        buf,
        "\
        |stage name = [[File:rc002.png]]\n\
        [[File:Mapsn010 00 h en.png]]\n\
        |stage location = [[File:Mapname010 h en.png]]\
        "
    );

    let finale = stage("c 209 0", 0, Some(653));
    let mut buf = "".to_string();
    buf.push_str(&stage_name(&finale).to_string());
    buf.push_str("\n");
    buf.push_str(&stage_location(&finale).to_string());
    assert_eq!(
        buf,
        "\
        |stage name = [[File:E 651.png]]\n\
        [[File:Mapsn209 00 c en.png]]\n\
        |stage location = [[File:Mapname209 c en.png]]\
        "
    );

    let relay_1600m = stage("ex 61 2", 0, Some(659));
    let mut buf = "".to_string();
    buf.push_str(&stage_name(&relay_1600m).to_string());
    assert_eq!(
        buf,
        "\
        |stage name = [[File:E 657.png|250px]]\n\
        [[File:Mapsn061 02 ex en.png]]\
        "
    );
}

#[test]
fn negative_base_and_given_code() {
    let s = stage("n 17 5", -1, None);
    assert_eq!(stage_name_with_code(&s, "q").value, "[[File:rc-01.png]]\n[[File:Mapsn017 05 q en.png]]");
    assert_eq!(stage_location_with_code(&s, "Q").value, "[[File:Mapname017 Q en.png]]");
}

#[test]
fn stage_info_internal_test_stage_name_and_loc() {
    let great_escaper = stage("n 17 5", 6, None);
    let buf = format!("{}\n{}", stage_name(&great_escaper).to_string(), stage_location(&great_escaper).to_string());
    assert_eq!(
        buf,
        "\
        |stage name = [[File:rc006.png]]\n\
        [[File:Mapsn017 05 n en.png]]\n\
        |stage location = [[File:Mapname017 n en.png]]\
        "
    );

    let red_summit = stage("h 10 0", 2, None);
    let buf = format!("{}\n{}", stage_name(&red_summit).to_string(), stage_location(&red_summit).to_string());
    assert_eq!(
        buf,
        "\
        |stage name = [[File:rc002.png]]\n\
        [[File:Mapsn010 00 h en.png]]\n\
        |stage location = [[File:Mapname010 h en.png]]\
        "
    );

    let finale = stage("c 209 0", 0, Some(653));
    let buf = format!("{}\n{}", stage_name(&finale).to_string(), stage_location(&finale).to_string());
    assert_eq!(
        buf,
        "\
        |stage name = [[File:E 651.png]]\n\
        [[File:Mapsn209 00 c en.png]]\n\
        |stage location = [[File:Mapname209 c en.png]]\
        "
    );

    let relay_1600m = stage("ex 61 2", 0, Some(659));
    assert_eq!(
        stage_name(&relay_1600m).to_string(),
        "\
        |stage name = [[File:E 657.png|250px]]\n\
        [[File:Mapsn061 02 ex en.png]]\
        "
    );
}

#[test]
fn reference_links() {
    assert_eq!(
        reference(&stage("1 382 2", 0, None)),
        "https://battlecats-db.com/stage/s01382-03.html"
    );
    assert_eq!(
        reference(&stage("n 0 0", 0, None)),
        "https://battlecats-db.com/stage/s00000-01.html"
    );
}
