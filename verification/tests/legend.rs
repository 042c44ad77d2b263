use rust_wiki::meta::stage::map_id::MapID;
use rust_wiki::meta::stage::variant::StageVariant as T;
use rust_wiki::wikitext::map_info::legend::{
    difficulty, footer, map_img, materials, nav_item, nav_item_opt, reference, DropItem, GameMap,
    MapCrownData,
};
use rust_wiki::wikitext::map_info::{get_preset, Preset};

fn leg_begins() -> GameMap {
    GameMap {
        id: MapID::from_components(T::SoL, 0),
        map_file_num: 4,
        crown_data: Some(MapCrownData {
            max_difficulty: 4,
            crown_2: Some(150),
            crown_3: Some(200),
            crown_4: Some(300),
        }),
    }
}

#[test]
fn legend_map_pieces() {
    let map = leg_begins();
    assert_eq!(map_img(&map), "[[File:Map004.png|center|350px]]");
    assert_eq!(difficulty(&map), "{{LegendDiff|150|200|300}}");
    let drops = DropItem { normal: [13, 0, 13, 13, 0, 0, 0, 0], z: [None; 8] };
    assert_eq!(materials(&drops), "{{Materials|61|13|0|13|13|0|0|0|0}}");
    assert_eq!(reference(&map), "https://battlecats-db.com/stage/s00000.html");
    assert_eq!(
        nav_item_opt(
            "[[:Category:Stories of Legend Chapters|Stories of Legend Chapters]]",
            None,
            Some("Passion Land")
        ),
        nav_item(
            "[[:Category:Stories of Legend Chapters|Stories of Legend Chapters]]",
            "&lt;&lt; N/A",
            "[[Passion Land|Passion Land &gt;&gt;]]"
        )
    );
    assert_eq!(footer(&map), "{{LegendStages}}\n[[Category:Stories of Legend Chapters]]");
}

#[test]
fn legend_map_other_pieces() {
    let one_crown = GameMap {
        id: MapID::from_components(T::ZL, 12),
        map_file_num: 1_234,
        crown_data: Some(MapCrownData { max_difficulty: 1, crown_2: None, crown_3: None, crown_4: None }),
    };
    assert_eq!(difficulty(&one_crown), "");
    assert_eq!(map_img(&one_crown), "[[File:Map1234.png|center|350px]]");
    assert_eq!(reference(&one_crown), "https://battlecats-db.com/stage/s34012.html");
    assert_eq!(footer(&one_crown), "{{ZeroLegendStages}}\n[[Category:Zero Legends Chapters]]");
    let big = GameMap {
        id: MapID::from_components(T::UL, 3),
        map_file_num: 7,
        crown_data: Some(MapCrownData { max_difficulty: 3, crown_2: Some(1_500), crown_3: None, crown_4: Some(2_000) }),
    };
    assert_eq!(difficulty(&big), "{{LegendDiff|1,500|2,000}}");
    assert_eq!(footer(&big), "{{UncannyLegendStages}}\n[[Category:Uncanny Legends Chapters]]");
    let z = DropItem { normal: [5, 5, 5, 5, 5, 5, 5, 5], z: [Some(1), Some(2), Some(3), Some(4), Some(5), Some(6), Some(7), Some(8)] };
    assert_eq!(materials(&z), "{{Materials|24|5|5|5|5|5|5|5|5|1|2|3|4|5|6|7|8|hidenormal=}}");
    assert_eq!(
        nav_item_opt("H", Some("A"), None),
        "<p style=\"text-align:center;\">H:</p>\n\n<p style=\"text-align:center;\">'''[[A|&lt;&lt; A]] | N/A &gt;&gt;'''</p>"
    );
}

#[test]
fn presets() {
    assert_eq!(get_preset(T::SoL), Some(Preset::Legend));
    assert_eq!(get_preset(T::Collab), Some(Preset::Event));
    assert_eq!(get_preset(T::CollabGauntlet), Some(Preset::Gauntlet));
    assert_eq!(get_preset(T::Colosseum), Some(Preset::Colosseum));
    assert_eq!(get_preset(T::Dojo), None);
    assert_eq!(get_preset(T::Extra), None);
}
