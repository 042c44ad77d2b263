use rust_wiki::meta::stage::stage_id::StageID;
use rust_wiki::meta::stage::stage_types::parse::parse_stage::parse_stage_selector;
use rust_wiki::wikitext::encounters::chapter::{Chapter, Stage};
use rust_wiki::wikitext::encounters::section::{DisplayType, EncountersSection, SectionRef as Ref};

fn stringify(section: &EncountersSection, id: &StageID, stage_name: &str, mags: &str) -> String {
    let mut buf = String::new();
    section.fmt_encounter(&mut buf, id, stage_name, mags);
    buf
}

#[test]
fn assert_section_ref() {
    assert_eq!(Ref::EoC.section().heading(), "[[Empire of Cats]]");
    assert_eq!(Ref::EocOutbreak.section().heading(), "[[Empire of Cats]] [[Zombie Outbreaks|Outbreaks]]");
    assert_eq!(Ref::ItF.section().heading(), "[[Into the Future]]");
    assert_eq!(Ref::ItfOutbreak.section().heading(), "[[Into the Future]] [[Zombie Outbreaks|Outbreaks]]");
    assert_eq!(Ref::CotC.section().heading(), "[[Cats of the Cosmos]]");
    assert_eq!(Ref::CotcOutbreak.section().heading(), "[[Cats of the Cosmos]] [[Zombie Outbreaks|Outbreaks]]");
    assert_eq!(Ref::AkuRealms.section().heading(), "[[The Aku Realms]]");
    assert_eq!(Ref::SoL.section().heading(), "[[Legend Stages#Stories of Legend|Stories of Legend]]");
    assert_eq!(Ref::UL.section().heading(), "[[Legend Stages#Uncanny Legends|Uncanny Legends]]");
    assert_eq!(Ref::ZL.section().heading(), "[[Legend Stages#Zero Legends|Zero Legends]]");
    assert_eq!(Ref::Event.section().heading(), "[[Special Events|Event Stages]]");
    assert_eq!(Ref::Labyrinth.section().heading(), "[[Underground Labyrinth]]");
    assert_eq!(Ref::Collab.section().heading(), "[[Collaboration Events|Collaboration Stages]]");
    assert_eq!(Ref::Enigma.section().heading(), "[[Enigma Stages]]");
    assert_eq!(Ref::Dojo.section().heading(), "[[Catclaw Dojo]]");
    assert_eq!(Ref::Removed.section().heading(), "[[:Category:Removed Content|Removed Stages]]");
    assert_eq!(Ref::Extra.section().heading(), "Extra Stages");
    assert_eq!(Ref::Catamin.section().heading(), "[[Catamin Stages]]");
}

#[test]
fn single_eoc_format() {
    let korea = parse_stage_selector("eoc 0").unwrap();
    let name = "[[Korea (Empire of Cats)|Korea]]";
    let section = Ref::EoC.section();
    assert_eq!(stringify(&section, &korea, name, ""), "Stage 1: [[Korea (Empire of Cats)|Korea]]");
}

#[test]
fn single_eoc_moon() {
    let moon_ch2 = parse_stage_selector("eoc 49").unwrap();
    let name = "[[Moon (Empire of Cats)|Moon]] 2";
    let section = Ref::EoC.section();
    assert_eq!(stringify(&section, &moon_ch2, name, ""), "Stage 2-48: [[Moon (Empire of Cats)|Moon]]");
}

#[test]
fn single_itf_format() {
    let great_abyss = parse_stage_selector("itf 1 23").unwrap();
    let name = "[[The Great Abyss (Into the Future)|The Great Abyss]] (N1)";
    let section = Ref::ItF.section();
    assert_eq!(
        stringify(&section, &great_abyss, name, "(150%)"),
        "Stage 1-24: [[The Great Abyss (Into the Future)|The Great Abyss]] (150%)"
    );
}

#[test]
fn single_cotc_format() {
    let sighter_star = parse_stage_selector("cotc 2 24").unwrap();
    let name = "[[Sighter's Star (Cats of the Cosmos)|Sighter's Star]] (N2)";
    let section = Ref::CotC.section();
    assert_eq!(
        stringify(&section, &sighter_star, name, "(150%)"),
        "Stage 2-25: [[Sighter's Star (Cats of the Cosmos)|Sighter's Star]] (150%)"
    );
}

#[test]
fn single_filibuster_format() {
    let mut filibuster = parse_stage_selector("filibuster").unwrap();
    let name = "[[Filibuster Invasion (Cats of the Cosmos)|Filibuster Invasion]]";
    filibuster.set_map(8);
    filibuster.set_num(999);
    let section = Ref::CotC.section();
    assert_eq!(
        stringify(&section, &filibuster, name, "(1,500%)"),
        "Stage 3-IN: [[Filibuster Invasion (Cats of the Cosmos)|Filibuster Invasion]] (1,500%)"
    );
}

#[test]
fn single_aku_realms() {
    let korea = parse_stage_selector("aku 0").unwrap();
    let name = "[[Korea (Aku Realm)|Korea]]";
    let section = Ref::AkuRealms.section();
    assert_eq!(stringify(&section, &korea, name, "(100%)"), "Stage 1: [[Korea (Aku Realm)|Korea]] (100%)");
}

#[test]
fn single_story_format() {
    let torture_room = parse_stage_selector("sol 21 3").unwrap();
    let section = Ref::SoL.section();
    assert_eq!(
        stringify(&section, &torture_room, "[[Torture Room]]", "(400%)"),
        "Stage 22-4: [[Torture Room]] (400%)"
    );
}

#[test]
fn single_normal_format() {
    let xp_hard = parse_stage_selector("event 28 2").unwrap();
    let section = Ref::Event.section();
    assert_eq!(stringify(&section, &xp_hard, "[[Sweet XP (Hard)]]", "(400%)"), "[[Sweet XP (Hard)]] (400%)");
}

#[test]
fn single_z_outbreak() {
    let zoutbreak = parse_stage_selector("eocz 2 43").unwrap();
    let name = "[[Las Vegas (Empire of Cats)|Las Vegas]] (Z3)";
    let section = Ref::AkuRealms.section();
    assert_eq!(
        stringify(&section, &zoutbreak, name, "(600%)"),
        "Stage 3-44: [[Las Vegas (Empire of Cats)|Las Vegas]] (600%)"
    );
}

#[test]
fn single_aku_invasion() {
    let name = "[[Mount Aku (Aku Realm)/Invasion|Mount Aku Invasion]]";
    let mount_aku_repr = parse_stage_selector("aku 999").unwrap();
    let section = Ref::AkuRealms.section();
    assert_eq!(
        stringify(&section, &mount_aku_repr, name, "(400%)"),
        "Stage 30-IN: [[Mount Aku (Aku Realm)/Invasion|Mount Aku Invasion]] (400%)"
    );
}

#[test]
fn single_doron_invasion() {
    let name = "[[The Face of God/Invasion|The Face of God Invasion]]";
    let idi_invasion_repr = parse_stage_selector("sol 35 999").unwrap();
    let section = Ref::SoL.section();
    assert_eq!(
        stringify(&section, &idi_invasion_repr, name, "(400%)"),
        "Stage 36-IN: [[The Face of God/Invasion|The Face of God Invasion]] (400%)"
    );
}

#[test]
fn single_always_appeared_at() {
    let xp_hard = parse_stage_selector("event 28 2").unwrap();
    let section = Ref::Event.section();
    assert_eq!(stringify(&section, &xp_hard, "[[Sweet XP (Hard)]]", ""), "[[Sweet XP (Hard)]]");
}

fn three_stages(selectors: [&str; 3]) -> Vec<StageID> {
    selectors.iter().map(|s| parse_stage_selector(s).unwrap()).collect()
}

#[test]
fn chapter_normal() {
    let ids = three_stages(["event 0 0", "event 0 1", "event 0 2"]);
    let mut buf = String::new();
    let section = Ref::Event.section();
    section.fmt_chapter(
        &mut buf,
        Chapter::new(
            "Chapter".to_string(),
            vec![
                Stage::new("Stage 1", "(100%)".to_string(), &ids[0]),
                Stage::new("Stage 2", String::new(), &ids[1]),
                Stage::new("Stage 3", "(1,500% HP/2% AP)".to_string(), &ids[2]),
            ],
        ),
        &Vec::new(),
    );
    assert_eq!(buf, "*Chapter:\n**Stage 1 (100%)\n**Stage 2\n**Stage 3 (1,500% HP/2% AP)");
}

#[test]
fn chapter_flat() {
    let ids = three_stages(["l 0 0", "l 0 1", "l 0 2"]);
    let mut buf = String::new();
    let section = Ref::Labyrinth.section();
    section.fmt_chapter(
        &mut buf,
        Chapter::new(
            "Chapter".to_string(),
            vec![
                Stage::new("Stage 1", "(100%)".to_string(), &ids[0]),
                Stage::new("Stage 2", String::new(), &ids[1]),
                Stage::new("Stage 3", "(1,500% HP/2% AP)".to_string(), &ids[2]),
            ],
        ),
        &Vec::new(),
    );
    assert_eq!(buf, "*Stage 1 (100%)\n*Stage 2\n*Stage 3 (1,500% HP/2% AP)");
}

#[test]
fn chapter_story() {
    let ids = three_stages(["sol 0 0", "sol 0 1", "sol 0 2"]);
    let mut buf = String::new();
    let section = Ref::SoL.section();
    section.fmt_chapter(
        &mut buf,
        Chapter::new(
            "Chapter".to_string(),
            vec![
                Stage::new("Stage 1", "(100%)".to_string(), &ids[0]),
                Stage::new("Stage 2", String::new(), &ids[1]),
                Stage::new("Stage 3", "(1,500% HP/2% AP)".to_string(), &ids[2]),
            ],
        ),
        &Vec::new(),
    );
    assert_eq!(buf, "*Stage 1-1: Stage 1 (100%)\n*Stage 1-2: Stage 2\n*Stage 1-3: Stage 3 (1,500% HP/2% AP)");
}

#[test]
fn chapter_single_and_extra() {
    let id = parse_stage_selector("event 3 4").unwrap();
    let mut buf = String::from("x");
    Ref::Event.section().fmt_chapter(
        &mut buf,
        Chapter::new("Only".to_string(), vec![Stage::new("Lonely", "(50%)".to_string(), &id)]),
        &Vec::new(),
    );
    assert_eq!(buf, "x*Only: Lonely (50%)");

    let extra = StageID::from_components(rust_wiki::meta::stage::variant::StageVariant::Extra, 1, 0);
    let mut buf = String::new();
    Ref::SoL.section().fmt_chapter(
        &mut buf,
        Chapter::new("C".to_string(), vec![Stage::new("Invasion", String::new(), &extra)]),
        &vec![None, Some((0, 35))],
    );
    assert_eq!(buf, "*Stage 36-IN: Invasion");
    assert_eq!(*Ref::Catamin.section().display_type(), DisplayType::Skip);
    assert_eq!(Ref::Extra.index(), 16);
}

#[test]
fn chapter_dedupped() {
    let ids = three_stages(["sol 0 0", "sol 0 1", "sol 0 2"]);
    let chapter = Chapter::new(
        "C".to_string(),
        vec![
            Stage::new("A", String::new(), &ids[0]),
            Stage::new("B", String::new(), &ids[1]),
            Stage::new("A", "(x)".to_string(), &ids[2]),
        ],
    )
    .dedupped();
    let names: Vec<&str> = chapter.stages.iter().map(|s| s.stage_name).collect();
    assert_eq!(names, vec!["A", "B"]);
    assert_eq!(chapter.stages[0].id, ids[0]);
}
