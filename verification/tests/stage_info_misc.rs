use rust_wiki::stage::stage_metadata::StageMeta;
use rust_wiki::meta::stage::map_id::MapID;
use rust_wiki::meta::stage::variant::StageVariant as T;
use rust_wiki::stage::parsed::stage::{ContinueStages, CrownData, Stage};
use rust_wiki::wikitext::data_files::stage_wiki_data::{MapWikiData, StageNamesLine, StageWikiDataContainer};
use rust_wiki::wikitext::stage_info::internal::misc_information::{
    difficulty, get_continuation_stages, get_single_nav, max_clears, stage_nav, star,
};
use rust_wiki::wikitext::template::TemplateParameter;

fn stage(max_difficulty: Option<u8>, clears: Option<u32>) -> Stage {
    Stage {
        meta: StageMeta::new("sol 0 0").unwrap(),
        base_id: 0,
        width: 0,
        base_hp: 0,
        max_enemies: 0,
        anim_base_id: None,
        time_limit: None,
        energy: None,
        xp: None,
        is_no_continues: false,
        crown_data: max_difficulty.map(|max_difficulty| CrownData { max_difficulty, crown_2: None, crown_3: None, crown_4: None }),
        restrictions: None,
        max_clears: clears,
        ex_invasion: None,
        continue_data: None,
        enemies: vec![],
        rewards: None,
    }
}

#[test]
fn test_max_clears() {
    let steel_visage = stage(Some(1), Some(1));
    assert_eq!(
        max_clears(&steel_visage),
        Some(TemplateParameter::new("max clears".to_string(), "1".to_string()))
    )
}

#[test]
fn max_clears_absent_and_large() {
    assert_eq!(max_clears(&stage(Some(4), None)), None);
    assert_eq!(
        max_clears(&stage(None, Some(12_345))),
        Some(TemplateParameter::new("max clears".to_string(), "12345".to_string()))
    );
}

#[test]
fn star_from_crowns() {
    assert_eq!(star(&stage(Some(4), None)), TemplateParameter::new("star".to_string(), "4".to_string()));
    assert_eq!(star(&stage(None, None)), TemplateParameter::new("star".to_string(), "1".to_string()));
}

fn line(t: u32, m: Option<u32>, s: Option<u32>, link: &str) -> StageNamesLine {
    StageNamesLine { type_num: t, map_num: m, stage_num: s, link: link.to_string() }
}

fn names() -> StageWikiDataContainer {
    let lines = vec![
        line(0, None, None, "[[Stories of Legend]]"),
        line(0, Some(0), None, "[[The Legend Begins]]"),
        line(0, Some(0), Some(0), "[[Earthshaker]]"),
        line(0, Some(0), Some(1), "[[Return of Terror]]"),
        line(1, None, None, "[[Event Stages]]"),
        line(1, Some(222), None, "[[Spectrum of Truth]]"),
        line(1, Some(222), Some(0), "[[Spectrum of Truth (Merciless)]]"),
        line(1, Some(97), None, "[[Green Envy]]"),
        line(1, Some(97), Some(0), "[[Green Envy (Normal)]]"),
        line(1, Some(97), Some(1), "[[Green Envy (Expert)]]"),
        line(1, Some(97), Some(2), "[[Green Envy (Deadly)]]"),
        line(1, Some(250), None, "[[Proving Grounds]]"),
        line(1, Some(250), Some(0), "[[First Round (Normal)]]"),
        line(1, Some(250), Some(1), "[[First Round (Expert)]]"),
        line(1, Some(250), Some(2), "[[First Round (Deadly)]]"),
        line(1, Some(385), None, "[[Invaded Map]]"),
        line(1, Some(385), Some(0), "[[Invaded Stage]]"),
        line(1, Some(385), Some(1), "[[After Invaded Stage]]"),
        line(4, None, None, "[[Extra Stages]]"),
        line(4, Some(10), None, "[[Miracle Iris]]"),
        line(4, Some(10), Some(0), "[[Miracle Iris (Deadly)]]"),
        line(4, Some(11), None, "[[Catfruit Jubilee]]"),
        line(4, Some(11), Some(0), "[[Catfruit Jubilee]]"),
        line(4, Some(11), Some(1), "[[Catfruit Jubilee]]"),
        line(4, Some(11), Some(2), "[[Catfruit Jubilee]]"),
        line(4, Some(12), None, "[[2nd Round]]"),
        line(4, Some(12), Some(0), "[[2nd Round: Dawn (Deadly)]]"),
        line(4, Some(12), Some(1), "[[2nd Round: Dusk (Deadly)]]"),
        line(4, Some(13), None, "[[Invaders]]"),
        line(4, Some(13), Some(0), "[[Invader]]"),
    ];
    StageWikiDataContainer::new(
        lines,
        vec![],
        vec![("000-000-000".to_string(), 1), ("001-097-002".to_string(), 4)],
    )
}

fn nav_stage(selector: &str, clears: Option<u32>, continue_data: Option<ContinueStages>) -> Stage {
    let mut s = stage(Some(4), clears);
    s.meta = StageMeta::new(selector).unwrap();
    s.continue_data = continue_data;
    s
}

fn map_of<'a>(names: &'a StageWikiDataContainer, t: T, m: u32) -> &'a MapWikiData {
    names.stage_map(&MapID::from_components(t, m)).unwrap()
}

fn p(key: &str, value: &str) -> TemplateParameter {
    TemplateParameter::new(key.to_string(), value.to_string())
}

#[test]
fn test_single_stage() {
    let names = names();
    let earthshaker = nav_stage("n 0 0", None, None);
    assert_eq!(star(&earthshaker), p("star", "4"));
    assert_eq!(max_clears(&earthshaker), None);
    assert_eq!(difficulty(&earthshaker, &names), Some(p("difficulty", "★1")));
    assert_eq!(
        stage_nav(&earthshaker, map_of(&names, T::SoL, 0), &names, ""),
        vec![p("prev stage", "N/A"), p("next stage", "[[Return of Terror]]")]
    );
}

#[test]
fn test_conditional_continue_single() {
    let names = names();
    let spectrum_of_truth = nav_stage(
        "s 222 0",
        None,
        Some(ContinueStages { chance: 40, map_id: 10, stage_ids: (0, 0) }),
    );
    assert_eq!(
        stage_nav(&spectrum_of_truth, map_of(&names, T::Event, 222), &names, ""),
        vec![
            p("prev stage", "N/A"),
            p("next stage", "[[Miracle Iris (Deadly)]] (''Continuation Stage'', 40%)"),
        ]
    )
}

#[test]
fn test_conditional_continue_multiple() {
    let names = names();
    let green_envy_3 = nav_stage(
        "s 97 2",
        None,
        Some(ContinueStages { chance: 15, map_id: 11, stage_ids: (0, 2) }),
    );
    assert_eq!(
        stage_nav(&green_envy_3, map_of(&names, T::Event, 97), &names, ""),
        vec![
            p("prev stage", "[[Green Envy (Expert)]]"),
            p(
                "next stage",
                "[[Catfruit Jubilee]] (''Continuation Stage'', 5%)<br>\n\
                [[Catfruit Jubilee]] (''Continuation Stage'', 5%)<br>\n\
                [[Catfruit Jubilee]] (''Continuation Stage'', 5%)"
            ),
        ]
    );
}

#[test]
fn test_continue_stage_nav() {
    let names = names();
    let proving_grounds = nav_stage(
        "s 250 2",
        Some(1),
        Some(ContinueStages { chance: 100, map_id: 12, stage_ids: (0, 1) }),
    );
    assert_eq!(max_clears(&proving_grounds), Some(p("max clears", "1")));
    assert_eq!(
        stage_nav(&proving_grounds, map_of(&names, T::Event, 250), &names, ""),
        vec![
            p("prev stage", "[[First Round (Expert)]]"),
            p(
                "next stage",
                "[[2nd Round: Dawn (Deadly)]] (''Continuation Stage'')<br>\n\
                [[2nd Round: Dusk (Deadly)]] (''Continuation Stage'')"
            ),
        ]
    )
}

#[test]
fn test_ex_invasion() {
    let names = names();
    let mut invaded = nav_stage("s 385 0", None, None);
    invaded.ex_invasion = Some(4_013);
    assert_eq!(
        stage_nav(&invaded, map_of(&names, T::Event, 385), &names, ""),
        vec![
            p("prev stage", "N/A"),
            p("next stage", "[[After Invaded Stage]]<br>\n[[Invader]] (''Invasion Stage'')"),
        ]
    );
}

#[test]
fn continuation_chance_that_is_not_whole() {
    let names = names();
    let c = ContinueStages { chance: 10, map_id: 11, stage_ids: (1, 2) };
    assert_eq!(
        get_continuation_stages(&c, &names, "5"),
        "[[Catfruit Jubilee]] (''Continuation Stage'', 5%)<br>\n[[Catfruit Jubilee]] (''Continuation Stage'', 5%)"
    );
    let c = ContinueStages { chance: 10, map_id: 11, stage_ids: (0, 2) };
    assert_eq!(
        get_continuation_stages(&c, &names, "3.3"),
        "[[Catfruit Jubilee]] (''Continuation Stage'', 3.3%)<br>\n\
        [[Catfruit Jubilee]] (''Continuation Stage'', 3.3%)<br>\n\
        [[Catfruit Jubilee]] (''Continuation Stage'', 3.3%)"
    );
}

#[test]
fn nav_of_dojo_and_extra_stages() {
    let names = names();
    let dojo = nav_stage("dojo 0 0", None, None);
    assert_eq!(stage_nav(&dojo, map_of(&names, T::SoL, 0), &names, ""), vec![]);
    let rank = nav_stage("rank 0 0", None, None);
    assert_eq!(stage_nav(&rank, map_of(&names, T::SoL, 0), &names, ""), vec![]);
    let extra = nav_stage("ex 12 0", None, None);
    assert_eq!(
        stage_nav(&extra, map_of(&names, T::Extra, 12), &names, ""),
        vec![p("prev stage", "N/A"), p("next stage", "N/A")]
    );
}

#[test]
fn difficulty_and_single_nav() {
    let names = names();
    assert_eq!(difficulty(&nav_stage("s 97 2", None, None), &names), Some(p("difficulty", "★4")));
    assert_eq!(difficulty(&nav_stage("s 97 1", None, None), &names), None);
    assert_eq!(get_single_nav(None), "N/A");
    let map = map_of(&names, T::Event, 97);
    assert_eq!(get_single_nav(map.get(1)), "[[Green Envy (Expert)]]");
}
