use rust_wiki::stage::stage_metadata::StageMeta;
use rust_wiki::stage::parsed::stage::{CrownData, Restriction, RestrictionCrowns, Stage};
use rust_wiki::stage::stage_option::charagroups::{CharaGroup, CharaGroupType};
use rust_wiki::wiki_data::cat_data::{CatDataContainer, CatName};
use rust_wiki::wikitext::stage_info::internal::restrictions::{restrictions_info, restrictions_section};
use rust_wiki::wikitext::template::TemplateParameter;

fn cat(id: u32, name: &str, page: &str) -> CatName {
    CatName {
        id,
        normal: name.to_string(),
        evolved: None,
        true_form: None,
        ultra: None,
        page: page.to_string(),
        rarity: "Normal".to_string(),
    }
}

fn cats() -> CatDataContainer {
    CatDataContainer::new(
        vec![
            cat(0, "Cat", "Cat (Normal Cat)"),
            cat(1, "Cat Giraffe Modoki", "Cat Giraffe Modoki (Special Cat)"),
            cat(2, "Catnip Tricky", "Catnip Tricky (Special Cat)"),
            cat(3, "Catnip Dragon", "Catnip Dragon (Special Cat)"),
            cat(4, "Homura Akemi", "Homura Akemi (Uber Rare Cat)"),
            cat(5, "Li'l Homura", "Li'l Homura (Special Cat)"),
        ],
        vec![],
    )
}

fn blank(crowns: RestrictionCrowns) -> Restriction {
    Restriction {
        crowns_applied: crowns,
        rarity: None,
        deploy_limit: None,
        rows: None,
        min_cost: None,
        max_cost: None,
        charagroup: None,
    }
}

fn stage(restrictions: Option<Vec<Restriction>>, no_continues: bool, crowns: Option<u8>) -> Stage {
    Stage {
        meta: StageMeta::new("sol 0 0").unwrap(),
        base_id: 0,
        width: 0,
        base_hp: 0,
        max_enemies: 0,
        anim_base_id: None,
        time_limit: None,
        energy: None,
        xp: None,
        is_no_continues: no_continues,
        crown_data: crowns.map(|max_difficulty| CrownData { max_difficulty, crown_2: None, crown_3: None, crown_4: None }),
        restrictions,
        max_clears: None,
        ex_invasion: None,
        continue_data: None,
        enemies: vec![],
        rewards: None,
    }
}

fn one(r: Restriction) -> Stage {
    stage(Some(vec![r]), false, Some(1))
}

fn param(value: &str) -> Option<TemplateParameter> {
    Some(TemplateParameter::new("restriction".to_string(), value.to_string()))
}

#[test]
fn no_restrictions() {
    let boxing_clever = stage(None, false, Some(1));
    assert!(boxing_clever.restrictions.is_none());
    assert_eq!(restrictions_info(&boxing_clever, &cats()), None);
    assert_eq!(&restrictions_section(&boxing_clever, &cats()), "");
}

#[test]
fn no_continues() {
    let realm_of_carnage = stage(None, true, Some(1));
    assert!(realm_of_carnage.restrictions.is_none());
    assert_eq!(restrictions_info(&realm_of_carnage, &cats()), param("[[No Continues]]"));
    assert_eq!(&restrictions_section(&realm_of_carnage, &cats()), "");
}

#[test]
fn only_4_crown_restrictions() {
    let mut r = blank(RestrictionCrowns::One(4));
    r.rarity = Some(0b000110);
    let earthshaker = stage(Some(vec![r]), false, Some(4));
    assert_eq!(restrictions_info(&earthshaker, &cats()), None);
    assert_eq!(&restrictions_section(&earthshaker, &cats()), "");
}

#[test]
fn restriction_rarity_1() {
    let mut r = blank(RestrictionCrowns::All);
    r.rarity = Some(0b001110);
    let sighter_star = stage(Some(vec![r]), false, Some(4));
    assert_eq!( restrictions_info (&sighter_star, &cats()), param( "Rarity: Only [[:Category:Special Cats|Special]], [[:Category:Rare Cats|Rare]] and [[:Category:Super Rare Cats|Super Rare]]" ) );
    assert_eq!( &restrictions_section(&sighter_star, &cats()), "Rarity: Only [[:Category:Special Cats|Special]], [[:Category:Rare Cats|Rare]] and [[:Category:Super Rare Cats|Super Rare]]" );
}

#[test]
fn restriction_rarity_2() {
    let mut r = blank(RestrictionCrowns::One(1));
    r.rarity = Some(0b010001);
    let babies_first = stage(Some(vec![r]), true, Some(1));
    assert_eq!( restrictions_info (&babies_first, &cats()), param( "Rarity: Only [[:Category:Normal Cats|Normal]] and [[:Category:Uber Rare Cats|Uber Rare]]<br>\n[[No Continues]]" ) );
    assert_eq!( &restrictions_section(&babies_first, &cats()), "Rarity: Only [[:Category:Normal Cats|Normal]] and [[:Category:Uber Rare Cats|Uber Rare]]" );
}

#[test]
fn restriction_rarity_3() {
    let mut r = blank(RestrictionCrowns::All);
    r.rarity = Some(0b000010);
    let somolon = stage(Some(vec![r]), false, Some(4));
    assert_eq!(
        restrictions_info(&somolon, &cats()),
        param("Rarity: Only [[:Category:Special Cats|Special]]")
    );
    assert_eq!(
        &restrictions_section(&somolon, &cats()),
        "Rarity: Only [[:Category:Special Cats|Special]]"
    );
}

#[test]
fn restriction_rarity_4() {
    let mut r = blank(RestrictionCrowns::One(1));
    r.rarity = Some(0b110001);
    let wahwah = stage(Some(vec![r]), true, Some(1));
    assert_eq!( restrictions_info (&wahwah, &cats()), param( "Rarity: Only [[:Category:Normal Cats|Normal]], [[:Category:Uber Rare Cats|Uber Rare]] and [[:Category:Legend Rare Cats|Legend Rare]]<br>\n[[No Continues]]" ) );
    assert_eq!( &restrictions_section(&wahwah, &cats()), "Rarity: Only [[:Category:Normal Cats|Normal]], [[:Category:Uber Rare Cats|Uber Rare]] and [[:Category:Legend Rare Cats|Legend Rare]]" );
}

#[test]
fn restriction_deploy_limit() {
    let mut r = blank(RestrictionCrowns::One(1));
    r.deploy_limit = Some(10);
    let wrath_w_cyclone = one(r);
    assert_eq!(
        restrictions_info(&wrath_w_cyclone, &cats()),
        param("Max # of Deployable Cats: 10")
    );
    assert_eq!(
        &restrictions_section(&wrath_w_cyclone, &cats()),
        "Max # of Deployable Cats: 10"
    );
}

#[test]
fn restriction_rows() {
    let mut r = blank(RestrictionCrowns::All);
    r.rows = Some(1);
    let uranus = stage(Some(vec![r]), false, Some(4));
    assert_eq!(restrictions_info(&uranus, &cats()), param("Deploy from Row 1 only"));
    assert_eq!(&restrictions_section(&uranus, &cats()), "Deploy from Row 1 only");
}

#[test]
fn restriction_min_cost_1() {
    let mut r = blank(RestrictionCrowns::All);
    r.min_cost = Some(300);
    let saturn = stage(Some(vec![r]), false, Some(4));
    assert_eq!(
        restrictions_info(&saturn, &cats()),
        param("Cat Deploy Cost: Only 300¢ or more")
    );
    assert_eq!(
        &restrictions_section(&saturn, &cats()),
        "Cat Deploy Cost: Only 300¢ or more"
    );
}

#[test]
fn restriction_min_cost_2() {
    let mut r = blank(RestrictionCrowns::All);
    r.min_cost = Some(1_200);
    let skelling = stage(Some(vec![r]), false, Some(4));
    assert_eq!(
        restrictions_info(&skelling, &cats()),
        param("Cat Deploy Cost: Only 1,200¢ or more")
    );
    assert_eq!(
        &restrictions_section(&skelling, &cats()),
        "Cat Deploy Cost: Only 1,200¢ or more"
    );
}

#[test]
fn restriction_max_cost_1() {
    let mut r = blank(RestrictionCrowns::All);
    r.max_cost = Some(1_200);
    let buutara = stage(Some(vec![r]), false, Some(4));
    assert_eq!(
        restrictions_info(&buutara, &cats()),
        param("Cat Deploy Cost: Only 1,200¢ or less")
    );
    assert_eq!(
        &restrictions_section(&buutara, &cats()),
        "Cat Deploy Cost: Only 1,200¢ or less"
    );
}

#[test]
fn restriction_max_cost_2() {
    let mut r = blank(RestrictionCrowns::All);
    r.max_cost = Some(4_000);
    let catseye_nebula = stage(Some(vec![r]), false, Some(4));
    assert_eq!(
        restrictions_info(&catseye_nebula, &cats()),
        param("Cat Deploy Cost: Only 4,000¢ or less")
    );
    assert_eq!(
        &restrictions_section(&catseye_nebula, &cats()),
        "Cat Deploy Cost: Only 4,000¢ or less"
    );
}

#[test]
fn restriction_only_cat() {
    let mut r = blank(RestrictionCrowns::One(1));
    r.charagroup = Some(CharaGroup { group_type: CharaGroupType::OnlyUse, units: vec![0] });
    let finale = one(r);
    assert_eq!(
        restrictions_info(&finale, &cats()),
        param("Unit Restriction: Only [[Cat (Normal Cat)|Cat]]")
    );
    assert_eq!(
        &restrictions_section(&finale, &cats()),
        "Unit Restriction: Only [[Cat (Normal Cat)|Cat]]"
    );
}

#[test]
fn restriction_only_jra() {
    let mut r = blank(RestrictionCrowns::One(1));
    r.charagroup = Some(CharaGroup { group_type: CharaGroupType::OnlyUse, units: vec![1, 2, 3] });
    let final_race = one(r);
    assert_eq!(
        restrictions_info(&final_race, &cats()),
        param("Unit Restriction: Only [[Cat Giraffe Modoki (Special Cat)|Cat Giraffe Modoki]], [[Catnip Tricky (Special Cat)|Catnip Tricky]] and [[Catnip Dragon (Special Cat)|Catnip Dragon]]")
    );
    assert_eq!(
        &restrictions_section(&final_race, &cats()),
        "Unit Restriction: Only [[Cat Giraffe Modoki (Special Cat)|Cat Giraffe Modoki]], [[Catnip Tricky (Special Cat)|Catnip Tricky]] and [[Catnip Dragon (Special Cat)|Catnip Dragon]]"
    );
}

#[test]
fn restriction_exclude_madoka() {
    let mut r = blank(RestrictionCrowns::One(1));
    r.charagroup = Some(CharaGroup { group_type: CharaGroupType::CannotUse, units: vec![4, 5] });
    let sorry = stage(Some(vec![r]), true, Some(1));
    assert_eq!(
        restrictions_info(&sorry, &cats()),
        param("Unit Restriction: Cannot use [[Homura Akemi (Uber Rare Cat)|Homura Akemi]] and [[Li'l Homura (Special Cat)|Li'l Homura]]<br>\n[[No Continues]]")
    );
    assert_eq!(
        &restrictions_section(&sorry, &cats()),
        "Unit Restriction: Cannot use [[Homura Akemi (Uber Rare Cat)|Homura Akemi]] and [[Li'l Homura (Special Cat)|Li'l Homura]]"
    );
}

#[test]
fn restriction_multiple_cotc() {
    let mut r = blank(RestrictionCrowns::All);
    r.rarity = Some(0b110110);
    r.deploy_limit = Some(10);
    let black_hole = stage(Some(vec![r]), false, Some(4));
    assert_eq!(
        restrictions_info(&black_hole, &cats()),
        param(
            "Rarity: Only [[:Category:Special Cats|Special]], [[:Category:Rare Cats|Rare]], \
            [[:Category:Uber Rare Cats|Uber Rare]] and \
            [[:Category:Legend Rare Cats|Legend Rare]]<br>\n\
            Max # of Deployable Cats: 10"
        )
    );
    assert_eq!(
        restrictions_section(&black_hole, &cats()),
        "*Rarity: Only [[:Category:Special Cats|Special]], [[:Category:Rare Cats|Rare]], [[:Category:Uber Rare Cats|Uber Rare]] and [[:Category:Legend Rare Cats|Legend Rare]]\n\
        *Max # of Deployable Cats: 10"
    );
}

#[test]
fn individual_crown_restrictions() {
    let mut rs = vec![];
    for crown in 1..=4 {
        let mut r = blank(RestrictionCrowns::One(crown));
        r.rarity = Some(0b000111);
        if crown == 4 {
            r.deploy_limit = Some(10);
        }
        rs.push(r);
    }
    let feathered = stage(Some(rs), false, Some(4));

    assert_eq!(
        restrictions_info(&feathered, &cats()),
        param(
            "Rarity: Only [[:Category:Normal Cats|Normal]], [[:Category:Special Cats|Special]] and [[:Category:Rare Cats|Rare]]<br>\n\
            4-Crown: Max # of Deployable Cats: 10"
        ),
    );
    assert_eq!(
        restrictions_section(&feathered, &cats()),
        "*Rarity: Only [[:Category:Normal Cats|Normal]], [[:Category:Special Cats|Special]] and [[:Category:Rare Cats|Rare]]\n\
        *4-Crown: Max # of Deployable Cats: 10"
    );
}

#[test]
fn blank_some_restrictions() {
    let revenge_r_cyclone = stage(Some(vec![]), false, Some(1));
    assert_eq!(revenge_r_cyclone.restrictions.as_ref().map(|r| r.len()), Some(0));
    assert_eq!(restrictions_info(&revenge_r_cyclone, &cats()), None);
    assert_eq!(restrictions_section(&revenge_r_cyclone, &cats()), "");
}

#[test]
fn restriction_replaced_cat_name() {
    let names = vec![cat(0, "Cat", "Cat (Normal Cat)")];
    let cats = CatDataContainer::new(names, vec![("Cat".to_string(), "Kitty".to_string())]);
    let mut r = blank(RestrictionCrowns::All);
    r.charagroup = Some(CharaGroup { group_type: CharaGroupType::OnlyUse, units: vec![0, 0] });
    let s = stage(Some(vec![r]), false, Some(1));
    assert_eq!(
        restrictions_section(&s, &cats),
        "Unit Restriction: Only [[Cat (Normal Cat)|Kitty]] and [[Cat (Normal Cat)|Kitty]]"
    );
}

#[test]
fn restriction_all_crowns_same_then_one_crown_first() {
    let mut first = blank(RestrictionCrowns::One(1));
    first.min_cost = Some(1_234_567);
    let mut second = blank(RestrictionCrowns::One(2));
    second.rows = Some(2);
    let s = stage(Some(vec![first, second]), true, Some(2));
    assert_eq!(
        restrictions_info(&s, &cats()),
        param("1-Crown: Cat Deploy Cost: Only 1,234,567¢ or more<br>\n2-Crown: Deploy from Row 2 only<br>\n[[No Continues]]")
    );
}
