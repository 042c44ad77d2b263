//! Order of the stage variants in the Encounters section, and the sections
//! that stages are listed in.

use crate::meta::stage::stage_id::StageID;
use crate::meta::stage::variant::StageVariant;
use crate::wikitext::data_files::stage_wiki_data::StageWikiDataContainer;
use crate::wikitext::encounters::section::{DisplayType, SectionRef};
use crate::text::ends_with;
use vstd::prelude::*;

verus! {

/// Position of a variant in the Encounters section: main chapters,
/// outbreaks (all three at one position), Filibuster, Aku Realms, the legend
/// stages, event-like stages, Labyrinth, collaborations, Enigma, dojos,
/// Catamin and Extra stages.
pub open spec fn type_order_index(v: StageVariant) -> usize {
    match v {
        StageVariant::MainChapters => 0,
        StageVariant::EocOutbreak | StageVariant::ItfOutbreak | StageVariant::CotcOutbreak => 1,
        StageVariant::Filibuster => 2,
        StageVariant::AkuRealms => 3,
        StageVariant::SoL => 4,
        StageVariant::UL => 5,
        StageVariant::ZL => 6,
        StageVariant::Challenge => 7,
        StageVariant::Event => 8,
        StageVariant::Tower => 9,
        StageVariant::Gauntlet => 10,
        StageVariant::Behemoth => 11,
        StageVariant::Colosseum => 12,
        StageVariant::Labyrinth => 13,
        StageVariant::Collab => 14,
        StageVariant::CollabGauntlet => 15,
        StageVariant::Enigma => 16,
        StageVariant::Dojo => 17,
        StageVariant::RankingDojo => 18,
        StageVariant::Championships => 19,
        StageVariant::Catamin => 20,
        StageVariant::Extra => 21,
    }
}

/// The variants in the order of the Encounters section.
pub open spec fn spec_type_order() -> Seq<StageVariant> {
    seq![
        StageVariant::MainChapters, StageVariant::EocOutbreak, StageVariant::ItfOutbreak,
        StageVariant::CotcOutbreak, StageVariant::Filibuster, StageVariant::AkuRealms,
        StageVariant::SoL, StageVariant::UL, StageVariant::ZL,
        StageVariant::Challenge, StageVariant::Event, StageVariant::Tower,
        StageVariant::Gauntlet, StageVariant::Behemoth, StageVariant::Colosseum,
        StageVariant::Labyrinth, StageVariant::Collab, StageVariant::CollabGauntlet,
        StageVariant::Enigma, StageVariant::Dojo, StageVariant::RankingDojo,
        StageVariant::Championships, StageVariant::Catamin, StageVariant::Extra,
    ]
}

/// Order of the variants in the Encounters section: every variant once,
/// their positions never decreasing along the list.
pub fn type_order() -> (vs: Vec<StageVariant>)
    ensures
        vs@ == spec_type_order(),
        vs@.len() == 24,
        forall|v: StageVariant| vs@.contains(v),
        forall|i: int, j: int| 0 <= i < j < vs@.len() ==> vs@[i] != vs@[j],
        forall|i: int, j: int|
            0 <= i <= j < vs@.len() ==> type_order_index(vs@[i]) <= type_order_index(vs@[j]),
{
    let vs = vec![
        StageVariant::MainChapters, StageVariant::EocOutbreak, StageVariant::ItfOutbreak,
        StageVariant::CotcOutbreak, StageVariant::Filibuster, StageVariant::AkuRealms,
        StageVariant::SoL, StageVariant::UL, StageVariant::ZL,
        StageVariant::Challenge, StageVariant::Event, StageVariant::Tower,
        StageVariant::Gauntlet, StageVariant::Behemoth, StageVariant::Colosseum,
        StageVariant::Labyrinth, StageVariant::Collab, StageVariant::CollabGauntlet,
        StageVariant::Enigma, StageVariant::Dojo, StageVariant::RankingDojo,
        StageVariant::Championships, StageVariant::Catamin, StageVariant::Extra,
    ];
    assert(vs@ =~= spec_type_order());
    assert forall|v: StageVariant| vs@.contains(v) by {
        let i: int = match v {
            StageVariant::MainChapters => 0,
            StageVariant::EocOutbreak => 1,
            StageVariant::ItfOutbreak => 2,
            StageVariant::CotcOutbreak => 3,
            StageVariant::Filibuster => 4,
            StageVariant::AkuRealms => 5,
            StageVariant::SoL => 6,
            StageVariant::UL => 7,
            StageVariant::ZL => 8,
            StageVariant::Challenge => 9,
            StageVariant::Event => 10,
            StageVariant::Tower => 11,
            StageVariant::Gauntlet => 12,
            StageVariant::Behemoth => 13,
            StageVariant::Colosseum => 14,
            StageVariant::Labyrinth => 15,
            StageVariant::Collab => 16,
            StageVariant::CollabGauntlet => 17,
            StageVariant::Enigma => 18,
            StageVariant::Dojo => 19,
            StageVariant::RankingDojo => 20,
            StageVariant::Championships => 21,
            StageVariant::Catamin => 22,
            StageVariant::Extra => 23,
        };
        assert(vs@[i] == v);
    }
    vs
}

/// Position of a variant in the Encounters section.
fn variant_position(v: StageVariant) -> (i: usize)
    ensures
        i == type_order_index(v),
{
    match v {
        StageVariant::MainChapters => 0,
        StageVariant::EocOutbreak | StageVariant::ItfOutbreak | StageVariant::CotcOutbreak => 1,
        StageVariant::Filibuster => 2,
        StageVariant::AkuRealms => 3,
        StageVariant::SoL => 4,
        StageVariant::UL => 5,
        StageVariant::ZL => 6,
        StageVariant::Challenge => 7,
        StageVariant::Event => 8,
        StageVariant::Tower => 9,
        StageVariant::Gauntlet => 10,
        StageVariant::Behemoth => 11,
        StageVariant::Colosseum => 12,
        StageVariant::Labyrinth => 13,
        StageVariant::Collab => 14,
        StageVariant::CollabGauntlet => 15,
        StageVariant::Enigma => 16,
        StageVariant::Dojo => 17,
        StageVariant::RankingDojo => 18,
        StageVariant::Championships => 19,
        StageVariant::Catamin => 20,
        StageVariant::Extra => 21,
    }
}

/// Position of a stage's variant in the Encounters section, for use in
/// comparisons.
pub fn enumerate_meta(id: &StageID) -> (i: usize)
    ensures
        i == type_order_index(id.spec_map().spec_variant()),
{
    variant_position(id.variant())
}

/// Section that a stage of variant `v` in map `map` is listed in.
pub open spec fn section_of(v: StageVariant, map: u32) -> SectionRef {
    match v {
        StageVariant::MainChapters => if map <= 2 {
            SectionRef::EoC
        } else if map <= 5 {
            SectionRef::ItF
        } else {
            SectionRef::CotC
        },
        StageVariant::EocOutbreak => SectionRef::EocOutbreak,
        StageVariant::ItfOutbreak => SectionRef::ItfOutbreak,
        StageVariant::CotcOutbreak => SectionRef::CotcOutbreak,
        StageVariant::Filibuster => SectionRef::CotC,
        StageVariant::AkuRealms => SectionRef::AkuRealms,
        StageVariant::SoL => SectionRef::SoL,
        StageVariant::UL => SectionRef::UL,
        StageVariant::ZL => SectionRef::ZL,
        StageVariant::Event | StageVariant::Tower | StageVariant::Challenge | StageVariant::Gauntlet
        | StageVariant::Behemoth | StageVariant::Colosseum => SectionRef::Event,
        StageVariant::Labyrinth => SectionRef::Labyrinth,
        StageVariant::Collab | StageVariant::CollabGauntlet => SectionRef::Collab,
        StageVariant::Enigma => SectionRef::Enigma,
        StageVariant::Dojo | StageVariant::RankingDojo | StageVariant::Championships => SectionRef::Dojo,
        StageVariant::Extra => SectionRef::Extra,
        StageVariant::Catamin => SectionRef::Catamin,
    }
}

/// Section that a stage variant and map number give, the main chapters
/// having maps 0 to 8.
fn section_of_parts(v: StageVariant, map: u32) -> (r: SectionRef)
    requires
        v == StageVariant::MainChapters ==> map <= 8,
    ensures
        r == section_of(v, map),
{
    match v {
        StageVariant::MainChapters => if map <= 2 {
            SectionRef::EoC
        } else if map <= 5 {
            SectionRef::ItF
        } else {
            SectionRef::CotC
        },
        StageVariant::EocOutbreak => SectionRef::EocOutbreak,
        StageVariant::ItfOutbreak => SectionRef::ItfOutbreak,
        StageVariant::CotcOutbreak => SectionRef::CotcOutbreak,
        StageVariant::Filibuster => SectionRef::CotC,
        StageVariant::AkuRealms => SectionRef::AkuRealms,
        StageVariant::SoL => SectionRef::SoL,
        StageVariant::UL => SectionRef::UL,
        StageVariant::ZL => SectionRef::ZL,
        StageVariant::Event | StageVariant::Tower | StageVariant::Challenge | StageVariant::Gauntlet
        | StageVariant::Behemoth | StageVariant::Colosseum => SectionRef::Event,
        StageVariant::Labyrinth => SectionRef::Labyrinth,
        StageVariant::Collab | StageVariant::CollabGauntlet => SectionRef::Collab,
        StageVariant::Enigma => SectionRef::Enigma,
        StageVariant::Dojo | StageVariant::RankingDojo | StageVariant::Championships => SectionRef::Dojo,
        StageVariant::Extra => SectionRef::Extra,
        StageVariant::Catamin => SectionRef::Catamin,
    }
}

/// Get the section that the stage refers to (removed stages and filtering
/// by type are dealt with elsewhere).
pub fn raw_section(id: &StageID) -> (r: SectionRef)
    requires
        id.spec_map().spec_variant() == StageVariant::MainChapters ==> id.spec_map().spec_num() <= 8,
    ensures
        r == section_of(id.spec_map().spec_variant(), id.spec_map().spec_num()),
{
    section_of_parts(id.variant(), id.map().num())
}

/// Variant number of the Aku Realms, whose continuation stages are named
/// by their stage number alone.
pub const AKU_REALMS_NUM: u32 = 30;

/// Stage number that stands for a continuation stage of a map.
pub const CONTINUATION_STAGE: u32 = 999;

/// Type and map numbers of the stage an Extra map continues, where the
/// data gives them.
pub open spec fn continued(names: &StageWikiDataContainer, ex_map: u32) -> Option<(u32, u32)> {
    names.spec_continue()[ex_map as int]
}

/// Where an Extra stage goes: the Aku Realms, or the continued type and
/// map.
pub open spec fn continued_parts(t: u32, m: u32) -> (StageVariant, u32) {
    if t == AKU_REALMS_NUM {
        (StageVariant::AkuRealms, 0)
    } else {
        (StageVariant::spec_from_num(t)->0, m)
    }
}

/// Sorting key of a stage: its position in the Encounters section, then
/// map and stage numbers; an Extra stage with a continued map is placed as
/// stage 999 of that map.
pub open spec fn spec_key(id: StageID, names: &StageWikiDataContainer) -> (usize, u32, u32) {
    let v = id.spec_map().spec_variant();
    if v == StageVariant::Extra && continued(names, id.spec_map().spec_num()) is Some {
        let (t, m) = continued(names, id.spec_map().spec_num())->0;
        let (cv, cm) = continued_parts(t, m);
        (type_order_index(cv), cm, CONTINUATION_STAGE)
    } else {
        (type_order_index(v), id.spec_map().spec_num(), id.spec_num())
    }
}

/// An Extra stage's continuation data can be read: the map has an entry,
/// and a continued type other than the Aku Realms is a known variant.
pub open spec fn continue_ok(id: StageID, names: &StageWikiDataContainer) -> bool {
    id.spec_map().spec_variant() == StageVariant::Extra ==> {
        &&& id.spec_map().spec_num() < names.spec_continue().len()
        &&& match continued(names, id.spec_map().spec_num()) {
            Some((t, m)) => t == AKU_REALMS_NUM || StageVariant::spec_from_num(t) is Some,
            None => true,
        }
    }
}

/// Key for use in sorting encounters.
pub fn key(id: &StageID, names: &StageWikiDataContainer) -> (k: (usize, u32, u32))
    requires
        continue_ok(*id, names),
    ensures
        k == spec_key(*id, names),
{
    let v = id.variant();
    if v == StageVariant::Extra {
        if let Some((t, m)) = names.continue_id(id.map().num()) {
            let cont = if t == AKU_REALMS_NUM {
                StageID::from_components(StageVariant::AkuRealms, 0, CONTINUATION_STAGE)
            } else {
                StageID::from_numbers(t, m, CONTINUATION_STAGE)
            };
            return (enumerate_meta(&cont), cont.map().num(), cont.num());
        }
    }
    (enumerate_meta(id), id.map().num(), id.num())
}

/// Section an encounter is listed in: none for skipped sections and for
/// Extra stages that continue no map; an Extra stage that does goes to the
/// section of the map it continues.
pub open spec fn encounter_section(id: StageID, names: &StageWikiDataContainer) -> Option<SectionRef> {
    let raw = section_of(id.spec_map().spec_variant(), id.spec_map().spec_num());
    if raw.spec_section_display() == DisplayType::Skip {
        None
    } else if raw == SectionRef::Extra {
        match continued(names, id.spec_map().spec_num()) {
            None => None,
            Some((t, m)) => {
                let (cv, cm) = continued_parts(t, m);
                Some(section_of(cv, cm))
            },
        }
    } else {
        Some(raw)
    }
}

/// Position of the section `s` in a section map, or its length.
pub open spec fn section_pos(m: Seq<(SectionRef, Seq<StageID>)>, s: SectionRef) -> int
    decreases m.len(),
{
    if m.len() == 0 {
        0
    } else if section_pos(m.drop_last(), s) < m.len() - 1 {
        section_pos(m.drop_last(), s)
    } else if m.last().0 == s {
        m.len() - 1
    } else {
        m.len() as int
    }
}

/// Add an encounter to its section, adding the section where it is new.
pub open spec fn add_encounter(m: Seq<(SectionRef, Seq<StageID>)>, s: SectionRef, id: StageID) -> Seq<
    (SectionRef, Seq<StageID>),
> {
    let pos = section_pos(m, s);
    if pos < m.len() {
        m.update(pos, (s, m[pos].1.push(id)))
    } else {
        m.push((s, seq![id]))
    }
}

/// Encounters grouped by section, sections in order of first appearance and
/// encounters in their order.
pub open spec fn section_map(ids: Seq<StageID>, names: &StageWikiDataContainer) -> Seq<(SectionRef, Seq<StageID>)>
    decreases ids.len(),
{
    if ids.len() == 0 {
        Seq::empty()
    } else {
        let prev = section_map(ids.drop_last(), names);
        match encounter_section(ids.last(), names) {
            None => prev,
            Some(s) => add_encounter(prev, s, ids.last()),
        }
    }
}

/// Views of a section map.
pub open spec fn sections_view(v: Seq<(SectionRef, Vec<StageID>)>) -> Seq<(SectionRef, Seq<StageID>)> {
    Seq::new(v.len(), |i: int| (v[i].0, v[i].1@))
}

/// A continued main chapter map is one of maps 0 to 8.
pub open spec fn continued_main_ok(id: StageID, names: &StageWikiDataContainer) -> bool {
    match continued(names, id.spec_map().spec_num()) {
        Some((t, m)) => continued_parts(t, m).0 == StageVariant::MainChapters ==> m <= 8,
        None => true,
    }
}

/// Encounters whose sections can be worked out: main chapter maps are 0 to
/// 8, Extra stages have continuation data, and a continued main chapter map
/// is one of those.
pub open spec fn sections_ok(ids: Seq<StageID>, names: &StageWikiDataContainer) -> bool {
    forall|i: int|
        0 <= i < ids.len() ==> {
            let id = #[trigger] ids[i];
            &&& id.spec_map().spec_variant() == StageVariant::MainChapters ==> id.spec_map().spec_num() <= 8
            &&& continue_ok(id, names)
            &&& id.spec_map().spec_variant() == StageVariant::Extra ==> continued_main_ok(id, names)
        }
}

/// Section of an encounter, if it is listed.
fn encounter_section_of(id: &StageID, names: &StageWikiDataContainer) -> (r: Option<SectionRef>)
    requires
        id.spec_map().spec_variant() == StageVariant::MainChapters ==> id.spec_map().spec_num() <= 8,
        continue_ok(*id, names),
        id.spec_map().spec_variant() == StageVariant::Extra ==> continued_main_ok(*id, names),
    ensures
        r == encounter_section(*id, names),
{
    let raw = raw_section(id);
    if *raw.section().display_type() == DisplayType::Skip {
        return None;
    }
    if raw == SectionRef::Extra {
        match names.continue_id(id.map().num()) {
            None => {
                return None;
            },
            Some((t, m)) => {
                if t == AKU_REALMS_NUM {
                    return Some(section_of_parts(StageVariant::AkuRealms, 0));
                }
                let v = StageVariant::from_num(t).unwrap();
                return Some(section_of_parts(v, m));
            },
        }
    }
    Some(raw)
}

/// Copy a list of stage ids.
fn copy_ids(v: &Vec<StageID>) -> (r: Vec<StageID>)
    ensures
        r@ == v@,
{
    let mut r: Vec<StageID> = Vec::new();
    let mut i: usize = 0;
    while i < v.len()
        invariant
            0 <= i <= v.len(),
            r@ == v@.take(i as int),
        decreases v.len() - i,
    {
        r.push(v[i]);
        assert(r@ =~= v@.take(i + 1));
        i = i + 1;
    }
    assert(v@.take(i as int) =~= v@);
    r
}

/// Map sections to the encounters listed in them, in order.
pub fn get_section_map(encounters: &Vec<StageID>, names: &StageWikiDataContainer) -> (m: Vec<
    (SectionRef, Vec<StageID>),
>)
    requires
        sections_ok(encounters@, names),
    ensures
        sections_view(m@) == section_map(encounters@, names),
{
    let mut sections: Vec<(SectionRef, Vec<StageID>)> = Vec::new();
    let mut i: usize = 0;
    while i < encounters.len()
        invariant
            0 <= i <= encounters.len(),
            sections_ok(encounters@, names),
            sections_view(sections@) == section_map(encounters@.take(i as int), names),
        decreases encounters.len() - i,
    {
        let id = encounters[i];
        let ghost p = encounters@.take(i + 1);
        assert(p.drop_last() =~= encounters@.take(i as int));
        assert(p.last() == encounters@[i as int]);
        assert(encounters@[i as int] == id);
        let ghost before = sections_view(sections@);
        match encounter_section_of(&id, names) {
            None => {},
            Some(s) => {
                let mut pos: usize = 0;
                while pos < sections.len() && sections[pos].0 != s
                    invariant
                        0 <= pos <= sections.len(),
                        before == sections_view(sections@),
                        forall|q: int| 0 <= q < pos ==> sections@[q].0 != s,
                    decreases sections.len() - pos,
                {
                    pos = pos + 1;
                }
                proof {
                    lemma_section_pos(before, s, pos as int);
                }
                if pos < sections.len() {
                    let mut entry = copy_ids(&sections[pos].1);
                    entry.push(id);
                    assert(entry@ =~= before[pos as int].1.push(id));
                    sections.set(pos, (s, entry));
                    assert(sections_view(sections@) =~= before.update(pos as int, (s, before[pos as int].1.push(id))));
                } else {
                    let mut one: Vec<StageID> = Vec::new();
                    one.push(id);
                    assert(one@ =~= seq![id]);
                    sections.push((s, one));
                    assert(sections_view(sections@) =~= before.push((s, seq![id])));
                }
                assert(sections_view(sections@) == add_encounter(before, s, id));
            },
        }
        i = i + 1;
    }
    assert(encounters@.take(i as int) =~= encounters@);
    sections
}

/// Lemma: where the first `pos` sections differ from `s` and the next one is
/// `s` (or there is none), `pos` is the position of `s`.
proof fn lemma_section_pos(m: Seq<(SectionRef, Seq<StageID>)>, s: SectionRef, pos: int)
    requires
        0 <= pos <= m.len(),
        forall|q: int| 0 <= q < pos ==> m[q].0 != s,
        pos < m.len() ==> m[pos].0 == s,
    ensures
        section_pos(m, s) == pos,
    decreases m.len(),
{
    if m.len() > 0 {
        if pos < m.len() - 1 {
            lemma_section_pos(m.drop_last(), s, pos);
        } else {
            lemma_section_pos(m.drop_last(), s, m.len() - 1);
        }
    }
}

/// Lemma: the position of a section is that of an entry holding it, or the
/// length of the map where no entry holds it.
proof fn lemma_section_pos_found(m: Seq<(SectionRef, Seq<StageID>)>, s: SectionRef)
    ensures
        0 <= section_pos(m, s) <= m.len(),
        section_pos(m, s) < m.len() ==> m[section_pos(m, s)].0 == s,
        section_pos(m, s) == m.len() ==> forall|q: int| 0 <= q < m.len() ==> m[q].0 != s,
    decreases m.len(),
{
    if m.len() > 0 {
        lemma_section_pos_found(m.drop_last(), s);
        assert forall|q: int| 0 <= q < m.len() - 1 implies m.drop_last()[q] == m[q] by {}
    }
}

/// Law: the section map holds each section once; every encounter that is
/// listed stands in the entry of its section, and every encounter of an
/// entry is listed in that entry's section.
pub proof fn law_section_map(ids: Seq<StageID>, names: &StageWikiDataContainer)
    ensures
        forall|i: int, j: int|
            0 <= i < j < section_map(ids, names).len() ==> #[trigger] section_map(ids, names)[i].0
                != #[trigger] section_map(ids, names)[j].0,
        forall|k: int|
            0 <= k < ids.len() && encounter_section(#[trigger] ids[k], names) is Some ==> exists|i: int|
                0 <= i < section_map(ids, names).len() && #[trigger] section_map(ids, names)[i].0
                    == encounter_section(ids[k], names)->0 && section_map(ids, names)[i].1.contains(ids[k]),
        forall|i: int, j: int|
            0 <= i < section_map(ids, names).len() && 0 <= j < section_map(ids, names)[i].1.len()
                ==> encounter_section(#[trigger] section_map(ids, names)[i].1[j], names) == Some(
                section_map(ids, names)[i].0,
            ),
    decreases ids.len(),
{
    if ids.len() > 0 {
        let p = ids.drop_last();
        let id = ids.last();
        law_section_map(p, names);
        let prev = section_map(p, names);
        match encounter_section(id, names) {
            None => {
                assert(section_map(ids, names) == prev);
                assert forall|k: int|
                    0 <= k < ids.len() && encounter_section(#[trigger] ids[k], names) is Some implies exists|i: int|
                    0 <= i < prev.len() && #[trigger] prev[i].0 == encounter_section(ids[k], names)->0
                        && prev[i].1.contains(ids[k]) by {
                    assert(k < ids.len() - 1);
                    assert(p[k] == ids[k]);
                }
            },
            Some(sec) => {
                let m = add_encounter(prev, sec, id);
                assert(section_map(ids, names) == m);
                lemma_section_pos_found(prev, sec);
                let pos = section_pos(prev, sec);
                assert forall|i: int, j: int| 0 <= i < j < m.len() implies #[trigger] m[i].0 != #[trigger] m[j].0 by {
                    if pos == prev.len() && j == prev.len() {
                        assert(prev[i].0 != sec);
                    } else {
                        assert(m[i].0 == prev[i].0 && m[j].0 == prev[j].0);
                    }
                }
                assert forall|i: int, j: int| 0 <= i < m.len() && 0 <= j < m[i].1.len() implies encounter_section(
                    #[trigger] m[i].1[j],
                    names,
                ) == Some(m[i].0) by {
                    if i == pos {
                        if pos < prev.len() && j < prev[pos].1.len() {
                            assert(m[i].1[j] == prev[i].1[j]);
                        }
                    } else {
                        assert(m[i] == prev[i]);
                    }
                }
                assert forall|k: int|
                    0 <= k < ids.len() && encounter_section(#[trigger] ids[k], names) is Some implies exists|i: int|
                    0 <= i < m.len() && #[trigger] m[i].0 == encounter_section(ids[k], names)->0 && m[i].1.contains(
                        ids[k],
                    ) by {
                    if k == ids.len() - 1 {
                        assert(m[pos].1.last() == id);
                        assert(m[pos].1.contains(id));
                    } else {
                        assert(p[k] == ids[k]);
                        let i = choose|i: int|
                            0 <= i < prev.len() && #[trigger] prev[i].0 == encounter_section(p[k], names)->0
                                && prev[i].1.contains(p[k]);
                        let q = choose|q: int| 0 <= q < prev[i].1.len() && prev[i].1[q] == p[k];
                        assert(m[i].0 == prev[i].0);
                        assert(m[i].1[q] == p[k]);
                    }
                }
            },
        }
    }
}

/// `a` comes no later than `b` in lexicographic order of sorting keys.
pub open spec fn key_le(a: (usize, u32, u32), b: (usize, u32, u32)) -> bool {
    a.0 < b.0 || (a.0 == b.0 && (a.1 < b.1 || (a.1 == b.1 && a.2 <= b.2)))
}

/// Index at which `e` goes into `s`: before the first encounter whose key
/// comes after that of `e`.
pub open spec fn insert_pos(s: Seq<StageID>, e: StageID, names: &StageWikiDataContainer) -> int
    decreases s.len(),
{
    if s.len() == 0 {
        0
    } else if !key_le(spec_key(s[0], names), spec_key(e, names)) {
        0
    } else {
        1 + insert_pos(s.drop_first(), e, names)
    }
}

/// Encounters sorted by key, encounters with equal keys kept in their
/// order (each inserted after those before it with a key no later).
pub open spec fn sorted_encounters(s: Seq<StageID>, names: &StageWikiDataContainer) -> Seq<StageID>
    decreases s.len(),
{
    if s.len() == 0 {
        Seq::empty()
    } else {
        let r = sorted_encounters(s.drop_last(), names);
        r.insert(insert_pos(r, s.last(), names), s.last())
    }
}

/// Lemma: the insertion index of `e` is within `s`, every encounter before
/// it has a key no later than that of `e`, and the one at it (if any) a
/// later key.
proof fn lemma_insert_pos(s: Seq<StageID>, e: StageID, names: &StageWikiDataContainer)
    ensures
        0 <= insert_pos(s, e, names) <= s.len(),
        forall|q: int| 0 <= q < insert_pos(s, e, names) ==> key_le(spec_key(#[trigger] s[q], names), spec_key(e, names)),
        insert_pos(s, e, names) < s.len() ==> !key_le(spec_key(s[insert_pos(s, e, names)], names), spec_key(e, names)),
    decreases s.len(),
{
    if s.len() > 0 && key_le(spec_key(s[0], names), spec_key(e, names)) {
        lemma_insert_pos(s.drop_first(), e, names);
        assert forall|q: int| 0 <= q < insert_pos(s, e, names) implies key_le(
            spec_key(#[trigger] s[q], names),
            spec_key(e, names),
        ) by {
            if q > 0 {
                assert(s[q] == s.drop_first()[q - 1]);
            }
        }
        if insert_pos(s, e, names) < s.len() {
            assert(s[insert_pos(s, e, names)] == s.drop_first()[insert_pos(s.drop_first(), e, names)]);
        }
    }
}

/// Does key `a` come no later than key `b`?
fn key_le_exec(a: (usize, u32, u32), b: (usize, u32, u32)) -> (r: bool)
    ensures
        r == key_le(a, b),
{
    a.0 < b.0 || (a.0 == b.0 && (a.1 < b.1 || (a.1 == b.1 && a.2 <= b.2)))
}

/// Lemma: an index before which every key is no later than that of `e`,
/// and at which the key (if any) is later, is the insertion index of `e`.
proof fn lemma_insert_pos_is(s: Seq<StageID>, e: StageID, names: &StageWikiDataContainer, pos: int)
    requires
        0 <= pos <= s.len(),
        forall|q: int| 0 <= q < pos ==> key_le(spec_key(#[trigger] s[q], names), spec_key(e, names)),
        pos < s.len() ==> !key_le(spec_key(s[pos], names), spec_key(e, names)),
    ensures
        insert_pos(s, e, names) == pos,
    decreases s.len(),
{
    if s.len() > 0 && pos > 0 {
        assert(key_le(spec_key(s[0], names), spec_key(e, names)));
        assert forall|q: int| 0 <= q < pos - 1 implies key_le(
            spec_key(#[trigger] s.drop_first()[q], names),
            spec_key(e, names),
        ) by {
            assert(s.drop_first()[q] == s[q + 1]);
        }
        if pos < s.len() {
            assert(s.drop_first()[pos - 1] == s[pos]);
        }
        lemma_insert_pos_is(s.drop_first(), e, names, pos - 1);
    }
}

/// Sort `encounters` by key, keeping encounters with equal keys in order.
pub fn sort_encounters(encounters: &mut Vec<StageID>, names: &StageWikiDataContainer)
    requires
        forall|i: int| 0 <= i < old(encounters)@.len() ==> continue_ok(#[trigger] old(encounters)@[i], names),
    ensures
        final(encounters)@ == sorted_encounters(old(encounters)@, names),
{
    let ghost input = encounters@;
    let mut out: Vec<StageID> = Vec::new();
    let mut keys: Vec<(usize, u32, u32)> = Vec::new();
    let mut i: usize = 0;
    while i < encounters.len()
        invariant
            0 <= i <= encounters.len(),
            encounters@ == input,
            forall|j: int| 0 <= j < input.len() ==> continue_ok(#[trigger] input[j], names),
            out@ == sorted_encounters(input.take(i as int), names),
            keys@.len() == out@.len(),
            forall|j: int| 0 <= j < keys@.len() ==> #[trigger] keys@[j] == spec_key(out@[j], names),
        decreases encounters.len() - i,
    {
        let e = encounters[i];
        let ghost p = input.take(i + 1);
        assert(p.drop_last() =~= input.take(i as int));
        assert(p.last() == e);
        let k = key(&e, names);
        let mut pos: usize = 0;
        while pos < out.len() && key_le_exec(keys[pos], k)
            invariant
                0 <= pos <= out.len(),
                keys@.len() == out@.len(),
                forall|j: int| 0 <= j < keys@.len() ==> #[trigger] keys@[j] == spec_key(out@[j], names),
                k == spec_key(e, names),
                forall|q: int| 0 <= q < pos ==> key_le(spec_key(#[trigger] out@[q], names), k),
            decreases out.len() - pos,
        {
            assert(keys@[pos as int] == spec_key(out@[pos as int], names));
            pos = pos + 1;
        }
        proof {
            if pos < out.len() {
                assert(keys@[pos as int] == spec_key(out@[pos as int], names));
            }
            lemma_insert_pos_is(out@, e, names, pos as int);
        }
        let ghost old_keys = keys@;
        let ghost old_out = out@;
        out.insert(pos, e);
        keys.insert(pos, k);
        assert forall|j: int| 0 <= j < keys@.len() implies #[trigger] keys@[j] == spec_key(out@[j], names) by {
            if j < pos {
                assert(keys@[j] == old_keys[j] && out@[j] == old_out[j]);
            } else if j > pos {
                assert(keys@[j] == old_keys[j - 1] && out@[j] == old_out[j - 1]);
            }
        }
        i = i + 1;
    }
    assert(input.take(i as int) =~= input);
    *encounters = out;
}

/// Law: sorted encounters are in order of their keys and are the same
/// encounters, each as often as before.
pub proof fn law_sorted_encounters(s: Seq<StageID>, names: &StageWikiDataContainer)
    ensures
        forall|i: int, j: int|
            0 <= i < j < sorted_encounters(s, names).len() ==> key_le(
                spec_key(#[trigger] sorted_encounters(s, names)[i], names),
                spec_key(#[trigger] sorted_encounters(s, names)[j], names),
            ),
        sorted_encounters(s, names).to_multiset() == s.to_multiset(),
    decreases s.len(),
{
    broadcast use vstd::seq_lib::group_to_multiset_ensures, vstd::multiset::group_multiset_axioms;

    if s.len() > 0 {
        let p = s.drop_last();
        let e = s.last();
        law_sorted_encounters(p, names);
        let r = sorted_encounters(p, names);
        lemma_insert_pos(r, e, names);
        let pos = insert_pos(r, e, names);
        let t = r.insert(pos, e);
        assert(sorted_encounters(s, names) == t);
        assert forall|i: int, j: int| 0 <= i < j < t.len() implies key_le(
            spec_key(#[trigger] t[i], names),
            spec_key(#[trigger] t[j], names),
        ) by {
            if j < pos {
                assert(t[i] == r[i] && t[j] == r[j]);
            } else if j == pos {
                assert(t[i] == r[i]);
            } else if i < pos {
                assert(t[i] == r[i] && t[j] == r[j - 1]);
            } else if i == pos {
                assert(t[j] == r[j - 1]);
                if pos < j - 1 {
                    assert(key_le(spec_key(r[pos], names), spec_key(r[j - 1], names)));
                }
            } else {
                assert(t[i] == r[i - 1] && t[j] == r[j - 1]);
            }
        }
        assert(t.remove(pos) =~= r);
        assert(t[pos] == e);
        assert(s =~= p.push(e));
        assert(t.to_multiset().count(e) > 0) by {
            assert(t.contains(e));
        }
        assert(t.to_multiset() =~= r.to_multiset().insert(e)) by {
            assert(t.to_multiset().remove(e) == r.to_multiset());
        }
    }
}

/// Variants whose stages have a section named after the variant's stage
/// type: the legend stages, events, collaborations, Enigma, the Dojo,
/// Catamin and Extra stages.
pub open spec fn has_named_section(v: StageVariant) -> bool {
    v == StageVariant::SoL || v == StageVariant::UL || v == StageVariant::ZL || v == StageVariant::Event || v == StageVariant::Collab || v == StageVariant::Enigma || v == StageVariant::Dojo || v == StageVariant::Catamin || v == StageVariant::Extra
}

/// A heading without the `]]` that closes its link, where it ends in one.
pub open spec fn heading_text_end(h: Seq<char>) -> Seq<char> {
    if ends_with(h, "]]"@) {
        h.subrange(0, h.len() - 2)
    } else {
        h
    }
}

/// Law: a stage of a variant with a section named after it is listed under
/// the heading of its own stage type: the heading's text ends with the name
/// of the variant's stage type (an Uncanny Legends stage goes under
/// "Uncanny Legends", never under "Stories of Legend").
pub proof fn law_named_sections(v: StageVariant, map: u32)
    requires
        has_named_section(v),
    ensures
        ends_with(
            heading_text_end(section_of(v, map).spec_section_heading()@),
            crate::meta::stage::stage_types::data::spec_stage_type(v).name@,
        ),
{
    reveal_strlit("[[Legend Stages#Stories of Legend|Stories of Legend]]");
    reveal_strlit("Stories of Legend");
    reveal_strlit("[[Legend Stages#Uncanny Legends|Uncanny Legends]]");
    reveal_strlit("Uncanny Legends");
    reveal_strlit("[[Legend Stages#Zero Legends|Zero Legends]]");
    reveal_strlit("Zero Legends");
    reveal_strlit("[[Special Events|Event Stages]]");
    reveal_strlit("Event Stages");
    reveal_strlit("[[Collaboration Events|Collaboration Stages]]");
    reveal_strlit("Collaboration Stages");
    reveal_strlit("[[Enigma Stages]]");
    reveal_strlit("Enigma Stages");
    reveal_strlit("[[Catclaw Dojo]]");
    reveal_strlit("Catclaw Dojo");
    reveal_strlit("[[Catamin Stages]]");
    reveal_strlit("Catamin Stages");
    reveal_strlit("Extra Stages");
    reveal_strlit("]]");
    match v {
        StageVariant::SoL => {
            let h = "[[Legend Stages#Stories of Legend|Stories of Legend]]"@;
            assert(h.subrange(h.len() - 2, h.len() as int) =~= "]]"@);
            let t = h.subrange(0, h.len() - 2);
            assert(t.subrange(t.len() - 17, t.len() as int) =~= "Stories of Legend"@);
        },
        StageVariant::UL => {
            let h = "[[Legend Stages#Uncanny Legends|Uncanny Legends]]"@;
            assert(h.subrange(h.len() - 2, h.len() as int) =~= "]]"@);
            let t = h.subrange(0, h.len() - 2);
            assert(t.subrange(t.len() - 15, t.len() as int) =~= "Uncanny Legends"@);
        },
        StageVariant::ZL => {
            let h = "[[Legend Stages#Zero Legends|Zero Legends]]"@;
            assert(h.subrange(h.len() - 2, h.len() as int) =~= "]]"@);
            let t = h.subrange(0, h.len() - 2);
            assert(t.subrange(t.len() - 12, t.len() as int) =~= "Zero Legends"@);
        },
        StageVariant::Event => {
            let h = "[[Special Events|Event Stages]]"@;
            assert(h.subrange(h.len() - 2, h.len() as int) =~= "]]"@);
            let t = h.subrange(0, h.len() - 2);
            assert(t.subrange(t.len() - 12, t.len() as int) =~= "Event Stages"@);
        },
        StageVariant::Collab => {
            let h = "[[Collaboration Events|Collaboration Stages]]"@;
            assert(h.subrange(h.len() - 2, h.len() as int) =~= "]]"@);
            let t = h.subrange(0, h.len() - 2);
            assert(t.subrange(t.len() - 20, t.len() as int) =~= "Collaboration Stages"@);
        },
        StageVariant::Enigma => {
            let h = "[[Enigma Stages]]"@;
            assert(h.subrange(h.len() - 2, h.len() as int) =~= "]]"@);
            let t = h.subrange(0, h.len() - 2);
            assert(t.subrange(t.len() - 13, t.len() as int) =~= "Enigma Stages"@);
        },
        StageVariant::Dojo => {
            let h = "[[Catclaw Dojo]]"@;
            assert(h.subrange(h.len() - 2, h.len() as int) =~= "]]"@);
            let t = h.subrange(0, h.len() - 2);
            assert(t.subrange(t.len() - 12, t.len() as int) =~= "Catclaw Dojo"@);
        },
        StageVariant::Catamin => {
            let h = "[[Catamin Stages]]"@;
            assert(h.subrange(h.len() - 2, h.len() as int) =~= "]]"@);
            let t = h.subrange(0, h.len() - 2);
            assert(t.subrange(t.len() - 14, t.len() as int) =~= "Catamin Stages"@);
        },
        StageVariant::Extra => {
            let h = "Extra Stages"@;
            assert(h.subrange(h.len() - 2, h.len() as int) != "]]"@) by {
                assert(h.subrange(h.len() - 2, h.len() as int)[1] == h[h.len() - 1]);
            }
            assert(h.subrange(h.len() - 12, h.len() as int) =~= "Extra Stages"@);
        },
        _ => {},
    }
}

/// Law: variants with a section named after them never share a section,
/// whatever their maps.
pub proof fn law_named_sections_distinct(v: StageVariant, w: StageVariant, m: u32, n: u32)
    requires
        has_named_section(v),
        has_named_section(w),
        v != w,
    ensures
        section_of(v, m) != section_of(w, n),
{
}

/// Law: the legend stages come in the order of their variants: Stories of
/// Legend, then Uncanny Legends, then Zero Legends, each in a section of
/// its own.
pub proof fn law_legend_section_order(m: u32, n: u32, k: u32)
    ensures
        section_of(StageVariant::SoL, m).spec_index() < section_of(StageVariant::UL, n).spec_index(),
        section_of(StageVariant::UL, n).spec_index() < section_of(StageVariant::ZL, k).spec_index(),
{
}

/// Law: the main chapters are listed by game, three chapters to a game: the
/// chapters of a game share a section, the games Empire of Cats, Into the
/// Future and Cats of the Cosmos come in that order in sections of their
/// own, and the Filibuster stage goes with Cats of the Cosmos.
pub proof fn law_main_sections(m: u32, n: u32)
    requires
        m <= 8,
        n <= 8,
    ensures
        (m / 3 == n / 3) <==> section_of(StageVariant::MainChapters, m) == section_of(StageVariant::MainChapters, n),
        m / 3 < n / 3 ==> section_of(StageVariant::MainChapters, m).spec_index() < section_of(
            StageVariant::MainChapters,
            n,
        ).spec_index(),
        section_of(StageVariant::Filibuster, m) == section_of(StageVariant::MainChapters, 6),
{
}

/// Law: the outbreaks of each game are listed under the game's own heading
/// followed by the outbreaks link, right after that game's section.
pub proof fn law_outbreak_sections(m: u32)
    ensures
        section_of(StageVariant::EocOutbreak, m).spec_section_heading()@ == section_of(
            StageVariant::MainChapters,
            0,
        ).spec_section_heading()@ + " [[Zombie Outbreaks|Outbreaks]]"@,
        section_of(StageVariant::ItfOutbreak, m).spec_section_heading()@ == section_of(
            StageVariant::MainChapters,
            3,
        ).spec_section_heading()@ + " [[Zombie Outbreaks|Outbreaks]]"@,
        section_of(StageVariant::CotcOutbreak, m).spec_section_heading()@ == section_of(
            StageVariant::MainChapters,
            6,
        ).spec_section_heading()@ + " [[Zombie Outbreaks|Outbreaks]]"@,
        section_of(StageVariant::EocOutbreak, m).spec_index() == section_of(StageVariant::MainChapters, 0).spec_index()
            + 1,
        section_of(StageVariant::ItfOutbreak, m).spec_index() == section_of(StageVariant::MainChapters, 3).spec_index()
            + 1,
        section_of(StageVariant::CotcOutbreak, m).spec_index() == section_of(StageVariant::MainChapters, 6).spec_index()
            + 1,
{
    reveal_strlit("[[Empire of Cats]]");
    reveal_strlit("[[Into the Future]]");
    reveal_strlit("[[Cats of the Cosmos]]");
    reveal_strlit("[[Empire of Cats]] [[Zombie Outbreaks|Outbreaks]]");
    reveal_strlit("[[Into the Future]] [[Zombie Outbreaks|Outbreaks]]");
    reveal_strlit("[[Cats of the Cosmos]] [[Zombie Outbreaks|Outbreaks]]");
    reveal_strlit(" [[Zombie Outbreaks|Outbreaks]]");
    assert("[[Empire of Cats]] [[Zombie Outbreaks|Outbreaks]]"@ =~= "[[Empire of Cats]]"@
        + " [[Zombie Outbreaks|Outbreaks]]"@);
    assert("[[Into the Future]] [[Zombie Outbreaks|Outbreaks]]"@ =~= "[[Into the Future]]"@
        + " [[Zombie Outbreaks|Outbreaks]]"@);
    assert("[[Cats of the Cosmos]] [[Zombie Outbreaks|Outbreaks]]"@ =~= "[[Cats of the Cosmos]]"@
        + " [[Zombie Outbreaks|Outbreaks]]"@);
}

} // verus!
