//! Deals with sections of encounters.

use super::chapter::{stages_view, Chapter};
use crate::meta::stage::stage_id::StageID;
use crate::meta::stage::variant::{StageVariant, StageVariantID};
use crate::text::{append_chars, byte_split_end, chars_of, decimal, push_chars, push_decimal, push_str, split_bytes_end};
use vstd::prelude::*;

verus! {

/// Type.
type T = StageVariantID;

/// How you display the section.
#[derive(Debug, Clone, Copy, PartialEq, Eq, Structural)]
pub enum DisplayType {
    /// E.g. SoL: `*Stage x: name (mags)`.
    Story,
    /// Standard `*map: stage` or `*map:\n**stage 1`.
    Normal,
    /// `*{stage} {mags}`
    Flat,
    /// Main chapters; require extra logic.
    Custom,
    /// Format like Normal but give a warning to the user.
    Warn,
    /// Don't parse this at all.
    Skip,
}

/// Type.
type D = DisplayType;

/// Section of unit encounters.
///
/// Methods on this object are purely for formatting. Processes such as
/// filtering, determining what `mags` should be, and finding the names of
/// stages is assumed to already be done before any methods are called.
#[derive(Debug, Clone, Copy, PartialEq, Eq)]
pub struct EncountersSection {
    heading: &'static str,
    display_type: DisplayType,
}

/// A stage as its variant, map number and stage number.
pub open spec fn id_parts(id: StageID) -> (StageVariantID, u32, u32) {
    (id.spec_map().spec_variant(), id.spec_map().spec_num(), id.spec_num())
}

/// `name` without its last five bytes (a chapter tag such as ` (N1)`).
pub open spec fn name_without_tag(name: Seq<char>) -> Seq<char> {
    let (pre, tag) = byte_split_end(name, 5)->0;
    pre
}

/// Variant number of a continue stage.
pub open spec fn continue_type(c: Option<(u32, u32)>) -> u32 {
    let (t, m) = c->0;
    t
}

/// Text of an encounter of a section with custom display (main chapters,
/// outbreaks, the Aku Realms and Filibuster).
pub open spec fn custom_text(v: StageVariantID, m: u32, st: u32, name: Seq<char>) -> Seq<char> {
    if v == StageVariant::MainChapters && m == 0 {
        if st <= 46 {
            "Stage "@ + decimal((st + 1) as nat) + ": "@ + name
        } else {
            let (pre, chap) = byte_split_end(name, 2)->0;
            "Stage"@ + chap + "-48: "@ + pre
        }
    } else if v == StageVariant::MainChapters {
        "Stage "@ + decimal((m % 3 + 1) as nat) + seq!['-'] + decimal((st + 1) as nat) + ": "@ + name_without_tag(name)
    } else if v == StageVariant::Filibuster {
        "Stage 3-IN: "@ + name
    } else if v == StageVariant::AkuRealms {
        "Stage "@ + (if st == 999 { "30-IN"@ } else { decimal((st + 1) as nat) }) + ": "@ + name
    } else {
        "Stage "@ + decimal((m + 1) as nat) + seq!['-'] + decimal((st + 1) as nat) + ": "@ + name_without_tag(name)
    }
}

/// An encounter with custom display that can be written: EoC moon stages
/// end in a two-byte chapter, other main chapter and outbreak names end in
/// a five-byte chapter tag, and any other variant is an outbreak.
pub open spec fn custom_ok(v: StageVariantID, m: u32, st: u32, name: Seq<char>) -> bool {
    if v == StageVariant::MainChapters && m == 0 {
        st <= 46 || byte_split_end(name, 2) is Some
    } else if v == StageVariant::MainChapters {
        byte_split_end(name, 5) is Some && st < u32::MAX
    } else if v == StageVariant::Filibuster {
        true
    } else if v == StageVariant::AkuRealms {
        st != 999 ==> st < u32::MAX
    } else {
        v.spec_is_outbreak() && byte_split_end(name, 5) is Some && m < u32::MAX && st < u32::MAX
    }
}

/// Text of an encounter (without its leading asterisks): the stage, then
/// the magnifications after a space where there are any.
pub open spec fn encounter_text(dt: DisplayType, v: StageVariantID, m: u32, st: u32, name: Seq<char>, mags: Seq<char>) -> Seq<char> {
    let body = match dt {
        DisplayType::Story => "Stage "@ + decimal((m + 1) as nat) + seq!['-'] + (if st == 999 { "IN"@ } else { decimal((st + 1) as nat) }) + ": "@ + name,
        DisplayType::Custom => custom_text(v, m, st, name),
        _ => name,
    };
    if mags.len() == 0 {
        body
    } else {
        body + seq![' '] + mags
    }
}

/// An encounter that can be written in a section of display type `dt`.
pub open spec fn encounter_ok(dt: DisplayType, v: StageVariantID, m: u32, st: u32, name: Seq<char>) -> bool {
    &&& dt != DisplayType::Skip
    &&& dt == DisplayType::Story ==> m < u32::MAX && (st != 999 ==> st < u32::MAX)
    &&& dt == DisplayType::Custom ==> custom_ok(v, m, st, name)
}

/// Append the text of an encounter.
fn push_encounter(out: &mut Vec<char>, dt: DisplayType, id: &StageID, name: &str, mags: &str)
    requires
        encounter_ok(dt, id_parts(*id).0, id_parts(*id).1, id_parts(*id).2, name@),
    ensures
        final(out)@ == old(out)@ + encounter_text(dt, id_parts(*id).0, id_parts(*id).1, id_parts(*id).2, name@, mags@),
{
    let v = id.variant();
    let m = id.map().num();
    let st = id.num();
    let ghost start = out@;
    match dt {
        D::Story => {
            push_str(out, "Stage ");
            push_decimal(out, (m + 1) as u64);
            out.push('-');
            if st == 999 {
                push_str(out, "IN");
            } else {
                push_decimal(out, (st + 1) as u64);
            }
            push_str(out, ": ");
            push_str(out, name);
        },
        D::Custom => {
            push_custom(out, id, name);
        },
        _ => {
            push_str(out, name);
        },
    }
    let ghost mid = out@;
    let mc = chars_of(mags);
    if mc.len() > 0 {
        out.push(' ');
        push_chars(out, &mc);
    }
    assert(out@ =~= start + encounter_text(dt, v, m, st, name@, mags@));
}

/// Append the text of an encounter of a custom section.
fn push_custom(out: &mut Vec<char>, id: &StageID, name: &str)
    requires
        custom_ok(id_parts(*id).0, id_parts(*id).1, id_parts(*id).2, name@),
    ensures
        final(out)@ == old(out)@ + custom_text(id_parts(*id).0, id_parts(*id).1, id_parts(*id).2, name@),
{
    let v = id.variant();
    let m = id.map().num();
    let st = id.num();
    let ghost start = out@;
    let nc = chars_of(name);
    if v == T::MainChapters && m == 0 {
        if st <= 46 {
            push_str(out, "Stage ");
            push_decimal(out, (st + 1) as u64);
            push_str(out, ": ");
            push_chars(out, &nc);
        } else {
            let (pre, chap) = split_bytes_end(&nc, 2).unwrap();
            push_str(out, "Stage");
            push_chars(out, &chap);
            push_str(out, "-48: ");
            push_chars(out, &pre);
        }
    } else if v == T::MainChapters {
        let (pre, _tag) = split_bytes_end(&nc, 5).unwrap();
        push_str(out, "Stage ");
        push_decimal(out, (m % 3 + 1) as u64);
        out.push('-');
        push_decimal(out, (st + 1) as u64);
        push_str(out, ": ");
        push_chars(out, &pre);
    } else if v == T::Filibuster {
        push_str(out, "Stage 3-IN: ");
        push_chars(out, &nc);
    } else if v == T::AkuRealms {
        push_str(out, "Stage ");
        if st == 999 {
            push_str(out, "30-IN");
        } else {
            push_decimal(out, (st + 1) as u64);
        }
        push_str(out, ": ");
        push_chars(out, &nc);
    } else {
        let (pre, _tag) = split_bytes_end(&nc, 5).unwrap();
        push_str(out, "Stage ");
        push_decimal(out, (m + 1) as u64);
        out.push('-');
        push_decimal(out, (st + 1) as u64);
        push_str(out, ": ");
        push_chars(out, &pre);
    }
    assert(out@ =~= start + custom_text(v, m, st, name@));
}

/// An Extra stage is shown as the stage it continues: the continue stages
/// give its variant number and map, and its stage number is 999.
pub open spec fn resolved_parts(id: StageID, conts: Seq<Option<(u32, u32)>>) -> (StageVariantID, u32, u32) {
    if id_parts(id).0 == StageVariant::Extra {
        let (t, m) = conts[id_parts(id).1 as int]->0;
        (StageVariant::spec_from_num(t)->0, m, 999)
    } else {
        id_parts(id)
    }
}

/// Can the stage be resolved (its continue stage is known, for an Extra
/// stage) and written?
pub open spec fn resolved_ok(dt: DisplayType, s: (Seq<char>, Seq<char>, StageID), conts: Seq<Option<(u32, u32)>>) -> bool {
    &&& id_parts(s.2).0 == StageVariant::Extra ==> {
        &&& id_parts(s.2).1 < conts.len()
        &&& conts[id_parts(s.2).1 as int] is Some
        &&& StageVariant::spec_from_num(continue_type(conts[id_parts(s.2).1 as int])) is Some
    }
    &&& encounter_ok(dt, resolved_parts(s.2, conts).0, resolved_parts(s.2, conts).1, resolved_parts(s.2, conts).2, s.0)
}

/// Lines `\n**{encounter}` of the stages.
pub open spec fn normal_lines(dt: DisplayType, stages: Seq<(Seq<char>, Seq<char>, StageID)>) -> Seq<char>
    decreases stages.len(),
{
    if stages.len() == 0 {
        Seq::<char>::empty()
    } else {
        let s = stages.last();
        normal_lines(dt, stages.drop_last()) + "\n**"@ + encounter_text(dt, id_parts(s.2).0, id_parts(s.2).1, id_parts(s.2).2, s.0, s.1)
    }
}

/// Lines `*{encounter}\n` of the stages, continue stages resolved.
pub open spec fn flat_lines(dt: DisplayType, stages: Seq<(Seq<char>, Seq<char>, StageID)>, conts: Seq<Option<(u32, u32)>>) -> Seq<char>
    decreases stages.len(),
{
    if stages.len() == 0 {
        Seq::<char>::empty()
    } else {
        let s = stages.last();
        let p = resolved_parts(s.2, conts);
        flat_lines(dt, stages.drop_last(), conts) + seq!['*'] + encounter_text(dt, p.0, p.1, p.2, s.0, s.1) + seq!['\n']
    }
}

/// Text of a chapter: normal sections give the chapter name and then its
/// stage (one stage) or a sub-list of its stages; the others list the stages
/// themselves, one per line.
pub open spec fn chapter_text(dt: DisplayType, name: Seq<char>, stages: Seq<(Seq<char>, Seq<char>, StageID)>, conts: Seq<Option<(u32, u32)>>) -> Seq<char> {
    if dt == DisplayType::Normal || dt == DisplayType::Warn {
        if stages.len() == 1 {
            let s = stages[0];
            "*"@ + name + ": "@ + encounter_text(dt, id_parts(s.2).0, id_parts(s.2).1, id_parts(s.2).2, s.0, s.1)
        } else {
            "*"@ + name + ":"@ + normal_lines(dt, stages)
        }
    } else {
        flat_lines(dt, stages, conts).drop_last()
    }
}

/// A chapter that can be written: it has stages and each can be written
/// (Extra stages after being resolved, in the sections that list stages).
pub open spec fn chapter_ok(dt: DisplayType, stages: Seq<(Seq<char>, Seq<char>, StageID)>, conts: Seq<Option<(u32, u32)>>) -> bool {
    &&& stages.len() >= 1
    &&& dt != DisplayType::Skip
    &&& forall|i: int| 0 <= i < stages.len() ==> if dt == DisplayType::Normal || dt == DisplayType::Warn {
        encounter_ok(dt, id_parts((#[trigger] stages[i]).2).0, id_parts(stages[i].2).1, id_parts(stages[i].2).2, stages[i].0)
    } else {
        resolved_ok(dt, stages[i], conts)
    }
}

impl EncountersSection {
    /// The section's heading.
    pub closed spec fn spec_heading(&self) -> &'static str {
        self.heading
    }

    /// The section's display type.
    pub closed spec fn spec_display_type(&self) -> DisplayType {
        self.display_type
    }

    /// Get display type.
    pub fn display_type(&self) -> (d: &DisplayType)
        ensures
            *d == self.spec_display_type(),
    {
        &self.display_type
    }

    /// Get heading.
    pub fn heading(&self) -> (h: &'static str)
        ensures
            h == self.spec_heading(),
    {
        self.heading
    }

    /// Write the non-asterisked part of an encounter.
    pub fn fmt_encounter(&self, buf: &mut String, id: &StageID, stage_name: &str, mags: &str)
        requires
            encounter_ok(self.spec_display_type(), id_parts(*id).0, id_parts(*id).1, id_parts(*id).2, stage_name@),
        ensures
            final(buf)@ == old(buf)@ + encounter_text(self.spec_display_type(), id_parts(*id).0, id_parts(*id).1, id_parts(*id).2, stage_name@, mags@),
    {
        let mut out: Vec<char> = Vec::new();
        push_encounter(&mut out, self.display_type, id, stage_name, mags);
        append_chars(buf, &out);
    }

    /// Write a chapter of encounters; `continue_stages` gives, for each Extra
    /// map, the variant number and map of the stage it continues.
    pub fn fmt_chapter(&self, buf: &mut String, chapter: Chapter, continue_stages: &Vec<Option<(u32, u32)>>)
        requires
            chapter_ok(self.spec_display_type(), stages_view(chapter.stages@), continue_stages@),
        ensures
            final(buf)@ == old(buf)@ + chapter_text(self.spec_display_type(), chapter.chapter_name@, stages_view(chapter.stages@), continue_stages@),
    {
        let ghost sv = stages_view(chapter.stages@);
        let dt = self.display_type;
        let stages = &chapter.stages;
        let mut out: Vec<char> = Vec::new();
        if dt == D::Normal || dt == D::Warn {
            push_str(&mut out, "*");
            push_str(&mut out, chapter.chapter_name.as_str());
            if stages.len() == 1 {
                push_str(&mut out, ": ");
                let s = &stages[0];
                assert(sv[0] == s@);
                push_encounter(&mut out, dt, &s.id, s.stage_name, s.mags.as_str());
            } else {
                push_str(&mut out, ":");
                let ghost head = out@;
                let mut i: usize = 0;
                assert(sv.subrange(0, 0) =~= Seq::<(Seq<char>, Seq<char>, StageID)>::empty());
                while i < stages.len()
                    invariant
                        0 <= i <= stages.len(),
                        sv == stages_view(stages@),
                        dt == D::Normal || dt == D::Warn,
                        chapter_ok(dt, sv, continue_stages@),
                        out@ == head + normal_lines(dt, sv.subrange(0, i as int)),
                    decreases stages.len() - i,
                {
                    let s = &stages[i];
                    assert(sv[i as int] == s@);
                    assert(sv.subrange(0, i + 1).drop_last() =~= sv.subrange(0, i as int));
                    push_str(&mut out, "\n**");
                    push_encounter(&mut out, dt, &s.id, s.stage_name, s.mags.as_str());
                    i = i + 1;
                }
                assert(sv.subrange(0, stages.len() as int) =~= sv);
            }
        } else {
            let mut i: usize = 0;
            assert(sv.subrange(0, 0) =~= Seq::<(Seq<char>, Seq<char>, StageID)>::empty());
            while i < stages.len()
                invariant
                    0 <= i <= stages.len(),
                    sv == stages_view(stages@),
                    !(dt == D::Normal || dt == D::Warn),
                    chapter_ok(dt, sv, continue_stages@),
                    out@ == flat_lines(dt, sv.subrange(0, i as int), continue_stages@),
                decreases stages.len() - i,
            {
                let s = &stages[i];
                assert(sv[i as int] == s@);
                assert(sv.subrange(0, i + 1).drop_last() =~= sv.subrange(0, i as int));
                out.push('*');
                let id = if s.id.variant() == T::Extra {
                    let ids = continue_stages[s.id.map().num() as usize].unwrap();
                    StageID::from_numbers(ids.0, ids.1, 999)
                } else {
                    s.id
                };
                push_encounter(&mut out, dt, &id, s.stage_name, s.mags.as_str());
                out.push('\n');
                i = i + 1;
            }
            assert(sv.subrange(0, stages.len() as int) =~= sv);
            out.pop();
        }
        append_chars(buf, &out);
    }
}

/// Enum reference to a section.
#[allow(missing_docs)]
#[derive(Debug, Clone, Copy, PartialEq, Eq, Structural)]
pub enum SectionRef {
    EoC,
    EocOutbreak,
    ItF,
    ItfOutbreak,
    CotC,
    CotcOutbreak,
    AkuRealms,
    SoL,
    UL,
    ZL,
    Event,
    Labyrinth,
    Collab,
    Enigma,
    Dojo,
    Removed,
    Extra,
    Catamin,
}

impl SectionRef {
    /// Index of the section in the ordered list of sections.
    pub open spec fn spec_index(&self) -> u8 {
        match *self {
            SectionRef::EoC => 0,
            SectionRef::EocOutbreak => 1,
            SectionRef::ItF => 2,
            SectionRef::ItfOutbreak => 3,
            SectionRef::CotC => 4,
            SectionRef::CotcOutbreak => 5,
            SectionRef::AkuRealms => 6,
            SectionRef::SoL => 7,
            SectionRef::UL => 8,
            SectionRef::ZL => 9,
            SectionRef::Event => 10,
            SectionRef::Labyrinth => 11,
            SectionRef::Collab => 12,
            SectionRef::Enigma => 13,
            SectionRef::Dojo => 14,
            SectionRef::Removed => 15,
            SectionRef::Extra => 16,
            SectionRef::Catamin => 17,
        }
    }

    /// Heading of the section.
    pub open spec fn spec_section_heading(&self) -> &'static str {
        match *self {
            SectionRef::EoC => "[[Empire of Cats]]",
            SectionRef::EocOutbreak => "[[Empire of Cats]] [[Zombie Outbreaks|Outbreaks]]",
            SectionRef::ItF => "[[Into the Future]]",
            SectionRef::ItfOutbreak => "[[Into the Future]] [[Zombie Outbreaks|Outbreaks]]",
            SectionRef::CotC => "[[Cats of the Cosmos]]",
            SectionRef::CotcOutbreak => "[[Cats of the Cosmos]] [[Zombie Outbreaks|Outbreaks]]",
            SectionRef::AkuRealms => "[[The Aku Realms]]",
            SectionRef::SoL => "[[Legend Stages#Stories of Legend|Stories of Legend]]",
            SectionRef::UL => "[[Legend Stages#Uncanny Legends|Uncanny Legends]]",
            SectionRef::ZL => "[[Legend Stages#Zero Legends|Zero Legends]]",
            SectionRef::Event => "[[Special Events|Event Stages]]",
            SectionRef::Labyrinth => "[[Underground Labyrinth]]",
            SectionRef::Collab => "[[Collaboration Events|Collaboration Stages]]",
            SectionRef::Enigma => "[[Enigma Stages]]",
            SectionRef::Dojo => "[[Catclaw Dojo]]",
            SectionRef::Removed => "[[:Category:Removed Content|Removed Stages]]",
            SectionRef::Extra => "Extra Stages",
            SectionRef::Catamin => "[[Catamin Stages]]",
        }
    }

    /// Display type of the section.
    pub open spec fn spec_section_display(&self) -> DisplayType {
        match *self {
            SectionRef::EoC => DisplayType::Custom,
            SectionRef::EocOutbreak => DisplayType::Custom,
            SectionRef::ItF => DisplayType::Custom,
            SectionRef::ItfOutbreak => DisplayType::Custom,
            SectionRef::CotC => DisplayType::Custom,
            SectionRef::CotcOutbreak => DisplayType::Custom,
            SectionRef::AkuRealms => DisplayType::Custom,
            SectionRef::SoL => DisplayType::Story,
            SectionRef::UL => DisplayType::Story,
            SectionRef::ZL => DisplayType::Story,
            SectionRef::Event => DisplayType::Normal,
            SectionRef::Labyrinth => DisplayType::Flat,
            SectionRef::Collab => DisplayType::Normal,
            SectionRef::Enigma => DisplayType::Normal,
            SectionRef::Dojo => DisplayType::Normal,
            SectionRef::Removed => DisplayType::Normal,
            SectionRef::Extra => DisplayType::Warn,
            SectionRef::Catamin => DisplayType::Skip,
        }
    }

    /// Get the index of the section in the ordered list of sections. Can be
    /// used as an ordering function.
    #[verifier::when_used_as_spec(spec_index)]
    pub fn index(&self) -> (i: u8)
        ensures
            i == self.spec_index(),
    {
        match *self {
            SectionRef::EoC => 0,
            SectionRef::EocOutbreak => 1,
            SectionRef::ItF => 2,
            SectionRef::ItfOutbreak => 3,
            SectionRef::CotC => 4,
            SectionRef::CotcOutbreak => 5,
            SectionRef::AkuRealms => 6,
            SectionRef::SoL => 7,
            SectionRef::UL => 8,
            SectionRef::ZL => 9,
            SectionRef::Event => 10,
            SectionRef::Labyrinth => 11,
            SectionRef::Collab => 12,
            SectionRef::Enigma => 13,
            SectionRef::Dojo => 14,
            SectionRef::Removed => 15,
            SectionRef::Extra => 16,
            SectionRef::Catamin => 17,
        }
    }

    /// Get the defined section.
    pub fn section(&self) -> (sec: EncountersSection)
        ensures
            sec.spec_heading() == self.spec_section_heading(),
            sec.spec_display_type() == self.spec_section_display(),
    {
        match *self {
            SectionRef::EoC => EncountersSection { heading: "[[Empire of Cats]]", display_type: DisplayType::Custom },
            SectionRef::EocOutbreak => EncountersSection { heading: "[[Empire of Cats]] [[Zombie Outbreaks|Outbreaks]]", display_type: DisplayType::Custom },
            SectionRef::ItF => EncountersSection { heading: "[[Into the Future]]", display_type: DisplayType::Custom },
            SectionRef::ItfOutbreak => EncountersSection { heading: "[[Into the Future]] [[Zombie Outbreaks|Outbreaks]]", display_type: DisplayType::Custom },
            SectionRef::CotC => EncountersSection { heading: "[[Cats of the Cosmos]]", display_type: DisplayType::Custom },
            SectionRef::CotcOutbreak => EncountersSection { heading: "[[Cats of the Cosmos]] [[Zombie Outbreaks|Outbreaks]]", display_type: DisplayType::Custom },
            SectionRef::AkuRealms => EncountersSection { heading: "[[The Aku Realms]]", display_type: DisplayType::Custom },
            SectionRef::SoL => EncountersSection { heading: "[[Legend Stages#Stories of Legend|Stories of Legend]]", display_type: DisplayType::Story },
            SectionRef::UL => EncountersSection { heading: "[[Legend Stages#Uncanny Legends|Uncanny Legends]]", display_type: DisplayType::Story },
            SectionRef::ZL => EncountersSection { heading: "[[Legend Stages#Zero Legends|Zero Legends]]", display_type: DisplayType::Story },
            SectionRef::Event => EncountersSection { heading: "[[Special Events|Event Stages]]", display_type: DisplayType::Normal },
            SectionRef::Labyrinth => EncountersSection { heading: "[[Underground Labyrinth]]", display_type: DisplayType::Flat },
            SectionRef::Collab => EncountersSection { heading: "[[Collaboration Events|Collaboration Stages]]", display_type: DisplayType::Normal },
            SectionRef::Enigma => EncountersSection { heading: "[[Enigma Stages]]", display_type: DisplayType::Normal },
            SectionRef::Dojo => EncountersSection { heading: "[[Catclaw Dojo]]", display_type: DisplayType::Normal },
            SectionRef::Removed => EncountersSection { heading: "[[:Category:Removed Content|Removed Stages]]", display_type: DisplayType::Normal },
            SectionRef::Extra => EncountersSection { heading: "Extra Stages", display_type: DisplayType::Warn },
            SectionRef::Catamin => EncountersSection { heading: "[[Catamin Stages]]", display_type: DisplayType::Skip },
        }
    }
}

} // verus!
