//! Contains data about all different stage types.

use super::types::{StageCodeType, StageType};
use crate::meta::stage::variant::{StageVariant, StageVariantID};
use crate::text::{
    chars_of, decimal, digit_value, fold_char, fold_eq, is_digit, lemma_decimal_digits,
    lemma_decimal_injective, lemma_digit_char, lemma_fold_eq_digits, lemma_fold_eq_forall,
    push_decimal, string_from,
};
use vstd::prelude::*;

verus! {

/// Type.
type T = StageVariantID;

/// Character that separates the parts of a selector.
pub const SELECTOR_SEPARATOR: char = ' ';

/// Max numeric value of any variant.
pub const MAX_VARIANT_NUMBER: u32 = 37;

/// [`MAX_VARIANT_NUMBER`], usable as an array index.
pub const MAX_VARIANT_INDEX: usize = 38;

/// The stage type of each variant.
pub open spec fn spec_stage_type(v: StageVariantID) -> StageType {
    match v {
        T::SoL => StageType { variant_id: T::SoL, name: "Stories of Legend", map_code: Some("N"), stage_code: StageCodeType::RPrefix, matcher_str: "SoL" },
        T::Event => StageType { variant_id: T::Event, name: "Event Stages", map_code: Some("S"), stage_code: StageCodeType::RPrefix, matcher_str: "Event|Special" },
        T::Collab => StageType { variant_id: T::Collab, name: "Collaboration Stages", map_code: Some("C"), stage_code: StageCodeType::RPrefix, matcher_str: "Collab" },
        T::MainChapters => StageType { variant_id: T::MainChapters, name: "Main Chapters", map_code: None, stage_code: StageCodeType::Custom, matcher_str: "main|EoC|ItF|W|CotC|Space" },
        T::Extra => StageType { variant_id: T::Extra, name: "Extra Stages", map_code: Some("RE"), stage_code: StageCodeType::Other("EX"), matcher_str: "Extra" },
        T::Dojo => StageType { variant_id: T::Dojo, name: "Catclaw Dojo", map_code: Some("T"), stage_code: StageCodeType::RPrefix, matcher_str: "Dojo" },
        T::Tower => StageType { variant_id: T::Tower, name: "Towers", map_code: Some("V"), stage_code: StageCodeType::RPrefix, matcher_str: "Tower" },
        T::RankingDojo => StageType { variant_id: T::RankingDojo, name: "Ranking Dojo", map_code: Some("R"), stage_code: StageCodeType::RPrefix, matcher_str: "Rank" },
        T::Challenge => StageType { variant_id: T::Challenge, name: "Challenge Battle", map_code: Some("M"), stage_code: StageCodeType::RPrefix, matcher_str: "Challenge" },
        T::UL => StageType { variant_id: T::UL, name: "Uncanny Legends", map_code: Some("NA"), stage_code: StageCodeType::RPrefix, matcher_str: "UL" },
        T::Catamin => StageType { variant_id: T::Catamin, name: "Catamin Stages", map_code: Some("B"), stage_code: StageCodeType::RPrefix, matcher_str: "Catamin" },
        T::EocOutbreak => StageType { variant_id: T::EocOutbreak, name: "Empire of Cats Outbreaks", map_code: None, stage_code: StageCodeType::Custom, matcher_str: "eocZ" },
        T::ItfOutbreak => StageType { variant_id: T::ItfOutbreak, name: "Into the Future Outbreaks", map_code: None, stage_code: StageCodeType::Custom, matcher_str: "itfZ" },
        T::CotcOutbreak => StageType { variant_id: T::CotcOutbreak, name: "Cats of the Cosmos Outbreaks", map_code: None, stage_code: StageCodeType::Custom, matcher_str: "cotcZ" },
        T::Filibuster => StageType { variant_id: T::Filibuster, name: "Filibuster Invasion", map_code: None, stage_code: StageCodeType::Custom, matcher_str: "Filibuster" },
        T::Gauntlet => StageType { variant_id: T::Gauntlet, name: "Gauntlets", map_code: Some("A"), stage_code: StageCodeType::RPrefix, matcher_str: "Gauntlet|Baron" },
        T::Enigma => StageType { variant_id: T::Enigma, name: "Enigma Stages", map_code: Some("H"), stage_code: StageCodeType::RPrefix, matcher_str: "Enigma" },
        T::CollabGauntlet => StageType { variant_id: T::CollabGauntlet, name: "Collab Gauntlets", map_code: Some("CA"), stage_code: StageCodeType::RPrefix, matcher_str: "" },
        T::AkuRealms => StageType { variant_id: T::AkuRealms, name: "Aku Realms", map_code: Some("DM"), stage_code: StageCodeType::SameAsMap, matcher_str: "Aku" },
        T::Behemoth => StageType { variant_id: T::Behemoth, name: "Behemoth Culling", map_code: Some("Q"), stage_code: StageCodeType::RPrefix, matcher_str: "Behemoth" },
        T::Labyrinth => StageType { variant_id: T::Labyrinth, name: "Labyrinth", map_code: Some("L"), stage_code: StageCodeType::SameAsMap, matcher_str: "Labyrinth" },
        T::ZL => StageType { variant_id: T::ZL, name: "Zero Legends", map_code: Some("ND"), stage_code: StageCodeType::RPrefix, matcher_str: "ZL" },
        T::Colosseum => StageType { variant_id: T::Colosseum, name: "Colosseum", map_code: Some("SR"), stage_code: StageCodeType::RPrefix, matcher_str: "Colosseum" },
        T::Championships => StageType { variant_id: T::Championships, name: "Catclaw Championships", map_code: Some("G"), stage_code: StageCodeType::SameAsMap, matcher_str: "Championships" },
    }
}

/// Get variant's stage type.
pub fn get_stage_type(variant: StageVariantID) -> (st: StageType)
    ensures
        st == spec_stage_type(variant),
{
    match variant {
        T::SoL => StageType::new(T::SoL, "Stories of Legend", Some("N"), StageCodeType::RPrefix, "SoL"),
        T::Event => StageType::new(T::Event, "Event Stages", Some("S"), StageCodeType::RPrefix, "Event|Special"),
        T::Collab => StageType::new(T::Collab, "Collaboration Stages", Some("C"), StageCodeType::RPrefix, "Collab"),
        T::MainChapters => StageType::new(T::MainChapters, "Main Chapters", None, StageCodeType::Custom, "main|EoC|ItF|W|CotC|Space"),
        T::Extra => StageType::new(T::Extra, "Extra Stages", Some("RE"), StageCodeType::Other("EX"), "Extra"),
        T::Dojo => StageType::new(T::Dojo, "Catclaw Dojo", Some("T"), StageCodeType::RPrefix, "Dojo"),
        T::Tower => StageType::new(T::Tower, "Towers", Some("V"), StageCodeType::RPrefix, "Tower"),
        T::RankingDojo => StageType::new(T::RankingDojo, "Ranking Dojo", Some("R"), StageCodeType::RPrefix, "Rank"),
        T::Challenge => StageType::new(T::Challenge, "Challenge Battle", Some("M"), StageCodeType::RPrefix, "Challenge"),
        T::UL => StageType::new(T::UL, "Uncanny Legends", Some("NA"), StageCodeType::RPrefix, "UL"),
        T::Catamin => StageType::new(T::Catamin, "Catamin Stages", Some("B"), StageCodeType::RPrefix, "Catamin"),
        T::EocOutbreak => StageType::new(T::EocOutbreak, "Empire of Cats Outbreaks", None, StageCodeType::Custom, "eocZ"),
        T::ItfOutbreak => StageType::new(T::ItfOutbreak, "Into the Future Outbreaks", None, StageCodeType::Custom, "itfZ"),
        T::CotcOutbreak => StageType::new(T::CotcOutbreak, "Cats of the Cosmos Outbreaks", None, StageCodeType::Custom, "cotcZ"),
        T::Filibuster => StageType::new(T::Filibuster, "Filibuster Invasion", None, StageCodeType::Custom, "Filibuster"),
        T::Gauntlet => StageType::new(T::Gauntlet, "Gauntlets", Some("A"), StageCodeType::RPrefix, "Gauntlet|Baron"),
        T::Enigma => StageType::new(T::Enigma, "Enigma Stages", Some("H"), StageCodeType::RPrefix, "Enigma"),
        T::CollabGauntlet => StageType::new(T::CollabGauntlet, "Collab Gauntlets", Some("CA"), StageCodeType::RPrefix, ""),
        T::AkuRealms => StageType::new(T::AkuRealms, "Aku Realms", Some("DM"), StageCodeType::SameAsMap, "Aku"),
        T::Behemoth => StageType::new(T::Behemoth, "Behemoth Culling", Some("Q"), StageCodeType::RPrefix, "Behemoth"),
        T::Labyrinth => StageType::new(T::Labyrinth, "Labyrinth", Some("L"), StageCodeType::SameAsMap, "Labyrinth"),
        T::ZL => StageType::new(T::ZL, "Zero Legends", Some("ND"), StageCodeType::RPrefix, "ZL"),
        T::Colosseum => StageType::new(T::Colosseum, "Colosseum", Some("SR"), StageCodeType::RPrefix, "Colosseum"),
        T::Championships => StageType::new(T::Championships, "Catclaw Championships", Some("G"), StageCodeType::SameAsMap, "Championships"),
    }
}

/// All stage types, in the order of their variant numbers.
pub fn raw_stage_types() -> (sts: Vec<StageType>)
    ensures
        sts@.len() == 24,
        forall|i: int| 0 <= i < 24 ==> #[trigger] sts@[i] == spec_stage_type(raw_order()[i]),
{
    let vs = StageVariant::all();
    let mut sts: Vec<StageType> = Vec::new();
    let mut i: usize = 0;
    while i < vs.len()
        invariant
            0 <= i <= vs.len(),
            vs@ == raw_order(),
            sts@.len() == i,
            forall|k: int| 0 <= k < i ==> #[trigger] sts@[k] == spec_stage_type(raw_order()[k]),
        decreases vs.len() - i,
    {
        sts.push(get_stage_type(vs[i]));
        i = i + 1;
    }
    sts
}

/// Order in which the stage types are stored (ascending variant number).
pub open spec fn raw_order() -> Seq<StageVariantID> {
    StageVariant::spec_all()
}

/// Common names of each stage type (the pieces of its `matcher_str`).
pub open spec fn spec_common_names(v: StageVariantID) -> Seq<Seq<char>> {
    match v {
        T::SoL => seq![seq!['S', 'o', 'L']],
        T::Event => seq![seq!['E', 'v', 'e', 'n', 't'], seq!['S', 'p', 'e', 'c', 'i', 'a', 'l']],
        T::Collab => seq![seq!['C', 'o', 'l', 'l', 'a', 'b']],
        T::MainChapters => seq![seq!['m', 'a', 'i', 'n'], seq!['E', 'o', 'C'], seq!['I', 't', 'F'], seq!['W'], seq!['C', 'o', 't', 'C'], seq!['S', 'p', 'a', 'c', 'e']],
        T::Extra => seq![seq!['E', 'x', 't', 'r', 'a']],
        T::Dojo => seq![seq!['D', 'o', 'j', 'o']],
        T::Tower => seq![seq!['T', 'o', 'w', 'e', 'r']],
        T::RankingDojo => seq![seq!['R', 'a', 'n', 'k']],
        T::Challenge => seq![seq!['C', 'h', 'a', 'l', 'l', 'e', 'n', 'g', 'e']],
        T::UL => seq![seq!['U', 'L']],
        T::Catamin => seq![seq!['C', 'a', 't', 'a', 'm', 'i', 'n']],
        T::EocOutbreak => seq![seq!['e', 'o', 'c', 'Z']],
        T::ItfOutbreak => seq![seq!['i', 't', 'f', 'Z']],
        T::CotcOutbreak => seq![seq!['c', 'o', 't', 'c', 'Z']],
        T::Filibuster => seq![seq!['F', 'i', 'l', 'i', 'b', 'u', 's', 't', 'e', 'r']],
        T::Gauntlet => seq![seq!['G', 'a', 'u', 'n', 't', 'l', 'e', 't'], seq!['B', 'a', 'r', 'o', 'n']],
        T::Enigma => seq![seq!['E', 'n', 'i', 'g', 'm', 'a']],
        T::CollabGauntlet => Seq::<Seq<char>>::empty(),
        T::AkuRealms => seq![seq!['A', 'k', 'u']],
        T::Behemoth => seq![seq!['B', 'e', 'h', 'e', 'm', 'o', 't', 'h']],
        T::Labyrinth => seq![seq!['L', 'a', 'b', 'y', 'r', 'i', 'n', 't', 'h']],
        T::ZL => seq![seq!['Z', 'L']],
        T::Colosseum => seq![seq!['C', 'o', 'l', 'o', 's', 's', 'e', 'u', 'm']],
        T::Championships => seq![seq!['C', 'h', 'a', 'm', 'p', 'i', 'o', 'n', 's', 'h', 'i', 'p', 's']],
    }
}

/// Common names of a stage type.
pub fn common_names(v: StageVariantID) -> (ns: Vec<&'static str>)
    ensures
        ns@.len() == spec_common_names(v).len(),
        forall|i: int| 0 <= i < ns@.len() ==> (#[trigger] ns@[i])@ == spec_common_names(v)[i],
{
    proof {
        reveal_strlit("Aku");
        reveal_strlit("Baron");
        reveal_strlit("Behemoth");
        reveal_strlit("Catamin");
        reveal_strlit("Challenge");
        reveal_strlit("Championships");
        reveal_strlit("Collab");
        reveal_strlit("Colosseum");
        reveal_strlit("CotC");
        reveal_strlit("Dojo");
        reveal_strlit("Enigma");
        reveal_strlit("EoC");
        reveal_strlit("Event");
        reveal_strlit("Extra");
        reveal_strlit("Filibuster");
        reveal_strlit("Gauntlet");
        reveal_strlit("ItF");
        reveal_strlit("Labyrinth");
        reveal_strlit("Rank");
        reveal_strlit("SoL");
        reveal_strlit("Space");
        reveal_strlit("Special");
        reveal_strlit("Tower");
        reveal_strlit("UL");
        reveal_strlit("W");
        reveal_strlit("ZL");
        reveal_strlit("cotcZ");
        reveal_strlit("eocZ");
        reveal_strlit("itfZ");
        reveal_strlit("main");
    }
    match v {
        T::SoL => vec!["SoL"],
        T::Event => vec!["Event", "Special"],
        T::Collab => vec!["Collab"],
        T::MainChapters => vec!["main", "EoC", "ItF", "W", "CotC", "Space"],
        T::Extra => vec!["Extra"],
        T::Dojo => vec!["Dojo"],
        T::Tower => vec!["Tower"],
        T::RankingDojo => vec!["Rank"],
        T::Challenge => vec!["Challenge"],
        T::UL => vec!["UL"],
        T::Catamin => vec!["Catamin"],
        T::EocOutbreak => vec!["eocZ"],
        T::ItfOutbreak => vec!["itfZ"],
        T::CotcOutbreak => vec!["cotcZ"],
        T::Filibuster => vec!["Filibuster"],
        T::Gauntlet => vec!["Gauntlet", "Baron"],
        T::Enigma => vec!["Enigma"],
        T::CollabGauntlet => vec![],
        T::AkuRealms => vec!["Aku"],
        T::Behemoth => vec!["Behemoth"],
        T::Labyrinth => vec!["Labyrinth"],
        T::ZL => vec!["ZL"],
        T::Colosseum => vec!["Colosseum"],
        T::Championships => vec!["Championships"],
    }
}

/// Every alias of a stage type: its common names, its variant number, its map
/// code and its stage code.
pub open spec fn spec_aliases(st: StageType) -> Seq<Seq<char>> {
    let base = spec_common_names(st.variant_id).push(decimal(st.variant_id.spec_num() as nat));
    let with_map = match st.map_code {
        Some(code) => base.push(code@),
        None => base,
    };
    match st.stage_code {
        StageCodeType::RPrefix => with_map.push(seq!['R'] + st.map_code->0@),
        StageCodeType::Other(ex) => with_map.push(ex@),
        _ => with_map,
    }
}

/// Is `code` equal, ignoring case, to one of `names`?
pub open spec fn any_fold_eq(names: Seq<Seq<char>>, code: Seq<char>) -> bool
    decreases names.len(),
{
    if names.len() == 0 {
        false
    } else {
        fold_eq(names[0], code) || any_fold_eq(names.drop_first(), code)
    }
}

/// Does `code` match one of the aliases of `st`, ignoring case?
pub open spec fn spec_matches(st: StageType, code: Seq<char>) -> bool {
    any_fold_eq(spec_aliases(st), code)
}

/// First variant of `vs` whose stage type matches `code`.
pub open spec fn first_match(vs: Seq<StageVariantID>, code: Seq<char>) -> Option<StageVariantID>
    decreases vs.len(),
{
    if vs.len() == 0 {
        None
    } else if spec_matches(spec_stage_type(vs[0]), code) {
        Some(vs[0])
    } else {
        first_match(vs.drop_first(), code)
    }
}

/// Lemma: `any_fold_eq` holds exactly when some name matches.
pub proof fn lemma_any_fold_eq(names: Seq<Seq<char>>, code: Seq<char>)
    ensures
        any_fold_eq(names, code) <==> exists|j: int| 0 <= j < names.len() && fold_eq(#[trigger] names[j], code),
    decreases names.len(),
{
    if names.len() > 0 {
        lemma_any_fold_eq(names.drop_first(), code);
        if exists|j: int| 0 <= j < names.len() && fold_eq(#[trigger] names[j], code) {
            let j = choose|j: int| 0 <= j < names.len() && fold_eq(#[trigger] names[j], code);
            if j > 0 {
                assert(names.drop_first()[j - 1] == names[j]);
            }
        }
        if any_fold_eq(names.drop_first(), code) {
            let j = choose|j: int| 0 <= j < names.drop_first().len() && fold_eq(#[trigger] names.drop_first()[j], code);
            assert(names[j + 1] == names.drop_first()[j]);
        }
    }
}

/// List of the aliases of a [`StageType`], against which codes are matched.
pub struct DataMatcher {
    /// List of all possible aliases.
    pub arr: Vec<String>,
}

impl DataMatcher {
    /// The aliases as character sequences.
    pub open spec fn spec_arr(&self) -> Seq<Seq<char>> {
        Seq::new(self.arr@.len(), |i: int| self.arr@[i]@)
    }

    /// Does `code` equal one of the aliases, ignoring case?
    pub fn is_match(&self, code: &Vec<char>) -> (b: bool)
        ensures
            b == any_fold_eq(self.spec_arr(), code@),
    {
        proof {
            lemma_any_fold_eq(self.spec_arr(), code@);
        }
        let mut i: usize = 0;
        while i < self.arr.len()
            invariant
                0 <= i <= self.arr.len(),
                any_fold_eq(self.spec_arr(), code@) <==> exists|j: int| 0 <= j < self.spec_arr().len() && fold_eq(#[trigger] self.spec_arr()[j], code@),
                forall|j: int| 0 <= j < i ==> !fold_eq(#[trigger] self.spec_arr()[j], code@),
            decreases self.arr.len() - i,
        {
            let a = chars_of(self.arr[i].as_str());
            if fold_eq_chars(&a, code) {
                assert(self.spec_arr()[i as int] == a@);
                return true;
            }
            i = i + 1;
        }
        false
    }
}

/// Decide `fold_eq` on two character vectors.
pub fn fold_eq_chars(a: &Vec<char>, b: &Vec<char>) -> (r: bool)
    ensures
        r == fold_eq(a@, b@),
{
    if a.len() != b.len() {
        return false;
    }
    proof {
        lemma_fold_eq_forall(a@, b@);
    }
    let mut i: usize = 0;
    while i < a.len()
        invariant
            0 <= i <= a.len(),
            a.len() == b.len(),
            fold_eq(a@, b@) <==> (a@.len() == b@.len() && forall|k: int|
                0 <= k < a@.len() ==> fold_char(#[trigger] a@[k]) == fold_char(b@[k])),
            forall|k: int| 0 <= k < i ==> fold_char(#[trigger] a@[k]) == fold_char(b@[k]),
        decreases a.len() - i,
    {
        if fold_char_exec(a[i]) != fold_char_exec(b[i]) {
            return false;
        }
        i = i + 1;
    }
    true
}

/// Executable [`fold_char`].
pub fn fold_char_exec(c: char) -> (r: char)
    ensures
        r == fold_char(c),
{
    if c == '\u{17F}' {
        's'
    } else if 'A' <= c && c <= 'Z' {
        (((c as u32) + 32) as u8) as char
    } else if c == '\u{212A}' {
        'k'
    } else {
        c
    }
}

/// Get the [`StageType`]'s appropriate [`DataMatcher`].
pub fn get_data_matcher(stype: &StageType) -> (m: DataMatcher)
    requires
        stype.stage_code == StageCodeType::RPrefix ==> stype.map_code is Some,
    ensures
        m.spec_arr() == spec_aliases(*stype),
{
    let mut arr: Vec<String> = Vec::new();
    let names = common_names(stype.variant_id);
    let mut i: usize = 0;
    while i < names.len()
        invariant
            0 <= i <= names.len(),
            names@.len() == spec_common_names(stype.variant_id).len(),
            forall|k: int| 0 <= k < names@.len() ==> (#[trigger] names@[k])@ == spec_common_names(stype.variant_id)[k],
            arr@.len() == i,
            forall|k: int| 0 <= k < i ==> (#[trigger] arr@[k])@ == spec_common_names(stype.variant_id)[k],
        decreases names.len() - i,
    {
        arr.push(names[i].to_string());
        i = i + 1;
    }
    let mut num: Vec<char> = Vec::new();
    push_decimal(&mut num, stype.variant_id.num() as u64);
    arr.push(string_from(&num));
    if let Some(code) = stype.map_code {
        arr.push(code.to_string());
    }
    match stype.stage_code {
        StageCodeType::RPrefix => {
            let mut r: Vec<char> = Vec::new();
            r.push('R');
            crate::text::push_str(&mut r, stype.map_code.unwrap());
            arr.push(string_from(&r));
        }
        StageCodeType::Other(ex) => {
            arr.push(ex.to_string());
        }
        _ => {}
    }
    let m = DataMatcher { arr };
    proof {
        assert(m.spec_arr() =~= spec_aliases(*stype));
    }
    m
}

/// Lemma: every alias other than the variant number starts with a character
/// that is not a digit even after case folding.
pub proof fn lemma_aliases_shape(v: StageVariantID)
    ensures
        forall|j: int| 0 <= j < spec_aliases(spec_stage_type(v)).len()
            ==> (#[trigger] spec_aliases(spec_stage_type(v))[j]) == decimal(v.spec_num() as nat)
                || (spec_aliases(spec_stage_type(v))[j].len() > 0
                    && !is_digit(fold_char(spec_aliases(spec_stage_type(v))[j][0]))),
{
    reveal_strlit("A");
    reveal_strlit("Aku");
    reveal_strlit("B");
    reveal_strlit("Baron");
    reveal_strlit("Behemoth");
    reveal_strlit("C");
    reveal_strlit("CA");
    reveal_strlit("Catamin");
    reveal_strlit("Challenge");
    reveal_strlit("Championships");
    reveal_strlit("Collab");
    reveal_strlit("Colosseum");
    reveal_strlit("CotC");
    reveal_strlit("DM");
    reveal_strlit("Dojo");
    reveal_strlit("EX");
    reveal_strlit("Enigma");
    reveal_strlit("EoC");
    reveal_strlit("Event");
    reveal_strlit("Extra");
    reveal_strlit("Filibuster");
    reveal_strlit("G");
    reveal_strlit("Gauntlet");
    reveal_strlit("H");
    reveal_strlit("ItF");
    reveal_strlit("L");
    reveal_strlit("Labyrinth");
    reveal_strlit("M");
    reveal_strlit("N");
    reveal_strlit("NA");
    reveal_strlit("ND");
    reveal_strlit("Q");
    reveal_strlit("R");
    reveal_strlit("RE");
    reveal_strlit("Rank");
    reveal_strlit("S");
    reveal_strlit("SR");
    reveal_strlit("SoL");
    reveal_strlit("Space");
    reveal_strlit("Special");
    reveal_strlit("T");
    reveal_strlit("Tower");
    reveal_strlit("UL");
    reveal_strlit("V");
    reveal_strlit("W");
    reveal_strlit("ZL");
    reveal_strlit("cotcZ");
    reveal_strlit("eocZ");
    reveal_strlit("itfZ");
    reveal_strlit("main");
}

/// Law: no alias of a stage type holds the selector separator, so an
/// alias is always read as one piece of a selector.
pub proof fn law_aliases_no_separator(v: StageVariantID)
    ensures
        forall|j: int, k: int| 0 <= j < spec_aliases(spec_stage_type(v)).len()
            && 0 <= k < spec_aliases(spec_stage_type(v))[j].len()
            ==> #[trigger] spec_aliases(spec_stage_type(v))[j][k] != SELECTOR_SEPARATOR,
{
    reveal_strlit("A");
    reveal_strlit("Aku");
    reveal_strlit("B");
    reveal_strlit("Baron");
    reveal_strlit("Behemoth");
    reveal_strlit("C");
    reveal_strlit("CA");
    reveal_strlit("Catamin");
    reveal_strlit("Challenge");
    reveal_strlit("Championships");
    reveal_strlit("Collab");
    reveal_strlit("Colosseum");
    reveal_strlit("CotC");
    reveal_strlit("DM");
    reveal_strlit("Dojo");
    reveal_strlit("EX");
    reveal_strlit("Enigma");
    reveal_strlit("EoC");
    reveal_strlit("Event");
    reveal_strlit("Extra");
    reveal_strlit("Filibuster");
    reveal_strlit("G");
    reveal_strlit("Gauntlet");
    reveal_strlit("H");
    reveal_strlit("ItF");
    reveal_strlit("L");
    reveal_strlit("Labyrinth");
    reveal_strlit("M");
    reveal_strlit("N");
    reveal_strlit("NA");
    reveal_strlit("ND");
    reveal_strlit("Q");
    reveal_strlit("R");
    reveal_strlit("RE");
    reveal_strlit("Rank");
    reveal_strlit("S");
    reveal_strlit("SR");
    reveal_strlit("SoL");
    reveal_strlit("Space");
    reveal_strlit("Special");
    reveal_strlit("T");
    reveal_strlit("Tower");
    reveal_strlit("UL");
    reveal_strlit("V");
    reveal_strlit("W");
    reveal_strlit("ZL");
    reveal_strlit("cotcZ");
    reveal_strlit("eocZ");
    reveal_strlit("itfZ");
    reveal_strlit("main");
    lemma_decimal_digits(v.spec_num() as nat);
    let names = spec_aliases(spec_stage_type(v));
    assert forall|j: int, k: int| 0 <= j < names.len() && 0 <= k < names[j].len()
        implies #[trigger] names[j][k] != SELECTOR_SEPARATOR by {
        lemma_aliases_shape(v);
        if names[j] == decimal(v.spec_num() as nat) {
            assert(is_digit(names[j][k]));
        }
    }
}

/// Lemma: a stage type whose stage code is `R` + map code has a map code.
pub proof fn lemma_stage_type_codes(v: StageVariantID)
    ensures
        spec_stage_type(v).variant_id == v,
        spec_stage_type(v).stage_code == StageCodeType::RPrefix ==> spec_stage_type(v).map_code is Some,
        spec_stage_type(v).map_code is None <==> spec_stage_type(v).stage_code == StageCodeType::Custom,
{
}

/// Lemma: when `v` is the only variant of `vs` that matches `code`, the
/// first match is `v`.
pub proof fn lemma_first_match(vs: Seq<StageVariantID>, code: Seq<char>, v: StageVariantID)
    requires
        vs.contains(v),
        spec_matches(spec_stage_type(v), code),
        forall|u: StageVariantID| #[trigger] vs.contains(u) && u != v ==> !spec_matches(spec_stage_type(u), code),
    ensures
        first_match(vs, code) == Some(v),
    decreases vs.len(),
{
    if vs[0] != v {
        assert(vs.contains(vs[0]));
        let k = choose|k: int| 0 <= k < vs.len() && vs[k] == v;
        assert(vs.drop_first()[k - 1] == v);
        assert forall|u: StageVariantID| #[trigger] vs.drop_first().contains(u) && u != v implies !spec_matches(
            spec_stage_type(u),
            code,
        ) by {
            let j = choose|j: int| 0 <= j < vs.drop_first().len() && vs.drop_first()[j] == u;
            assert(vs[j + 1] == u);
            assert(vs.contains(u));
        }
        lemma_first_match(vs.drop_first(), code, v);
    }
}

/// Lemma: the decimal number of a variant is matched by that variant alone.
pub proof fn lemma_number_code(v: StageVariantID)
    ensures
        spec_variant_from_number(v) == Some(v),
{
    let code = decimal(v.spec_num() as nat);
    lemma_decimal_digits(v.spec_num() as nat);
    let st = spec_stage_type(v);
    let names = spec_aliases(st);
    let n = spec_common_names(v).len();
    assert(names[n as int] == code);
    lemma_fold_eq_digits(code, code);
    lemma_any_fold_eq(names, code);
    assert forall|u: StageVariantID| #[trigger] raw_order().contains(u) && u != v implies !spec_matches(
        spec_stage_type(u),
        code,
    ) by {
        let un = spec_aliases(spec_stage_type(u));
        lemma_any_fold_eq(un, code);
        lemma_aliases_shape(u);
        assert forall|j: int| 0 <= j < un.len() implies !fold_eq(#[trigger] un[j], code) by {
            lemma_fold_eq_forall(un[j], code);
            if un[j] == decimal(u.spec_num() as nat) {
                lemma_decimal_digits(u.spec_num() as nat);
                lemma_fold_eq_digits(un[j], code);
                lemma_decimal_injective(u.spec_num() as nat, v.spec_num() as nat);
                crate::meta::stage::variant::lemma_variant_num_roundtrip(u);
                crate::meta::stage::variant::lemma_variant_num_roundtrip(v);
            } else if fold_eq(un[j], code) {
                assert(is_digit(code[0]));
                lemma_digit_char(digit_value(code[0]));
                assert(fold_char(un[j][0]) == fold_char(code[0]));
            }
        }
    }
    crate::meta::stage::variant::lemma_all_contains(v);
    lemma_first_match(raw_order(), code, v);
}

/// The variant that a variant's decimal number names.
pub open spec fn spec_variant_from_number(v: StageVariantID) -> Option<StageVariantID> {
    first_match(raw_order(), decimal(v.spec_num() as nat))
}

} // verus!
