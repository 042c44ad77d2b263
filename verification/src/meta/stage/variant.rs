//! The variant (e.g. SoL, main chapters etc.) of the stage.

use vstd::prelude::*;

verus! {

/// Size of variant.
pub type VariantSize = u32;

#[allow(missing_docs)]
#[derive(Debug, Clone, Copy, PartialEq, Eq, Structural)]
/// The variant (e.g. SoL, main chapters etc.) of the stage.
pub enum StageVariant {
    /// Technically also used for login stamps from maps 900-999.
    SoL,
    Event,
    Collab,
    /// Maps 0-2 are EoC, 3-5 are ItF, 6-8 are CotC.
    MainChapters,
    /// Continuation and one-time invasion stages.
    Extra,
    Dojo,
    Tower,
    RankingDojo,
    Challenge,
    UL,
    Catamin,
    EocOutbreak,
    ItfOutbreak,
    CotcOutbreak,
    Filibuster,
    Gauntlet,
    Enigma,
    CollabGauntlet,
    AkuRealms,
    Behemoth,
    Labyrinth,
    ZL,
    Colosseum,
    Championships,
}

/// Another name of [`StageVariant`], as used by the stage type modules.
pub type StageVariantID = StageVariant;

impl StageVariant {
    /// Number of the variant in the game files.
    pub open spec fn spec_num(&self) -> u32 {
        match *self {
            StageVariant::SoL => 0,
            StageVariant::Event => 1,
            StageVariant::Collab => 2,
            StageVariant::MainChapters => 3,
            StageVariant::Extra => 4,
            StageVariant::Dojo => 6,
            StageVariant::Tower => 7,
            StageVariant::RankingDojo => 11,
            StageVariant::Challenge => 12,
            StageVariant::UL => 13,
            StageVariant::Catamin => 14,
            StageVariant::EocOutbreak => 20,
            StageVariant::ItfOutbreak => 21,
            StageVariant::CotcOutbreak => 22,
            StageVariant::Filibuster => 23,
            StageVariant::Gauntlet => 24,
            StageVariant::Enigma => 25,
            StageVariant::CollabGauntlet => 27,
            StageVariant::AkuRealms => 30,
            StageVariant::Behemoth => 31,
            StageVariant::Labyrinth => 33,
            StageVariant::ZL => 34,
            StageVariant::Colosseum => 36,
            StageVariant::Championships => 37,
        }
    }

    /// Get variant number.
    #[verifier::when_used_as_spec(spec_num)]
    pub fn num(&self) -> (n: VariantSize)
        ensures
            n == self.spec_num(),
    {
        match *self {
            StageVariant::SoL => 0,
            StageVariant::Event => 1,
            StageVariant::Collab => 2,
            StageVariant::MainChapters => 3,
            StageVariant::Extra => 4,
            StageVariant::Dojo => 6,
            StageVariant::Tower => 7,
            StageVariant::RankingDojo => 11,
            StageVariant::Challenge => 12,
            StageVariant::UL => 13,
            StageVariant::Catamin => 14,
            StageVariant::EocOutbreak => 20,
            StageVariant::ItfOutbreak => 21,
            StageVariant::CotcOutbreak => 22,
            StageVariant::Filibuster => 23,
            StageVariant::Gauntlet => 24,
            StageVariant::Enigma => 25,
            StageVariant::CollabGauntlet => 27,
            StageVariant::AkuRealms => 30,
            StageVariant::Behemoth => 31,
            StageVariant::Labyrinth => 33,
            StageVariant::ZL => 34,
            StageVariant::Colosseum => 36,
            StageVariant::Championships => 37,
        }
    }

    /// Variant whose number is `n`, if there is one.
    pub open spec fn spec_from_num(n: u32) -> Option<StageVariant> {
        if n == 0 { Some(StageVariant::SoL) }
        else if n == 1 { Some(StageVariant::Event) }
        else if n == 2 { Some(StageVariant::Collab) }
        else if n == 3 { Some(StageVariant::MainChapters) }
        else if n == 4 { Some(StageVariant::Extra) }
        else if n == 6 { Some(StageVariant::Dojo) }
        else if n == 7 { Some(StageVariant::Tower) }
        else if n == 11 { Some(StageVariant::RankingDojo) }
        else if n == 12 { Some(StageVariant::Challenge) }
        else if n == 13 { Some(StageVariant::UL) }
        else if n == 14 { Some(StageVariant::Catamin) }
        else if n == 20 { Some(StageVariant::EocOutbreak) }
        else if n == 21 { Some(StageVariant::ItfOutbreak) }
        else if n == 22 { Some(StageVariant::CotcOutbreak) }
        else if n == 23 { Some(StageVariant::Filibuster) }
        else if n == 24 { Some(StageVariant::Gauntlet) }
        else if n == 25 { Some(StageVariant::Enigma) }
        else if n == 27 { Some(StageVariant::CollabGauntlet) }
        else if n == 30 { Some(StageVariant::AkuRealms) }
        else if n == 31 { Some(StageVariant::Behemoth) }
        else if n == 33 { Some(StageVariant::Labyrinth) }
        else if n == 34 { Some(StageVariant::ZL) }
        else if n == 36 { Some(StageVariant::Colosseum) }
        else if n == 37 { Some(StageVariant::Championships) }
        else { None }
    }

    /// Variant whose number is `n`, if there is one.
    pub fn from_num(n: VariantSize) -> (v: Option<StageVariant>)
        ensures
            v == Self::spec_from_num(n),
            v matches Some(var) ==> var.spec_num() == n,
    {
        if n == 0 { Some(StageVariant::SoL) }
        else if n == 1 { Some(StageVariant::Event) }
        else if n == 2 { Some(StageVariant::Collab) }
        else if n == 3 { Some(StageVariant::MainChapters) }
        else if n == 4 { Some(StageVariant::Extra) }
        else if n == 6 { Some(StageVariant::Dojo) }
        else if n == 7 { Some(StageVariant::Tower) }
        else if n == 11 { Some(StageVariant::RankingDojo) }
        else if n == 12 { Some(StageVariant::Challenge) }
        else if n == 13 { Some(StageVariant::UL) }
        else if n == 14 { Some(StageVariant::Catamin) }
        else if n == 20 { Some(StageVariant::EocOutbreak) }
        else if n == 21 { Some(StageVariant::ItfOutbreak) }
        else if n == 22 { Some(StageVariant::CotcOutbreak) }
        else if n == 23 { Some(StageVariant::Filibuster) }
        else if n == 24 { Some(StageVariant::Gauntlet) }
        else if n == 25 { Some(StageVariant::Enigma) }
        else if n == 27 { Some(StageVariant::CollabGauntlet) }
        else if n == 30 { Some(StageVariant::AkuRealms) }
        else if n == 31 { Some(StageVariant::Behemoth) }
        else if n == 33 { Some(StageVariant::Labyrinth) }
        else if n == 34 { Some(StageVariant::ZL) }
        else if n == 36 { Some(StageVariant::Colosseum) }
        else if n == 37 { Some(StageVariant::Championships) }
        else { None }
    }

    /// Every variant, in the order of their numbers.
    pub open spec fn spec_all() -> Seq<StageVariant> {
        seq![
            StageVariant::SoL, StageVariant::Event, StageVariant::Collab,
            StageVariant::MainChapters, StageVariant::Extra, StageVariant::Dojo,
            StageVariant::Tower, StageVariant::RankingDojo, StageVariant::Challenge,
            StageVariant::UL, StageVariant::Catamin, StageVariant::EocOutbreak,
            StageVariant::ItfOutbreak, StageVariant::CotcOutbreak, StageVariant::Filibuster,
            StageVariant::Gauntlet, StageVariant::Enigma, StageVariant::CollabGauntlet,
            StageVariant::AkuRealms, StageVariant::Behemoth, StageVariant::Labyrinth,
            StageVariant::ZL, StageVariant::Colosseum, StageVariant::Championships,
        ]
    }

    /// Every variant, in the order of their numbers.
    pub fn all() -> (vs: Vec<StageVariant>)
        ensures
            vs@ == Self::spec_all(),
            vs@.len() == 24,
            forall|i: int, j: int| 0 <= i < j < vs@.len() ==> vs@[i].spec_num() < vs@[j].spec_num(),
            forall|v: StageVariant| vs@.contains(v),
    {
        let vs = vec![
            StageVariant::SoL, StageVariant::Event, StageVariant::Collab,
            StageVariant::MainChapters, StageVariant::Extra, StageVariant::Dojo,
            StageVariant::Tower, StageVariant::RankingDojo, StageVariant::Challenge,
            StageVariant::UL, StageVariant::Catamin, StageVariant::EocOutbreak,
            StageVariant::ItfOutbreak, StageVariant::CotcOutbreak, StageVariant::Filibuster,
            StageVariant::Gauntlet, StageVariant::Enigma, StageVariant::CollabGauntlet,
            StageVariant::AkuRealms, StageVariant::Behemoth, StageVariant::Labyrinth,
            StageVariant::ZL, StageVariant::Colosseum, StageVariant::Championships,
        ];
        proof {
            assert(vs@ =~= Self::spec_all());
            assert forall|v: StageVariant| vs@.contains(v) by {
                lemma_all_contains(v);
            }
        }
        vs
    }

    /// Is variant a Zombie Outbreak?
    pub open spec fn spec_is_outbreak(&self) -> bool {
        matches!(*self, StageVariant::EocOutbreak | StageVariant::ItfOutbreak | StageVariant::CotcOutbreak)
    }

    /// Is variant a main chapter?
    pub fn is_main(&self) -> (b: bool)
        ensures
            b == (matches!(*self, StageVariant::MainChapters | StageVariant::Filibuster | StageVariant::AkuRealms)
                || self.spec_is_outbreak()),
    {
        matches!(*self, StageVariant::MainChapters | StageVariant::Filibuster | StageVariant::AkuRealms)
            || self.is_outbreak()
    }

    /// Is variant a Zombie Outbreak?
    #[verifier::when_used_as_spec(spec_is_outbreak)]
    pub fn is_outbreak(&self) -> (b: bool)
        ensures
            b == self.spec_is_outbreak(),
    {
        matches!(*self, StageVariant::EocOutbreak | StageVariant::ItfOutbreak | StageVariant::CotcOutbreak)
    }

    /// Is variant a Legend Stage?
    pub fn is_legend_stage(&self) -> (b: bool)
        ensures
            b == matches!(*self, StageVariant::SoL | StageVariant::UL | StageVariant::ZL),
    {
        matches!(*self, StageVariant::SoL | StageVariant::UL | StageVariant::ZL)
    }

    /// Is variant a collab?
    pub fn is_collab(&self) -> (b: bool)
        ensures
            b == matches!(*self, StageVariant::Collab | StageVariant::CollabGauntlet),
    {
        matches!(*self, StageVariant::Collab | StageVariant::CollabGauntlet)
    }

    /// Is variant a gauntlet?
    pub fn is_gauntlet(&self) -> (b: bool)
        ensures
            b == matches!(*self, StageVariant::Gauntlet | StageVariant::CollabGauntlet),
    {
        matches!(*self, StageVariant::Gauntlet | StageVariant::CollabGauntlet)
    }
}

/// Law: a variant's number leads back to the variant, and distinct variants
/// have distinct numbers.
pub proof fn lemma_variant_num_roundtrip(v: StageVariant)
    ensures
        StageVariant::spec_from_num(v.spec_num()) == Some(v),
        v.spec_num() <= 37,
{
}

/// Law: a number that names a variant is that variant's number.
pub proof fn lemma_num_variant_roundtrip(n: u32)
    ensures
        StageVariant::spec_from_num(n) matches Some(v) ==> v.spec_num() == n,
{
}


/// Lemma: every variant is listed by `spec_all`.
pub proof fn lemma_all_contains(v: StageVariant)
    ensures
        StageVariant::spec_all().contains(v),
{
    match v {
                    StageVariant::SoL => assert(StageVariant::spec_all()[0] == v),
                    StageVariant::Event => assert(StageVariant::spec_all()[1] == v),
                    StageVariant::Collab => assert(StageVariant::spec_all()[2] == v),
                    StageVariant::MainChapters => assert(StageVariant::spec_all()[3] == v),
                    StageVariant::Extra => assert(StageVariant::spec_all()[4] == v),
                    StageVariant::Dojo => assert(StageVariant::spec_all()[5] == v),
                    StageVariant::Tower => assert(StageVariant::spec_all()[6] == v),
                    StageVariant::RankingDojo => assert(StageVariant::spec_all()[7] == v),
                    StageVariant::Challenge => assert(StageVariant::spec_all()[8] == v),
                    StageVariant::UL => assert(StageVariant::spec_all()[9] == v),
                    StageVariant::Catamin => assert(StageVariant::spec_all()[10] == v),
                    StageVariant::EocOutbreak => assert(StageVariant::spec_all()[11] == v),
                    StageVariant::ItfOutbreak => assert(StageVariant::spec_all()[12] == v),
                    StageVariant::CotcOutbreak => assert(StageVariant::spec_all()[13] == v),
                    StageVariant::Filibuster => assert(StageVariant::spec_all()[14] == v),
                    StageVariant::Gauntlet => assert(StageVariant::spec_all()[15] == v),
                    StageVariant::Enigma => assert(StageVariant::spec_all()[16] == v),
                    StageVariant::CollabGauntlet => assert(StageVariant::spec_all()[17] == v),
                    StageVariant::AkuRealms => assert(StageVariant::spec_all()[18] == v),
                    StageVariant::Behemoth => assert(StageVariant::spec_all()[19] == v),
                    StageVariant::Labyrinth => assert(StageVariant::spec_all()[20] == v),
                    StageVariant::ZL => assert(StageVariant::spec_all()[21] == v),
                    StageVariant::Colosseum => assert(StageVariant::spec_all()[22] == v),
                    StageVariant::Championships => assert(StageVariant::spec_all()[23] == v),
    }
}

} // verus!
