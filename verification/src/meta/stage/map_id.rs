//! ID for a stage map.

use super::variant::{StageVariant, VariantSize};
use vstd::prelude::*;

verus! {

/// Type of main chapter.
#[allow(missing_docs)]
#[derive(Debug, Clone, Copy, PartialEq, Eq, Structural)]
pub enum MainType {
    EoC,
    ItF,
    CotC,
}

/// Size of a map number.
pub type MapSize = u32;

/// Identifies a map.
#[derive(Debug, Clone, Copy, PartialEq, Eq, Structural)]
pub struct MapID {
    /// Stage type variant.
    variant: StageVariant,
    /// Number of map.
    num: MapSize,
}

impl MapID {
    /// Stage type variant of the map.
    pub closed spec fn spec_variant(&self) -> StageVariant {
        self.variant
    }

    /// Number of the map.
    pub closed spec fn spec_num(&self) -> MapSize {
        self.num
    }

    /// Get stage type variant.
    #[verifier::when_used_as_spec(spec_variant)]
    pub fn variant(&self) -> (v: StageVariant)
        ensures
            v == self.spec_variant(),
    {
        self.variant
    }

    /// Get map number.
    #[verifier::when_used_as_spec(spec_num)]
    pub fn num(&self) -> (n: MapSize)
        ensures
            n == self.spec_num(),
    {
        self.num
    }

    /// Get map ID used in game files.
    pub fn mapid(&self) -> (id: u32)
        requires
            self.spec_variant().spec_num() * 1000 + self.spec_num() <= u32::MAX,
        ensures
            id == self.spec_variant().spec_num() * 1000 + self.spec_num(),
    {
        self.variant.num() * 1000 + self.num
    }

    /// Main chapter that the map number falls into, if any.
    pub open spec fn spec_main_type(&self) -> Option<MainType> {
        if self.spec_num() <= 2 {
            Some(MainType::EoC)
        } else if self.spec_num() <= 5 {
            Some(MainType::ItF)
        } else if self.spec_num() <= 8 {
            Some(MainType::CotC)
        } else {
            None
        }
    }

    /// If map is main chapters then get which one if applicable.
    #[verifier::when_used_as_spec(spec_main_type)]
    pub fn main_type(&self) -> (t: Option<MainType>)
        ensures
            t == self.spec_main_type(),
    {
        if self.num <= 2 {
            Some(MainType::EoC)
        } else if self.num <= 5 {
            Some(MainType::ItF)
        } else if self.num <= 8 {
            Some(MainType::CotC)
        } else {
            None
        }
    }

    /// Create new MapID from components.
    pub fn from_components(variant: StageVariant, num: MapSize) -> (m: Self)
        ensures
            m.spec_variant() == variant,
            m.spec_num() == num,
    {
        Self { variant, num }
    }

    /// Create new MapID from numbers.
    pub fn from_numbers(variant: VariantSize, num: MapSize) -> (m: Self)
        requires
            StageVariant::spec_from_num(variant) is Some,
        ensures
            Some(m.spec_variant()) == StageVariant::spec_from_num(variant),
            m.spec_variant().spec_num() == variant,
            m.spec_num() == num,
    {
        let v = StageVariant::from_num(variant).unwrap();
        Self::from_components(v, num)
    }

    /// Create new MapID from mapid.
    pub fn from_mapid(mapid: u32) -> (m: Self)
        requires
            StageVariant::spec_from_num(mapid / 1000) is Some,
        ensures
            m.spec_variant().spec_num() == mapid / 1000,
            m.spec_num() == mapid % 1000,
    {
        let type_id = mapid / 1000;
        let map_id = mapid % 1000;
        Self::from_numbers(type_id, map_id)
    }

    /// Set the map number.
    pub fn set_num(&mut self, num: MapSize)
        ensures
            final(self).spec_variant() == old(self).spec_variant(),
            final(self).spec_num() == num,
    {
        self.num = num;
    }
}

/// Two maps with the same variant and number are the same map.
pub proof fn lemma_map_ext(a: MapID, b: MapID)
    requires
        a.spec_variant() == b.spec_variant(),
        a.spec_num() == b.spec_num(),
    ensures
        a == b,
{
}

/// Law: the map ID used in game files leads back to the same map whenever
/// the map number is below 1000.
pub proof fn lemma_mapid_roundtrip(m: MapID)
    requires
        m.spec_num() < 1000,
    ensures
        (m.spec_variant().spec_num() * 1000 + m.spec_num()) / 1000 == m.spec_variant().spec_num(),
        (m.spec_variant().spec_num() * 1000 + m.spec_num()) % 1000 == m.spec_num(),
        StageVariant::spec_from_num(((m.spec_variant().spec_num() * 1000 + m.spec_num()) / 1000) as u32)
            == Some(m.spec_variant()),
{
    let n = m.spec_variant().spec_num() as int;
    let k = m.spec_num() as int;
    assert((n * 1000 + k) / 1000 == n) by (nonlinear_arith)
        requires 0 <= k < 1000, n >= 0;
    assert((n * 1000 + k) % 1000 == k) by (nonlinear_arith)
        requires 0 <= k < 1000, n >= 0;
}

} // verus!
