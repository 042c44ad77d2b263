//! ID for a stage.

use super::map_id::{MapID, MapSize};
use super::variant::{StageVariantID, VariantSize, StageVariant};
use crate::text::{padded, push_padded, string_from};
use vstd::prelude::*;

verus! {

/// Size of stage number.
pub type StageSize = u32;

/// Identifies a stage.
#[derive(Debug, Clone, Copy, PartialEq, Eq, Structural)]
pub struct StageID {
    map: MapID,
    num: StageSize,
}

/// Two stages with the same map and number are the same stage.
pub proof fn lemma_stage_ext(a: StageID, b: StageID)
    requires
        a.spec_map() == b.spec_map(),
        a.spec_num() == b.spec_num(),
    ensures
        a == b,
{
}

impl StageID {
    /// The stage's map.
    pub closed spec fn spec_map(&self) -> MapID {
        self.map
    }

    /// The stage's number in its map.
    pub closed spec fn spec_num(&self) -> StageSize {
        self.num
    }

    /// Get stage type variant.
    pub fn variant(&self) -> (v: StageVariantID)
        ensures
            v == self.spec_map().spec_variant(),
    {
        self.map.variant()
    }

    /// Get stage map ID object.
    pub fn map(&self) -> (m: &MapID)
        ensures
            *m == self.spec_map(),
    {
        &self.map
    }

    /// Get stage number.
    #[verifier::when_used_as_spec(spec_num)]
    pub fn num(&self) -> (n: StageSize)
        ensures
            n == self.spec_num(),
    {
        self.num
    }

    /// Create new stage from components.
    pub fn from_components(variant: StageVariantID, map: MapSize, num: StageSize) -> (s: Self)
        ensures
            s.spec_map().spec_variant() == variant,
            s.spec_map().spec_num() == map,
            s.spec_num() == num,
    {
        Self::from_map(MapID::from_components(variant, map), num)
    }

    /// Create new stage from numbers.
    pub fn from_numbers(variant: VariantSize, map: MapSize, num: StageSize) -> (s: Self)
        requires
            StageVariant::spec_from_num(variant) is Some,
        ensures
            Some(s.spec_map().spec_variant()) == StageVariant::spec_from_num(variant),
            s.spec_map().spec_variant().spec_num() == variant,
            s.spec_map().spec_num() == map,
            s.spec_num() == num,
    {
        Self::from_map(MapID::from_numbers(variant, map), num)
    }

    /// Create new stage from map.
    pub fn from_map(map: MapID, num: StageSize) -> (s: Self)
        ensures
            s.spec_map() == map,
            s.spec_num() == num,
    {
        Self { map, num }
    }

    /// Create new stage from mapid.
    pub fn from_mapid(mapid: u32, num: StageSize) -> (s: Self)
        requires
            StageVariant::spec_from_num(mapid / 1000) is Some,
        ensures
            s.spec_map().spec_variant().spec_num() == mapid / 1000,
            s.spec_map().spec_num() == mapid % 1000,
            s.spec_num() == num,
    {
        Self::from_map(MapID::from_mapid(mapid), num)
    }

    /// Set map ID number.
    pub fn set_map(&mut self, map: StageSize)
        ensures
            final(self).spec_map().spec_variant() == old(self).spec_map().spec_variant(),
            final(self).spec_map().spec_num() == map,
            final(self).spec_num() == old(self).spec_num(),
    {
        self.map.set_num(map);
    }

    /// Set stage ID number.
    pub fn set_num(&mut self, num: StageSize)
        ensures
            final(self).spec_map() == old(self).spec_map(),
            final(self).spec_num() == num,
    {
        self.num = num;
    }

    /// Textual form `{variant:03}-{map:03}-{stage:03}`.
    pub open spec fn spec_repr(&self) -> Seq<char> {
        padded(self.spec_map().spec_variant().spec_num() as nat, 3) + seq!['-']
            + padded(self.spec_map().spec_num() as nat, 3) + seq!['-'] + padded(self.spec_num() as nat, 3)
    }

    /// Textual form of the ID, e.g. `"000-001-002"`.
    pub fn to_string(&self) -> (s: String)
        ensures
            s@ == self.spec_repr(),
    {
        let mut out: Vec<char> = Vec::new();
        push_padded(&mut out, self.map.variant().num() as u64, 3);
        out.push('-');
        push_padded(&mut out, self.map.num() as u64, 3);
        out.push('-');
        push_padded(&mut out, self.num as u64, 3);
        string_from(&out)
    }
}

} // verus!
