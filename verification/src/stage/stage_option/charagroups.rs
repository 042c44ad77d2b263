//! Groups of cats that stages allow or forbid.

use crate::stage::map_data::{field_u32, parse_u32_bytes, std_u32};
use vstd::prelude::*;

verus! {

/// Whether the group lists the only cats allowed or the cats forbidden.
#[derive(Debug, Clone, Copy, PartialEq, Eq, Structural)]
pub enum CharaGroupType {
    /// Only these cats can be used.
    OnlyUse,
    /// These cats cannot be used.
    CannotUse,
}

impl CharaGroupType {
    /// Group type from its number in the file: 0 allows only the group, 2
    /// forbids it.
    pub fn from_u32(value: u32) -> (t: Self)
        requires
            value == 0 || value == 2,
        ensures
            t == (if value == 0 { CharaGroupType::OnlyUse } else { CharaGroupType::CannotUse }),
    {
        if value == 0 {
            Self::OnlyUse
        } else {
            Self::CannotUse
        }
    }
}

/// Group of cats.
#[derive(Debug)]
pub struct CharaGroup {
    /// Whether the group is allowed or forbidden.
    pub group_type: CharaGroupType,
    /// Units in the group.
    pub units: Vec<u32>,
}

/// Number of fields of a group line that hold data: a last empty field (left
/// by a trailing comma) does not count.
pub open spec fn data_len(r: Seq<Seq<u8>>) -> int {
    if r.last().len() == 0 {
        r.len() - 1
    } else {
        r.len() as int
    }
}

/// Units of a group line: fields 3 onwards, as numbers.
pub open spec fn line_units(r: Seq<Seq<u8>>) -> Seq<u32> {
    if data_len(r) <= 3 {
        Seq::empty()
    } else {
        Seq::new((data_len(r) - 3) as nat, |i: int| field_u32(r[3 + i]))
    }
}

/// A group line can be read: it has a field, its type is 0 or 2 and each
/// unit field is a number.
pub open spec fn group_line_ok(group_type: u32, r: Seq<Seq<u8>>) -> bool {
    &&& r.len() >= 1
    &&& (group_type == 0 || group_type == 2)
    &&& forall|i: int| 3 <= i < data_len(r) ==> std_u32(#[trigger] r[i]) is Some
}

impl CharaGroup {
    /// The group of a line of the cat group file: `group_type` is its third
    /// field as read, `record` all its fields.
    pub fn from_record(group_type: u32, record: &Vec<Vec<u8>>) -> (g: Self)
        requires
            group_line_ok(group_type, Seq::new(record@.len(), |i: int| record@[i]@)),
        ensures
            g.group_type == (if group_type == 0 { CharaGroupType::OnlyUse } else { CharaGroupType::CannotUse }),
            g.units@ == line_units(Seq::new(record@.len(), |i: int| record@[i]@)),
    {
        match Self::try_from_record(group_type, record) {
            Some(g) => g,
            None => CharaGroup { group_type: CharaGroupType::OnlyUse, units: Vec::new() },
        }
    }

    /// The group of a line as `from_record` reads it, or `None` where the
    /// line cannot be read.
    pub fn try_from_record(group_type: u32, record: &Vec<Vec<u8>>) -> (g: Option<Self>)
        ensures
            match g {
                Some(g) => {
                    &&& group_line_ok(group_type, Seq::new(record@.len(), |i: int| record@[i]@))
                    &&& g.group_type == (if group_type == 0 { CharaGroupType::OnlyUse } else { CharaGroupType::CannotUse })
                    &&& g.units@ == line_units(Seq::new(record@.len(), |i: int| record@[i]@))
                },
                None => !group_line_ok(group_type, Seq::new(record@.len(), |i: int| record@[i]@)),
            },
    {
        let ghost r = Seq::new(record@.len(), |i: int| record@[i]@);
        let n = record.len();
        if n == 0 || !(group_type == 0 || group_type == 2) {
            return None;
        }
        assert(r.last() == record@[n - 1]@);
        let max_ind = if record[n - 1].len() == 0 { n - 1 } else { n };
        assert(max_ind == data_len(r));
        let mut units: Vec<u32> = Vec::new();
        let mut i: usize = 3;
        while i < max_ind
            invariant
                3 <= i,
                i <= max_ind || i == 3,
                max_ind <= record.len(),
                max_ind == data_len(r),
                r == Seq::new(record@.len(), |k: int| record@[k]@),
                forall|k: int| 3 <= k < i ==> std_u32(#[trigger] r[k]) is Some,
                units@.len() == i - 3,
                forall|k: int| 0 <= k < units@.len() ==> units@[k] == field_u32(r[3 + k]),
            decreases max_ind - i,
        {
            assert(record@[i as int]@ == r[i as int]);
            let u = match parse_u32_bytes(&record[i]) {
                Some(u) => u,
                None => {
                    return None;
                },
            };
            units.push(u);
            i = i + 1;
        }
        assert(units@ =~= line_units(r));
        Some(CharaGroup { group_type: CharaGroupType::from_u32(group_type), units })
    }
}

/// The cat groups, group `n` at index `n - 1`.
pub struct CharaGroups {
    parsed_file: Vec<CharaGroup>,
}

impl CharaGroups {
    /// The groups in file order.
    pub closed spec fn spec_groups(&self) -> Seq<CharaGroup> {
        self.parsed_file@
    }

    /// Create the container from the groups of the file, in order.
    pub fn new(groups: Vec<CharaGroup>) -> (c: Self)
        ensures
            c.spec_groups() == groups@,
    {
        Self { parsed_file: groups }
    }

    /// Get the group with id `id` (groups are numbered from 1).
    pub fn get_charagroup(&self, id: u32) -> (g: Option<&CharaGroup>)
        requires
            id >= 1,
        ensures
            match g {
                Some(c) => id - 1 < self.spec_groups().len() && *c == self.spec_groups()[id - 1],
                None => id - 1 >= self.spec_groups().len(),
            },
    {
        let i = (id - 1) as usize;
        if i < self.parsed_file.len() {
            Some(&self.parsed_file[i])
        } else {
            None
        }
    }
}

} // verus!
