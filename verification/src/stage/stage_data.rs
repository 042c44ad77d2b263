//! Data of a stage file.

pub mod csv_types;

use self::csv_types::{RawCSVData, StageEnemyCSV};
use super::stage_metadata::StageMeta;
use super::stage_option::{applies_to, StageOption, StageOptionCSV};
use vstd::prelude::*;

verus! {

/// Stage data: the stage's metadata and the contents of its file.
pub struct StageData {
    /// Metadata of the stage.
    pub meta: StageMeta,
    /// Contents of the stage file.
    pub stage_csv_data: RawCSVData,
}

/// Map id of a stage: type number times 1000 plus map number, except for
/// the ItF and CotC outbreak maps of the main chapters (maps 15 and 16),
/// which are 22000 plus the map number.
pub open spec fn spec_map_id(type_num: nat, map_num: nat) -> nat {
    if type_num == 3 && (map_num == 15 || map_num == 16) {
        22_000 + map_num
    } else {
        type_num * 1000 + map_num
    }
}

/// Law: the option map id of a stage names its stage type and map: the
/// thousands give the type number and the rest the map number, for every
/// stage but those on main chapter maps 15 and 16 (the Cats of the Cosmos
/// outbreaks), which are filed under the number of the Cats of the Cosmos
/// outbreak variant instead.
pub proof fn law_map_id_parts(type_num: nat, map_num: nat)
    requires
        map_num < 1000,
    ensures
        !(type_num == 3 && (map_num == 15 || map_num == 16)) ==> spec_map_id(type_num, map_num) / 1000 == type_num
            && spec_map_id(type_num, map_num) % 1000 == map_num,
        (type_num == 3 && (map_num == 15 || map_num == 16)) ==> spec_map_id(type_num, map_num) / 1000
            == crate::meta::stage::variant::StageVariant::CotcOutbreak.spec_num() && spec_map_id(type_num, map_num)
            % 1000 == map_num,
{
    assert((type_num * 1000 + map_num) / 1000 == type_num && (type_num * 1000 + map_num) % 1000 == map_num)
        by (nonlinear_arith)
        requires
            map_num < 1000,
    ;
}

/// The first line of a stage file is its header line: it has at most seven
/// fields, or its seventh field is empty (stages of the main chapters start
/// directly with their settings line).
pub open spec fn is_header_line(r: Seq<Seq<u8>>) -> bool {
    r.len() <= 7 || r[6].len() == 0
}

/// Enemy lines of a stage file: lines that could not be read are skipped,
/// and the first enemy numbered 0 ends the list.
pub open spec fn enemy_lines(lines: Seq<Option<StageEnemyCSV>>) -> Seq<StageEnemyCSV>
    decreases lines.len(),
{
    if lines.len() == 0 {
        Seq::empty()
    } else {
        match lines[0] {
            None => enemy_lines(lines.drop_first()),
            Some(e) => if e.num == 0 {
                Seq::empty()
            } else {
                seq![e] + enemy_lines(lines.drop_first())
            },
        }
    }
}

impl RawCSVData {
    /// Is the first line of a stage file its header line?
    pub fn first_line_is_header(record: &Vec<Vec<u8>>) -> (b: bool)
        ensures
            b == is_header_line(Seq::new(record@.len(), |i: int| record@[i]@)),
    {
        record.len() <= 7 || record[6].len() == 0
    }

    /// Enemies of a stage file from its enemy lines as read (`None` where a
    /// line could not be read).
    pub fn collect_enemies(lines: Vec<Option<StageEnemyCSV>>) -> (es: Vec<StageEnemyCSV>)
        ensures
            es@ == enemy_lines(lines@),
    {
        let mut enemies: Vec<StageEnemyCSV> = Vec::new();
        let mut i: usize = 0;
        let ghost ls = lines@;
        assert(ls.skip(0) =~= ls);
        while i < lines.len()
            invariant
                0 <= i <= lines.len(),
                ls == lines@,
                enemy_lines(ls) == enemies@ + enemy_lines(ls.skip(i as int)),
            decreases lines.len() - i,
        {
            let ghost rest = ls.skip(i as int);
            assert(rest[0] == ls[i as int]);
            assert(rest.drop_first() =~= ls.skip(i + 1));
            match lines[i] {
                None => {},
                Some(e) => {
                    if e.num == 0 {
                        assert(enemies@ + Seq::<StageEnemyCSV>::empty() =~= enemies@);
                        return enemies;
                    }
                    let ghost before = enemies@;
                    enemies.push(e);
                    assert(before + (seq![e] + enemy_lines(ls.skip(i + 1))) =~= enemies@ + enemy_lines(ls.skip(i + 1)));
                },
            }
            i = i + 1;
        }
        assert(ls.skip(i as int).len() == 0);
        assert(enemies@ + Seq::<StageEnemyCSV>::empty() =~= enemies@);
        enemies
    }
}

impl StageData {
    /// Stage data from its metadata and the contents of its file.
    pub fn new(meta: StageMeta, stage_csv_data: RawCSVData) -> (s: Self)
        ensures
            s.meta == meta,
            s.stage_csv_data == stage_csv_data,
    {
        Self { meta, stage_csv_data }
    }

    /// Map id of the stage, as the option files use it.
    pub fn get_map_id(&self) -> (id: u32)
        requires
            spec_map_id(self.meta.type_num as nat, self.meta.map_num as nat) <= u32::MAX,
        ensures
            id == spec_map_id(self.meta.type_num as nat, self.meta.map_num as nat),
    {
        if self.meta.type_num == 3 && (self.meta.map_num == 15 || self.meta.map_num == 16) {
            (22_000 + self.meta.map_num) as u32
        } else {
            assert(self.meta.type_num * 1000 <= u32::MAX) by (nonlinear_arith)
                requires self.meta.type_num * 1000 + self.meta.map_num <= u32::MAX, self.meta.map_num >= 0;
            (self.meta.type_num * 1000 + self.meta.map_num) as u32
        }
    }

    /// The restrictions of the stage's map that apply to it, if the map
    /// has any.
    pub fn get_stage_option_data<'a>(&self, options: &'a StageOption) -> (r: Option<Vec<&'a StageOptionCSV>>)
        requires
            spec_map_id(self.meta.type_num as nat, self.meta.map_num as nat) <= u32::MAX,
            self.meta.stage_num <= u32::MAX,
        ensures
            match r {
                Some(v) => {
                    let m = spec_map_id(self.meta.type_num as nat, self.meta.map_num as nat) as u32;
                    &&& options.spec_map().contains_key(m)
                    &&& v@.map_values(|l: &StageOptionCSV| *l) == options.spec_map()[m]@.filter(
                        |l: StageOptionCSV| applies_to(l, self.meta.stage_num as u32),
                    )
                },
                None => !options.spec_map().contains_key(spec_map_id(self.meta.type_num as nat, self.meta.map_num as nat) as u32),
            },
    {
        let map_id = self.get_map_id();
        options.get_stage(map_id, self.meta.stage_num as u32)
    }
}

} // verus!
