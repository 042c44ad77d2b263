//! Variables of the stage info format that are filled from the stage alone.

use crate::stage::parsed::stage::Stage;
use crate::text::{padded, push_padded, push_str, string_from};
use vstd::prelude::*;

verus! {

/// The battlecats-db page of a stage:
/// `https://battlecats-db.com/stage/s{type:02}{map:03}-{stage + 1:02}.html`.
pub open spec fn reference_text(type_num: nat, map_num: nat, stage_num: nat) -> Seq<char> {
    "https://battlecats-db.com/stage/s"@ + padded(type_num, 2) + padded(map_num, 3) + "-"@ + padded(
        stage_num + 1,
        2,
    ) + ".html"@
}

/// Get the battlecats-db reference link.
pub fn reference(stage: &Stage) -> (s: String)
    requires
        stage.meta.stage_num < usize::MAX,
    ensures
        s@ == reference_text(stage.meta.type_num as nat, stage.meta.map_num as nat, stage.meta.stage_num as nat),
{
    let mut out: Vec<char> = Vec::new();
    push_str(&mut out, "https://battlecats-db.com/stage/s");
    push_padded(&mut out, stage.meta.type_num as u64, 2);
    push_padded(&mut out, stage.meta.map_num as u64, 3);
    push_str(&mut out, "-");
    push_padded(&mut out, (stage.meta.stage_num + 1) as u64, 2);
    push_str(&mut out, ".html");
    string_from(&out)
}

} // verus!
