//! Pieces of the battlegrounds section of a stage page.

use crate::stage::stage_enemy::StageEnemy;
use crate::text::append_str;
use crate::wikitext::number_utils::{en_formatted, format_en, seconds_text, write_seconds};
use vstd::prelude::*;

verus! {

/// `, delay {min}[~{max}] second(s)<sup>{min}f[~{max}f]</sup>`: an enemy's
/// respawn time in seconds and in frames.
pub open spec fn delay_text(e: StageEnemy) -> Seq<char> {
    let (lo, hi) = e.respawn_time;
    ", delay "@ + seconds_text(lo as nat) + (if hi > lo {
        seq!['~'] + seconds_text(hi as nat)
    } else {
        Seq::empty()
    }) + (if lo == 1 && hi == 1 {
        " second"@
    } else {
        " seconds"@
    }) + "<sup>"@ + en_formatted(lo as nat) + seq!['f'] + (if hi > lo {
        seq!['~'] + en_formatted(hi as nat) + seq!['f']
    } else {
        Seq::empty()
    }) + "</sup>"@
}

/// Append the enemy's respawn delay.
pub fn write_enemy_delay(buf: &mut String, enemy: &StageEnemy)
    requires
        enemy.respawn_time.0 < 30_000,
        enemy.respawn_time.1 < 30_000,
    ensures
        final(buf)@ == old(buf)@ + delay_text(*enemy),
{
    let (lo, hi) = enemy.respawn_time;
    append_str(buf, ", delay ");
    write_seconds(buf, lo);
    if hi > lo {
        append_str(buf, "~");
        write_seconds(buf, hi);
    }
    if lo == 1 && hi == 1 {
        append_str(buf, " second");
    } else {
        append_str(buf, " seconds");
    }
    append_str(buf, "<sup>");
    let f = format_en(lo as u64);
    append_str(buf, f.as_str());
    append_str(buf, "f");
    if hi > lo {
        append_str(buf, "~");
        let g = format_en(hi as u64);
        append_str(buf, g.as_str());
        append_str(buf, "f");
    }
    append_str(buf, "</sup>");
    proof {
        reveal_strlit("~");
        reveal_strlit("f");
    }
    assert(buf@ =~= old(buf)@ + delay_text(*enemy));
}

} // verus!
