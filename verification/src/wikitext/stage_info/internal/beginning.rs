//! Beginning of stage info: the enemies that appear and ordinals for the
//! intro.

use crate::stage::parsed::stage::Stage;
use crate::stage::stage_enemy::StageEnemy;
use crate::text::{decimal, push_decimal, push_str, string_from};
use crate::wiki_data::enemy_data::EnemyDataContainer;
use vstd::prelude::*;

verus! {

/// Enemy ids of `enemies` in order of first appearance, without repeats and
/// without enemy 21.
pub open spec fn appearing_ids(enemies: Seq<StageEnemy>) -> Seq<u32>
    decreases enemies.len(),
{
    if enemies.len() == 0 {
        Seq::empty()
    } else {
        let prev = appearing_ids(enemies.drop_last());
        let id = enemies.last().id;
        if id == 21 || prev.contains(id) {
            prev
        } else {
            prev.push(id)
        }
    }
}

/// Every enemy of the stage other than enemy 21 has data.
pub open spec fn enemies_named(enemies: Seq<StageEnemy>, data: &EnemyDataContainer) -> bool {
    forall|i: int| 0 <= i < enemies.len() && (#[trigger] enemies[i]).id != 21 ==> data.spec_data().contains_key(enemies[i].id)
}

/// `{{EnemiesAppearing|name|name...}}` for the enemy ids `ids`.
pub open spec fn appearing_text(ids: Seq<u32>, data: &EnemyDataContainer) -> Seq<char>
    decreases ids.len(),
{
    if ids.len() == 0 {
        "{{EnemiesAppearing"@
    } else {
        appearing_text(ids.drop_last(), data) + seq!['|'] + data.spec_data()[ids.last()].name@
    }
}

/// The `{{EnemiesAppearing}}` template of the stage: the common name of each
/// enemy in order of first appearance, enemy 21 left out.
pub fn enemies_appearing(stage: &Stage, data: &EnemyDataContainer) -> (s: String)
    requires
        enemies_named(stage.enemies@, data),
    ensures
        s@ == appearing_text(appearing_ids(stage.enemies@), data) + "}}"@,
{
    let enemies = &stage.enemies;
    let ghost es = enemies@;
    let mut out: Vec<char> = Vec::new();
    push_str(&mut out, "{{EnemiesAppearing");
    let mut displayed: Vec<u32> = Vec::new();
    let mut k: usize = 0;
    assert(es.take(0) =~= Seq::<StageEnemy>::empty());
    while k < enemies.len()
        invariant
            0 <= k <= enemies.len(),
            es == enemies@,
            enemies_named(es, data),
            displayed@ == appearing_ids(es.take(k as int)),
            out@ == appearing_text(displayed@, data),
        decreases enemies.len() - k,
    {
        let id = enemies[k].id;
        let ghost p = es.take(k + 1);
        assert(p.drop_last() =~= es.take(k as int));
        assert(p.last() == es[k as int]);
        let mut seen = false;
        let mut j: usize = 0;
        while j < displayed.len()
            invariant
                0 <= j <= displayed.len(),
                seen == exists|q: int| 0 <= q < j && displayed@[q] == id,
            decreases displayed.len() - j,
        {
            if displayed[j] == id {
                seen = true;
            }
            j = j + 1;
        }
        assert(seen == displayed@.contains(id));
        if id != 21 && !seen {
            let ghost before = displayed@;
            assert(data.spec_data().contains_key(id)) by {
                assert(es[k as int].id == id);
            }
            let name = data.get_common_name(id);
            out.push('|');
            push_str(&mut out, name);
            displayed.push(id);
            assert(displayed@.drop_last() =~= before);
        }
        k = k + 1;
    }
    assert(es.take(k as int) =~= es);
    push_str(&mut out, "}}");
    string_from(&out)
}

/// English ordinal of `n`: words up to ninth, else the last two digits of
/// `n` with `st`, `nd`, `rd` or `th`.
pub open spec fn ordinal(n: u32) -> Seq<char> {
    if n <= 9 {
        seq![
            "first"@, "second"@, "third"@, "fourth"@, "fifth"@, "sixth"@, "seventh"@, "eighth"@,
            "ninth"@,
        ][n - 1]
    } else {
        let m = n % 100;
        decimal(m as nat) + if 11 <= m <= 13 {
            "th"@
        } else if m % 10 == 1 {
            "st"@
        } else if m % 10 == 2 {
            "nd"@
        } else if m % 10 == 3 {
            "rd"@
        } else {
            "th"@
        }
    }
}

/// Get the ordinal of `n`.
pub fn get_ordinal(n: u32) -> (s: String)
    requires
        n >= 1,
    ensures
        s@ == ordinal(n),
{
    if n <= 9 {
        let w = if n == 1 {
            "first"
        } else if n == 2 {
            "second"
        } else if n == 3 {
            "third"
        } else if n == 4 {
            "fourth"
        } else if n == 5 {
            "fifth"
        } else if n == 6 {
            "sixth"
        } else if n == 7 {
            "seventh"
        } else if n == 8 {
            "eighth"
        } else {
            "ninth"
        };
        return w.to_string();
    }
    let m = n % 100;
    let mut out: Vec<char> = Vec::new();
    push_decimal(&mut out, m as u64);
    if 11 <= m && m <= 13 {
        push_str(&mut out, "th");
    } else if m % 10 == 1 {
        push_str(&mut out, "st");
    } else if m % 10 == 2 {
        push_str(&mut out, "nd");
    } else if m % 10 == 3 {
        push_str(&mut out, "rd");
    } else {
        push_str(&mut out, "th");
    }
    string_from(&out)
}

} // verus!
