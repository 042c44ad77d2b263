//! Deals with the stage's rewards.
//!
//! Percentages that are quotients of drop chances are worked out with
//! floating point by the caller and handed in as text, one per treasure;
//! everything else is written here.

use crate::stage::parsed::stage::{ScoreReward, Stage, StageRewards, TreasureDrop, TreasureType};
use crate::text::{append_str, decimal, ends_with, join, starts_with, push_decimal, push_str, string_from, strings_view};
use vstd::string::StrSliceExecFns;
use crate::wiki_data::rewards::TreasureMap;
use crate::wikitext::number_utils::{en_formatted, format_en};
use crate::wikitext::template::TemplateParameter;
use vstd::prelude::*;

verus! {

/// Is the reward a cat unit or true form?
pub open spec fn is_unit(id: u32) -> bool {
    1_000 <= id < 30_000
}

/// Is the reward a cat unit or true form?
pub fn is_unit_drop(id: u32) -> (b: bool)
    ensures
        b == is_unit(id),
{
    1_000 <= id && id < 30_000
}

/// Item name and amount: `50,000 XP`, a unit's name alone, or
/// `Treasure Radar +1`.
pub open spec fn name_and_amount(names: &TreasureMap, id: u32, amt: u32) -> Seq<char> {
    let name = names.spec_map()[id].name@;
    if id == 6 {
        en_formatted(amt as nat) + seq![' '] + name
    } else if is_unit(id) {
        name
    } else {
        name + " +"@ + en_formatted(amt as nat)
    }
}

/// Write item name and amount e.g. `50,000 XP` or `Treasure Radar +1`.
pub fn write_name_and_amount(buf: &mut String, names: &TreasureMap, id: u32, amt: u32)
    requires
        names.spec_map().contains_key(id),
    ensures
        final(buf)@ == old(buf)@ + name_and_amount(names, id, amt),
{
    if id == 6 {
        proof {
            reveal_strlit(" ");
        }
        let f = format_en(amt as u64);
        append_str(buf, f.as_str());
        append_str(buf, " ");
        append_str(buf, names.get_treasure_name(id));
        assert(buf@ =~= old(buf)@ + name_and_amount(names, id, amt));
        return;
    }
    if is_unit_drop(id) {
        append_str(buf, names.get_treasure_name(id));
        return;
    }
    append_str(buf, names.get_treasure_name(id));
    append_str(buf, " +");
    let f = format_en(amt as u64);
    append_str(buf, f.as_str());
    assert(buf@ =~= old(buf)@ + name_and_amount(names, id, amt));
}

/// How many times an item can drop: units once, anything else without
/// limit.
pub open spec fn limit_text(id: u32) -> Seq<char> {
    if is_unit(id) {
        "1 time"@
    } else {
        "unlimited"@
    }
}

/// Line of a treasure that can drop repeatedly: `- {item} ({chance}%, {limit})`.
pub open spec fn unlimited_line(names: &TreasureMap, t: TreasureDrop, chance: Seq<char>) -> Seq<char> {
    "- "@ + name_and_amount(names, t.item_id, t.item_amt) + " ("@ + chance + "%, "@ + limit_text(t.item_id)
        + seq![')']
}

/// Lines of the treasures from `k` on that have a chance of dropping.
pub open spec fn unlimited_lines(names: &TreasureMap, t: Seq<TreasureDrop>, chances: Seq<Seq<char>>, k: int) -> Seq<
    Seq<char>,
>
    decreases t.len() - k,
{
    if k < 0 || k >= t.len() {
        Seq::empty()
    } else if t[k].item_chance == 0 {
        unlimited_lines(names, t, chances, k + 1)
    } else {
        seq![unlimited_line(names, t[k], chances[k])] + unlimited_lines(names, t, chances, k + 1)
    }
}

/// Lemma: the line of a repeatable drop starts with the item and ends with
/// `1 time)` for a unit and `unlimited)` for anything else.
proof fn lemma_unlimited_line_limit(names: &TreasureMap, t: TreasureDrop, chance: Seq<char>)
    ensures
        starts_with(unlimited_line(names, t, chance), "- "@ + name_and_amount(names, t.item_id, t.item_amt)),
        1_000 <= t.item_id < 30_000 ==> ends_with(unlimited_line(names, t, chance), "1 time)"@),
        !(1_000 <= t.item_id < 30_000) ==> ends_with(unlimited_line(names, t, chance), "unlimited)"@),
{
    let line = unlimited_line(names, t, chance);
    let head = "- "@ + name_and_amount(names, t.item_id, t.item_amt);
    let lim = limit_text(t.item_id) + seq![')'];
    assert(line =~= head + (" ("@ + chance + "%, "@) + lim);
    assert(line.subrange(0, head.len() as int) =~= head);
    assert(line.subrange(line.len() - lim.len(), line.len() as int) =~= lim);
    reveal_strlit("1 time");
    reveal_strlit("unlimited");
    reveal_strlit("1 time)");
    reveal_strlit("unlimited)");
    assert(lim =~= (if 1_000 <= t.item_id < 30_000 { "1 time)"@ } else { "unlimited)"@ }));
}

/// Law: each line of a list of repeatable drops belongs to an item that can
/// drop, starts with that item, and gives its limit: `1 time` exactly for a
/// cat unit or true form (ids 1000 to 29999), `unlimited` for anything else.
pub proof fn law_unlimited_limits(names: &TreasureMap, t: Seq<TreasureDrop>, chances: Seq<Seq<char>>, k: int)
    requires
        0 <= k,
    ensures
        forall|j: int| 0 <= j < unlimited_lines(names, t, chances, k).len() ==> exists|i: int|
            k <= i < t.len() && t[i].item_chance != 0 && starts_with(
                #[trigger] unlimited_lines(names, t, chances, k)[j],
                "- "@ + name_and_amount(names, t[i].item_id, t[i].item_amt),
            ) && (1_000 <= t[i].item_id < 30_000 ==> ends_with(unlimited_lines(names, t, chances, k)[j], "1 time)"@))
                && (!(1_000 <= t[i].item_id < 30_000) ==> ends_with(
                unlimited_lines(names, t, chances, k)[j],
                "unlimited)"@,
            )),
    decreases t.len() - k,
{
    if k < t.len() {
        law_unlimited_limits(names, t, chances, k + 1);
        let rest = unlimited_lines(names, t, chances, k + 1);
        let lines = unlimited_lines(names, t, chances, k);
        if t[k].item_chance != 0 {
            lemma_unlimited_line_limit(names, t[k], chances[k]);
            assert(lines == seq![unlimited_line(names, t[k], chances[k])] + rest);
            assert forall|j: int| 0 <= j < lines.len() implies exists|i: int|
                k <= i < t.len() && t[i].item_chance != 0 && starts_with(
                    #[trigger] lines[j],
                    "- "@ + name_and_amount(names, t[i].item_id, t[i].item_amt),
                ) && (1_000 <= t[i].item_id < 30_000 ==> ends_with(lines[j], "1 time)"@)) && (!(1_000 <= t[i].item_id
                    < 30_000) ==> ends_with(lines[j], "unlimited)"@)) by {
                if j == 0 {
                    assert(lines[0] == unlimited_line(names, t[k], chances[k]));
                    assert(k <= k < t.len() && t[k].item_chance != 0);
                } else {
                    assert(lines[j] == rest[j - 1]);
                    let i = choose|i: int|
                        k + 1 <= i < t.len() && t[i].item_chance != 0 && starts_with(
                            #[trigger] rest[j - 1],
                            "- "@ + name_and_amount(names, t[i].item_id, t[i].item_amt),
                        ) && (1_000 <= t[i].item_id < 30_000 ==> ends_with(rest[j - 1], "1 time)"@)) && (!(1_000
                            <= t[i].item_id < 30_000) ==> ends_with(rest[j - 1], "unlimited)"@));
                    assert(k <= i < t.len());
                }
            }
        } else {
            assert(lines == rest);
            assert forall|j: int| 0 <= j < lines.len() implies exists|i: int|
                k <= i < t.len() && t[i].item_chance != 0 && starts_with(
                    #[trigger] lines[j],
                    "- "@ + name_and_amount(names, t[i].item_id, t[i].item_amt),
                ) && (1_000 <= t[i].item_id < 30_000 ==> ends_with(lines[j], "1 time)"@)) && (!(1_000 <= t[i].item_id
                    < 30_000) ==> ends_with(lines[j], "unlimited)"@)) by {
                let i = choose|i: int|
                    k + 1 <= i < t.len() && t[i].item_chance != 0 && starts_with(
                        #[trigger] rest[j],
                        "- "@ + name_and_amount(names, t[i].item_id, t[i].item_amt),
                    ) && (1_000 <= t[i].item_id < 30_000 ==> ends_with(rest[j], "1 time)"@)) && (!(1_000
                        <= t[i].item_id < 30_000) ==> ends_with(rest[j], "unlimited)"@));
                assert(k <= i < t.len());
            }
        }
    }
}

/// Treasures from `k` on that have a chance of dropping are named.
pub open spec fn named_from(names: &TreasureMap, t: Seq<TreasureDrop>, k: int) -> bool {
    forall|i: int| k <= i < t.len() && t[i].item_chance != 0 ==> names.spec_map().contains_key(#[trigger] t[i].item_id)
}

/// The first treasure drops once, then the rest without limit.
pub open spec fn once_then_unlimited_text(names: &TreasureMap, t: Seq<TreasureDrop>, chances: Seq<Seq<char>>) -> Seq<char> {
    let lines = unlimited_lines(names, t, chances, 1);
    "- "@ + name_and_amount(names, t[0].item_id, t[0].item_amt) + " ("@ + decimal(t[0].item_chance as nat)
        + "%, 1 time)"@ + if lines.len() == 0 {
        Seq::<char>::empty()
    } else {
        "<br>\n"@ + join(lines, "<br>\n"@)
    }
}

/// Every treasure that can drop does so without limit.
pub open spec fn all_unlimited_text(names: &TreasureMap, t: Seq<TreasureDrop>, chances: Seq<Seq<char>>) -> Seq<char> {
    join(unlimited_lines(names, t, chances, 0), "<br>\n"@)
}

/// Append the line of a treasure that can drop repeatedly.
fn push_unlimited_line(out: &mut Vec<char>, names: &TreasureMap, item: TreasureDrop, chance: &str)
    requires
        names.spec_map().contains_key(item.item_id),
    ensures
        final(out)@ == old(out)@ + unlimited_line(names, item, chance@),
{
    let mut line = "- ".to_string();
    write_name_and_amount(&mut line, names, item.item_id, item.item_amt);
    push_str(out, line.as_str());
    push_str(out, " (");
    push_str(out, chance);
    push_str(out, "%, ");
    if is_unit_drop(item.item_id) {
        push_str(out, "1 time");
    } else {
        push_str(out, "unlimited");
    }
    out.push(')');
    proof {
        reveal_strlit("- ");
    }
    assert(out@ =~= old(out)@ + unlimited_line(names, item, chance@));
}

/// Append the lines of the treasures from `k` on that have a chance of
/// dropping, each after `"<br>\n"` except the very first line written.
fn push_unlimited_lines(
    out: &mut Vec<char>,
    names: &TreasureMap,
    t: &Vec<TreasureDrop>,
    chances: &Vec<String>,
    start: usize,
    lead: bool,
)
    requires
        chances.len() == t.len(),
        start <= t.len(),
        named_from(names, t@, start as int),
    ensures
        final(out)@ == old(out)@ + if unlimited_lines(names, t@, strings_view(chances@), start as int).len() == 0 {
            Seq::<char>::empty()
        } else {
            (if lead {
                "<br>\n"@
            } else {
                Seq::<char>::empty()
            }) + join(unlimited_lines(names, t@, strings_view(chances@), start as int), "<br>\n"@)
        },
{
    let ghost cv = strings_view(chances@);
    let ghost all = unlimited_lines(names, t@, cv, start as int);
    let ghost base = out@;
    let ghost lead_text = if lead { "<br>\n"@ } else { Seq::<char>::empty() };
    let ghost mut done: Seq<Seq<char>> = Seq::empty();
    let mut k: usize = start;
    let mut written: bool = false;
    assert(all =~= done + unlimited_lines(names, t@, cv, k as int));
    while k < t.len()
        invariant
            start <= k <= t.len(),
            chances.len() == t.len(),
            cv == strings_view(chances@),
            all == unlimited_lines(names, t@, cv, start as int),
            named_from(names, t@, start as int),
            base == old(out)@,
            lead_text == if lead { "<br>\n"@ } else { Seq::<char>::empty() },
            all == done + unlimited_lines(names, t@, cv, k as int),
            written == (done.len() > 0),
            out@ == base + if !written { Seq::<char>::empty() } else { lead_text + join(done, "<br>\n"@) },
        decreases t.len() - k,
    {
        let item = t[k];
        if item.item_chance != 0 {
            let ghost before = out@;
            if written || lead {
                push_str(out, "<br>\n");
            }
            let ghost mid = out@;
            push_unlimited_line(out, names, item, chances[k].as_str());
            proof {
                let ln = unlimited_line(names, t@[k as int], cv[k as int]);
                assert(out@ == mid + ln);
                let new_done = done.push(ln);
                assert(new_done.drop_last() =~= done);
                assert(all =~= new_done + unlimited_lines(names, t@, cv, k + 1));
                if written {
                    assert(join(new_done, "<br>\n"@) == join(done, "<br>\n"@) + "<br>\n"@ + ln);
                    assert(out@ =~= base + (lead_text + join(new_done, "<br>\n"@)));
                } else {
                    assert(join(new_done, "<br>\n"@) == ln);
                    assert(out@ =~= base + (lead_text + join(new_done, "<br>\n"@)));
                }
                done = new_done;
            }
            written = true;
        }
        k = k + 1;
    }
    assert(all =~= done);
}

/// When the first item drops once and the rest without limit.
fn once_then_unlimited(rewards: &StageRewards, names: &TreasureMap, chances: &Vec<String>) -> (s: String)
    requires
        rewards.treasure_drop.len() >= 1,
        chances.len() == rewards.treasure_drop.len(),
        names.spec_map().contains_key(rewards.treasure_drop@[0].item_id),
        named_from(names, rewards.treasure_drop@, 1),
    ensures
        s@ == once_then_unlimited_text(names, rewards.treasure_drop@, strings_view(chances@)),
{
    let t = &rewards.treasure_drop;
    let mut line = "- ".to_string();
    write_name_and_amount(&mut line, names, t[0].item_id, t[0].item_amt);
    let mut out: Vec<char> = Vec::new();
    push_str(&mut out, line.as_str());
    push_str(&mut out, " (");
    push_decimal(&mut out, t[0].item_chance as u64);
    push_str(&mut out, "%, 1 time)");
    push_unlimited_lines(&mut out, names, t, chances, 1, true);
    proof {
        reveal_strlit("- ");
    }
    assert(out@ =~= once_then_unlimited_text(names, t@, strings_view(chances@)));
    string_from(&out)
}

/// When all items can drop without limit.
fn all_unlimited(rewards: &StageRewards, names: &TreasureMap, chances: &Vec<String>) -> (s: String)
    requires
        chances.len() == rewards.treasure_drop.len(),
        named_from(names, rewards.treasure_drop@, 0),
    ensures
        s@ == all_unlimited_text(names, rewards.treasure_drop@, strings_view(chances@)),
{
    let mut out: Vec<char> = Vec::new();
    push_unlimited_lines(&mut out, names, &rewards.treasure_drop, chances, 0, false);
    assert(out@ =~= all_unlimited_text(names, rewards.treasure_drop@, strings_view(chances@)));
    string_from(&out)
}

/// A single raw drop: nothing where it cannot drop, else
/// `- {item} ({chance}%, 1 time)`.
pub open spec fn single_raw_text(names: &TreasureMap, t: TreasureDrop) -> Seq<char> {
    if t.item_chance == 0 {
        Seq::empty()
    } else {
        "- "@ + name_and_amount(names, t.item_id, t.item_amt) + " ("@ + decimal(t.item_chance as nat)
            + "%, 1 time)"@
    }
}

/// For the treasure type that appears to be a single raw drop.
fn single_raw(rewards: &StageRewards, names: &TreasureMap) -> (s: String)
    requires
        rewards.treasure_drop.len() == 1,
        rewards.treasure_drop@[0].item_chance != 0 ==> names.spec_map().contains_key(
            rewards.treasure_drop@[0].item_id,
        ),
    ensures
        s@ == single_raw_text(names, rewards.treasure_drop@[0]),
{
    let t = &rewards.treasure_drop;
    if t[0].item_chance == 0 {
        return String::new();
    }
    let mut buf = "- ".to_string();
    write_name_and_amount(&mut buf, names, t[0].item_id, t[0].item_amt);
    let mut out: Vec<char> = Vec::new();
    push_str(&mut out, buf.as_str());
    push_str(&mut out, " (");
    push_decimal(&mut out, t[0].item_chance as u64);
    push_str(&mut out, "%, 1 time)");
    proof {
        reveal_strlit("- ");
    }
    assert(out@ =~= single_raw_text(names, t@[0]));
    string_from(&out)
}

/// All treasures have the chance of the first.
pub open spec fn equal_chances(t: Seq<TreasureDrop>) -> bool {
    forall|i: int| 0 <= i < t.len() ==> (#[trigger] t[i]).item_chance == t[0].item_chance
}

/// Guaranteed treasure: a lone item at 100%, or one of the items, each with
/// its share where the shares differ.
pub open spec fn guaranteed_text(
    names: &TreasureMap,
    t: Seq<TreasureDrop>,
    chances: Seq<Seq<char>>,
    limit: Seq<char>,
) -> Seq<char> {
    if t.len() == 1 {
        "- "@ + name_and_amount(names, t[0].item_id, t[0].item_amt) + " (100%, "@ + limit + seq![')']
    } else {
        "One of the following ("@ + limit + "):"@ + guaranteed_lines(names, t, chances, t.len() as int)
    }
}

/// Lines of the first `k` guaranteed treasures.
pub open spec fn guaranteed_lines(names: &TreasureMap, t: Seq<TreasureDrop>, chances: Seq<Seq<char>>, k: int) -> Seq<
    char,
>
    decreases k,
{
    if k <= 0 {
        Seq::empty()
    } else {
        guaranteed_lines(names, t, chances, k - 1) + "<br>\n- "@ + name_and_amount(
            names,
            t[k - 1].item_id,
            t[k - 1].item_amt,
        ) + if equal_chances(t) {
            Seq::<char>::empty()
        } else {
            " ("@ + chances[k - 1] + "%)"@
        }
    }
}

/// When a treasure is guaranteed, once (`limit` "1 time") or without limit
/// (`limit` "unlimited").
fn guaranteed(rewards: &StageRewards, names: &TreasureMap, chances: &Vec<String>, limit: &str) -> (s: String)
    requires
        rewards.treasure_drop.len() >= 1,
        chances.len() == rewards.treasure_drop.len(),
        forall|i: int| 0 <= i < rewards.treasure_drop@.len() ==> names.spec_map().contains_key(
            #[trigger] rewards.treasure_drop@[i].item_id,
        ),
    ensures
        s@ == guaranteed_text(names, rewards.treasure_drop@, strings_view(chances@), limit@),
{
    let t = &rewards.treasure_drop;
    let ghost tv = t@;
    let ghost cv = strings_view(chances@);
    let mut out: Vec<char> = Vec::new();
    if t.len() == 1 {
        let mut line = "- ".to_string();
        write_name_and_amount(&mut line, names, t[0].item_id, t[0].item_amt);
        push_str(&mut out, line.as_str());
        push_str(&mut out, " (100%, ");
        push_str(&mut out, limit);
        out.push(')');
        proof {
            reveal_strlit("- ");
        }
        assert(out@ =~= guaranteed_text(names, tv, cv, limit@));
        return string_from(&out);
    }
    let mut is_equal_chance = true;
    let first = t[0].item_chance;
    let mut i: usize = 0;
    while i < t.len()
        invariant
            0 <= i <= t.len(),
            tv == t@,
            first == tv[0].item_chance,
            is_equal_chance == forall|j: int| 0 <= j < i ==> (#[trigger] tv[j]).item_chance == first,
        decreases t.len() - i,
    {
        if t[i].item_chance != first {
            is_equal_chance = false;
        }
        i = i + 1;
    }
    assert(is_equal_chance == equal_chances(tv));
    push_str(&mut out, "One of the following (");
    push_str(&mut out, limit);
    push_str(&mut out, "):");
    let ghost head = out@;
    let mut k: usize = 0;
    while k < t.len()
        invariant
            0 <= k <= t.len(),
            tv == t@,
            cv == strings_view(chances@),
            chances.len() == t.len(),
            is_equal_chance == equal_chances(tv),
            forall|j: int| 0 <= j < tv.len() ==> names.spec_map().contains_key(#[trigger] tv[j].item_id),
            out@ == head + guaranteed_lines(names, tv, cv, k as int),
        decreases t.len() - k,
    {
        let mut line = "<br>\n- ".to_string();
        write_name_and_amount(&mut line, names, t[k].item_id, t[k].item_amt);
        push_str(&mut out, line.as_str());
        if !is_equal_chance {
            push_str(&mut out, " (");
            push_str(&mut out, chances[k].as_str());
            push_str(&mut out, "%)");
        }
        proof {
            reveal_strlit("<br>\n- ");
        }
        assert(out@ =~= head + guaranteed_lines(names, tv, cv, k + 1));
        k = k + 1;
    }
    assert(out@ =~= guaranteed_text(names, tv, cv, limit@));
    string_from(&out)
}

/// The treasures a stage's rewards need names for: every treasure for the
/// guaranteed types, those that can drop otherwise (and the first for the
/// once-then-unlimited type).
pub open spec fn treasure_named(names: &TreasureMap, r: StageRewards) -> bool {
    let t = r.treasure_drop@;
    match r.treasure_type {
        TreasureType::OnceThenUnlimited => t.len() >= 1 && names.spec_map().contains_key(t[0].item_id)
            && named_from(names, t, 1),
        TreasureType::AllUnlimited => named_from(names, t, 0),
        TreasureType::UnclearMaybeRaw => t.len() == 1 && (t[0].item_chance != 0 ==> names.spec_map().contains_key(
            t[0].item_id,
        )),
        TreasureType::GuaranteedOnce | TreasureType::GuaranteedUnlimited => t.len() >= 1 && forall|i: int|
            0 <= i < t.len() ==> names.spec_map().contains_key(#[trigger] t[i].item_id),
    }
}

/// Text of a stage's treasures, `chances` holding the percentage text for
/// each treasure where one is shown.
pub open spec fn treasure_text(names: &TreasureMap, r: StageRewards, chances: Seq<Seq<char>>) -> Seq<char> {
    let t = r.treasure_drop@;
    match r.treasure_type {
        TreasureType::OnceThenUnlimited => once_then_unlimited_text(names, t, chances),
        TreasureType::AllUnlimited => all_unlimited_text(names, t, chances),
        TreasureType::UnclearMaybeRaw => single_raw_text(names, t[0]),
        TreasureType::GuaranteedOnce => guaranteed_text(names, t, chances, "1 time"@),
        TreasureType::GuaranteedUnlimited => guaranteed_text(names, t, chances, "unlimited"@),
    }
}

/// Get the `treasure` parameter of Stage Info: `chances` holds, for each
/// treasure, the text of the percentage shown with it where one is shown
/// (other entries are not read).
pub fn treasure(stage: &Stage, names: &TreasureMap, chances: &Vec<String>) -> (p: Option<TemplateParameter>)
    requires
        stage.rewards matches Some(r) ==> treasure_named(names, r) && chances.len() == r.treasure_drop.len(),
    ensures
        match stage.rewards {
            None => p is None,
            Some(r) => {
                let text = treasure_text(names, r, strings_view(chances@));
                if text.len() == 0 {
                    p is None
                } else {
                    p matches Some(t) && t@ == ("treasure"@, text)
                }
            },
        },
{
    let rewards = match &stage.rewards {
        None => {
            return None;
        },
        Some(r) => r,
    };
    let text = match rewards.treasure_type {
        TreasureType::OnceThenUnlimited => once_then_unlimited(rewards, names, chances),
        TreasureType::AllUnlimited => all_unlimited(rewards, names, chances),
        TreasureType::UnclearMaybeRaw => single_raw(rewards, names),
        TreasureType::GuaranteedOnce => guaranteed(rewards, names, chances, "1 time"),
        TreasureType::GuaranteedUnlimited => guaranteed(rewards, names, chances, "unlimited"),
    };
    proof {
        reveal_strlit("1 time");
        reveal_strlit("unlimited");
    }
    if text.as_str().unicode_len() == 0 {
        None
    } else {
        Some(TemplateParameter::new("treasure".to_string(), text))
    }
}

/// Line of a score reward: `'''{score}''': {item}`.
pub open spec fn score_line(names: &TreasureMap, r: ScoreReward) -> Seq<char> {
    "'''"@ + en_formatted(r.score as nat) + "''': "@ + name_and_amount(names, r.item_id, r.item_amt)
}

/// Get the `score reward` parameter of Stage Info.
pub fn score_rewards(stage: &Stage, names: &TreasureMap) -> (p: Option<TemplateParameter>)
    requires
        stage.rewards matches Some(r) ==> forall|i: int| 0 <= i < r.score_rewards@.len() ==> names.spec_map().contains_key(
            #[trigger] r.score_rewards@[i].item_id,
        ),
    ensures
        match stage.rewards {
            Some(r) if r.score_rewards@.len() > 0 => p matches Some(t) && t@ == (
                "score reward"@,
                join(Seq::new(r.score_rewards@.len(), |i: int| score_line(names, r.score_rewards@[i])), "<br>\n"@),
            ),
            _ => p is None,
        },
{
    let rewards = match &stage.rewards {
        None => {
            return None;
        },
        Some(r) => &r.score_rewards,
    };
    if rewards.len() == 0 {
        return None;
    }
    let ghost rv = rewards@;
    let mut lines: Vec<String> = Vec::new();
    let mut i: usize = 0;
    while i < rewards.len()
        invariant
            0 <= i <= rewards.len(),
            rv == rewards@,
            forall|j: int| 0 <= j < rv.len() ==> names.spec_map().contains_key(#[trigger] rv[j].item_id),
            lines.len() == i,
            forall|j: int| 0 <= j < i ==> (#[trigger] lines@[j])@ == score_line(names, rv[j]),
        decreases rewards.len() - i,
    {
        let r = rewards[i];
        let mut buf = "'''".to_string();
        let f = format_en(r.score as u64);
        append_str(&mut buf, f.as_str());
        append_str(&mut buf, "''': ");
        write_name_and_amount(&mut buf, names, r.item_id, r.item_amt);
        proof {
            reveal_strlit("'''");
        }
        assert(buf@ =~= score_line(names, r));
        lines.push(buf);
        i = i + 1;
    }
    assert(strings_view(lines@) =~= Seq::new(rv.len(), |j: int| score_line(names, rv[j])));
    let mut out: Vec<char> = Vec::new();
    crate::text::push_join(&mut out, &lines, "<br>\n");
    assert(out@ =~= join(Seq::new(rv.len(), |j: int| score_line(names, rv[j])), "<br>\n"@));
    Some(TemplateParameter::new("score reward".to_string(), string_from(&out)))
}

} // verus!
