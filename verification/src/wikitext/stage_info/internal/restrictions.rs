//! Get the stage's restrictions.

use crate::stage::parsed::stage::{Restriction, RestrictionCrowns, Stage};
use crate::stage::stage_option::charagroups::{CharaGroup, CharaGroupType};
use crate::text::{
    decimal, join, push_decimal, push_join, push_str, str_eq, string_from, strings_view,
};
use crate::wiki_data::cat_data::CatDataContainer;
use crate::wikitext::number_utils::{en_formatted, format_en};
use crate::wikitext::template::TemplateParameter;
use vstd::prelude::*;

verus! {

/// `2` to the power `i`.
pub open spec fn pow2(i: nat) -> nat
    decreases i,
{
    if i == 0 {
        1
    } else {
        2 * pow2((i - 1) as nat)
    }
}

/// Is bit `i` of `r` set?
pub open spec fn has_bit(r: u8, i: nat) -> bool {
    (r as nat / pow2(i)) % 2 == 1
}

/// Wiki link of rarity `i`.
pub open spec fn rarity_name(i: nat) -> Seq<char> {
    if i == 0 {
        "[[:Category:Normal Cats|Normal]]"@
    } else if i == 1 {
        "[[:Category:Special Cats|Special]]"@
    } else if i == 2 {
        "[[:Category:Rare Cats|Rare]]"@
    } else if i == 3 {
        "[[:Category:Super Rare Cats|Super Rare]]"@
    } else if i == 4 {
        "[[:Category:Uber Rare Cats|Uber Rare]]"@
    } else {
        "[[:Category:Legend Rare Cats|Legend Rare]]"@
    }
}

/// Names of the rarities among the first `k` whose bits are set in `r`.
pub open spec fn rarities_upto(r: u8, k: nat) -> Seq<Seq<char>>
    decreases k,
{
    if k == 0 {
        Seq::empty()
    } else if has_bit(r, (k - 1) as nat) {
        rarities_upto(r, (k - 1) as nat).push(rarity_name((k - 1) as nat))
    } else {
        rarities_upto(r, (k - 1) as nat)
    }
}

/// Names of the six rarities whose bits are set in `r`, in order.
pub open spec fn rarities(r: u8) -> Seq<Seq<char>> {
    rarities_upto(r, 6)
}

/// A list read as prose: `a`, `a and b`, `a, b and c`.
pub open spec fn join_and(items: Seq<Seq<char>>) -> Seq<char> {
    if items.len() == 1 {
        items[0]
    } else {
        join(items.drop_last(), ", "@) + " and "@ + items.last()
    }
}

/// Text of a rarity restriction.
pub open spec fn rarity_text(r: u8) -> Seq<char> {
    "Rarity: Only "@ + join_and(rarities(r))
}

/// Links of the units of a group.
pub open spec fn unit_links(cats: &CatDataContainer, units: Seq<u32>) -> Seq<Seq<char>> {
    Seq::new(units.len(), |i: int| cats.cat_link_text(units[i] as int))
}

/// Text of a cat group restriction.
pub open spec fn charagroup_text(cats: &CatDataContainer, g: CharaGroup) -> Seq<char> {
    "Unit Restriction: "@ + match g.group_type {
        CharaGroupType::OnlyUse => "Only"@,
        CharaGroupType::CannotUse => "Cannot use"@,
    } + " "@ + join_and(unit_links(cats, g.units@))
}

/// `Some(x)` as a one-item list, `None` as an empty one.
pub open spec fn opt_item(o: Option<Seq<char>>) -> Seq<Seq<char>> {
    match o {
        Some(x) => seq![x],
        None => Seq::empty(),
    }
}

/// The restriction texts that one restriction stands for, in order: rarity,
/// deploy limit, row, minimum cost, maximum cost, cat group.
pub open spec fn single_texts(cats: &CatDataContainer, r: Restriction) -> Seq<Seq<char>> {
    opt_item(
        match r.rarity {
            Some(v) => Some(rarity_text(v)),
            None => None,
        },
    ) + opt_item(
        match r.deploy_limit {
            Some(v) => Some("Max # of Deployable Cats: "@ + decimal(v as nat)),
            None => None,
        },
    ) + opt_item(
        match r.rows {
            Some(v) => Some("Deploy from Row "@ + decimal(v as nat) + " only"@),
            None => None,
        },
    ) + opt_item(
        match r.min_cost {
            Some(v) => Some("Cat Deploy Cost: Only "@ + en_formatted(v as nat) + "¢ or more"@),
            None => None,
        },
    ) + opt_item(
        match r.max_cost {
            Some(v) => Some("Cat Deploy Cost: Only "@ + en_formatted(v as nat) + "¢ or less"@),
            None => None,
        },
    ) + opt_item(
        match r.charagroup {
            Some(g) => Some(charagroup_text(cats, g)),
            None => None,
        },
    )
}

/// A restriction can be written: its rarity names at least one of the six
/// rarities, and its cat group is not empty and holds only known cats.
pub open spec fn single_ok(cats: &CatDataContainer, r: Restriction) -> bool {
    &&& (r.rarity matches Some(v) ==> rarities(v).len() > 0)
    &&& (r.charagroup matches Some(g) ==> g.units@.len() > 0 && forall|i: int|
        0 <= i < g.units@.len() ==> (#[trigger] g.units@[i]) < cats.spec_names().len())
}

/// Lemma: the powers of two up to the sixth fit in a byte's range.
proof fn lemma_pow2_small(i: nat)
    requires
        i < 6,
    ensures
        1 <= pow2(i) <= 32,
        pow2(i + 1) == 2 * pow2(i),
{
    reveal_with_fuel(pow2, 7);
}

/// Lemma: one more rarity is looked at.
proof fn lemma_rarities_step(r: u8, k: nat)
    ensures
        rarities_upto(r, k + 1) == if has_bit(r, k) {
            rarities_upto(r, k).push(rarity_name(k))
        } else {
            rarities_upto(r, k)
        },
{
}

/// Append `items` read as prose (`a, b and c`).
fn push_join_and(out: &mut Vec<char>, items: &Vec<String>)
    requires
        items.len() >= 1,
    ensures
        final(out)@ == old(out)@ + join_and(strings_view(items@)),
{
    let ghost all = strings_view(items@);
    let ghost base = out@;
    if items.len() == 1 {
        push_str(out, items[0].as_str());
        assert(out@ =~= base + join_and(all));
    } else {
        let n = items.len() - 1;
        let mut i: usize = 0;
        assert(base + join(all.take(0), ", "@) =~= base);
        while i < n
            invariant
                0 <= i <= n,
                n == items.len() - 1,
                all == strings_view(items@),
                base == old(out)@,
                out@ == base + join(all.take(i as int), ", "@),
            decreases n - i,
        {
            if i > 0 {
                push_str(out, ", ");
            }
            push_str(out, items[i].as_str());
            proof {
                let t = all.take(i + 1);
                assert(t.drop_last() =~= all.take(i as int));
                assert(t.last() == items@[i as int]@);
                assert(out@ =~= base + join(t, ", "@));
            }
            i = i + 1;
        }
        assert(all.take(n as int) =~= all.drop_last());
        push_str(out, " and ");
        push_str(out, items[n].as_str());
        assert(out@ =~= old(out)@ + join_and(all));
    }
}

/// Get only rarities allowed.
fn get_rarity_restriction(rarity: u8) -> (s: String)
    requires
        rarities(rarity).len() > 0,
    ensures
        s@ == rarity_text(rarity),
{
    let mut names: Vec<String> = Vec::new();
    let mut i: u8 = 0;
    let mut d: u32 = 1;
    while i < 6
        invariant
            0 <= i <= 6,
            d as nat == pow2(i as nat),
            1 <= d <= 64,
            strings_view(names@) == rarities_upto(rarity, i as nat),
        decreases 6 - i,
    {
        proof {
            lemma_rarities_step(rarity, i as nat);
            lemma_pow2_small(i as nat);
        }
        if (rarity as u32 / d) % 2 == 1 {
            let name = if i == 0 {
                "[[:Category:Normal Cats|Normal]]"
            } else if i == 1 {
                "[[:Category:Special Cats|Special]]"
            } else if i == 2 {
                "[[:Category:Rare Cats|Rare]]"
            } else if i == 3 {
                "[[:Category:Super Rare Cats|Super Rare]]"
            } else if i == 4 {
                "[[:Category:Uber Rare Cats|Uber Rare]]"
            } else {
                "[[:Category:Legend Rare Cats|Legend Rare]]"
            };
            let ghost before = strings_view(names@);
            names.push(name.to_string());
            assert(strings_view(names@) =~= before.push(rarity_name(i as nat)));
        }
        d = d * 2;
        i = i + 1;
    }
    let mut out: Vec<char> = Vec::new();
    push_str(&mut out, "Rarity: Only ");
    push_join_and(&mut out, &names);
    string_from(&out)
}

/// Get the restriction defined by the cat group.
fn get_charagroup_restriction(cats: &CatDataContainer, group: &CharaGroup) -> (s: String)
    requires
        group.units@.len() > 0,
        forall|i: int| 0 <= i < group.units@.len() ==> (#[trigger] group.units@[i]) < cats.spec_names().len(),
    ensures
        s@ == charagroup_text(cats, *group),
{
    let mut out: Vec<char> = Vec::new();
    push_str(&mut out, "Unit Restriction: ");
    match group.group_type {
        CharaGroupType::OnlyUse => push_str(&mut out, "Only"),
        CharaGroupType::CannotUse => push_str(&mut out, "Cannot use"),
    }
    push_str(&mut out, " ");
    let mut links: Vec<String> = Vec::new();
    let mut i: usize = 0;
    while i < group.units.len()
        invariant
            0 <= i <= group.units.len(),
            forall|j: int| 0 <= j < group.units@.len() ==> (#[trigger] group.units@[j]) < cats.spec_names().len(),
            links.len() == i,
            forall|j: int| 0 <= j < i ==> (#[trigger] links@[j])@ == cats.cat_link_text(group.units@[j] as int),
        decreases group.units.len() - i,
    {
        let link = cats.get_cat_link(group.units[i]);
        links.push(link);
        i = i + 1;
    }
    assert(strings_view(links@) =~= unit_links(cats, group.units@));
    push_join_and(&mut out, &links);
    string_from(&out)
}

/// Get the list of restriction texts that a single restriction stands for.
fn get_single_restriction(cats: &CatDataContainer, restriction: &Restriction) -> (v: Vec<String>)
    requires
        single_ok(cats, *restriction),
    ensures
        strings_view(v@) == single_texts(cats, *restriction),
{
    let mut restrictions: Vec<String> = Vec::new();
    let ghost r = *restriction;
    if let Some(rarity) = restriction.rarity {
        restrictions.push(get_rarity_restriction(rarity));
    }
    assert(strings_view(restrictions@) =~= opt_item(
        match r.rarity {
            Some(v) => Some(rarity_text(v)),
            None => None,
        },
    ));
    let ghost s1 = strings_view(restrictions@);
    if let Some(limit) = restriction.deploy_limit {
        let mut out: Vec<char> = Vec::new();
        push_str(&mut out, "Max # of Deployable Cats: ");
        push_decimal(&mut out, limit as u64);
        restrictions.push(string_from(&out));
    }
    assert(strings_view(restrictions@) =~= s1 + opt_item(
        match r.deploy_limit {
            Some(v) => Some("Max # of Deployable Cats: "@ + decimal(v as nat)),
            None => None,
        },
    ));
    let ghost s2 = strings_view(restrictions@);
    if let Some(row) = restriction.rows {
        let mut out: Vec<char> = Vec::new();
        push_str(&mut out, "Deploy from Row ");
        push_decimal(&mut out, row as u64);
        push_str(&mut out, " only");
        restrictions.push(string_from(&out));
    }
    assert(strings_view(restrictions@) =~= s2 + opt_item(
        match r.rows {
            Some(v) => Some("Deploy from Row "@ + decimal(v as nat) + " only"@),
            None => None,
        },
    ));
    let ghost s3 = strings_view(restrictions@);
    if let Some(min) = restriction.min_cost {
        let mut out: Vec<char> = Vec::new();
        push_str(&mut out, "Cat Deploy Cost: Only ");
        let f = format_en(min as u64);
        push_str(&mut out, f.as_str());
        push_str(&mut out, "¢ or more");
        restrictions.push(string_from(&out));
    }
    assert(strings_view(restrictions@) =~= s3 + opt_item(
        match r.min_cost {
            Some(v) => Some("Cat Deploy Cost: Only "@ + en_formatted(v as nat) + "¢ or more"@),
            None => None,
        },
    ));
    let ghost s4 = strings_view(restrictions@);
    if let Some(max) = restriction.max_cost {
        let mut out: Vec<char> = Vec::new();
        push_str(&mut out, "Cat Deploy Cost: Only ");
        let f = format_en(max as u64);
        push_str(&mut out, f.as_str());
        push_str(&mut out, "¢ or less");
        restrictions.push(string_from(&out));
    }
    assert(strings_view(restrictions@) =~= s4 + opt_item(
        match r.max_cost {
            Some(v) => Some("Cat Deploy Cost: Only "@ + en_formatted(v as nat) + "¢ or less"@),
            None => None,
        },
    ));
    let ghost s5 = strings_view(restrictions@);
    match &restriction.charagroup {
        Some(group) => {
            restrictions.push(get_charagroup_restriction(cats, group));
        },
        None => {},
    }
    assert(strings_view(restrictions@) =~= s5 + opt_item(
        match r.charagroup {
            Some(g) => Some(charagroup_text(cats, g)),
            None => None,
        },
    ));
    restrictions
}


/// Crown a restriction applies to (`0` where it applies to all).
pub open spec fn crown_of(r: Restriction) -> u8 {
    match r.crowns_applied {
        RestrictionCrowns::One(c) => c,
        RestrictionCrowns::All => 0,
    }
}

/// Index of the entry for text `s`.
pub open spec fn find_text(acc: Seq<(Seq<char>, Seq<u8>)>, s: Seq<char>) -> Option<int>
    decreases acc.len(),
{
    if acc.len() == 0 {
        None
    } else if acc[0].0 == s {
        Some(0)
    } else {
        match find_text(acc.drop_first(), s) {
            Some(i) => Some(i + 1),
            None => None,
        }
    }
}

/// Lemma: `find_text` finds an entry for `s`, and none is missed.
pub proof fn lemma_find_text(acc: Seq<(Seq<char>, Seq<u8>)>, s: Seq<char>)
    ensures
        find_text(acc, s) matches Some(i) ==> 0 <= i < acc.len() && acc[i].0 == s,
        find_text(acc, s) is None ==> forall|j: int| 0 <= j < acc.len() ==> (#[trigger] acc[j]).0 != s,
    decreases acc.len(),
{
    if acc.len() > 0 {
        lemma_find_text(acc.drop_first(), s);
        assert forall|j: int| 0 < j < acc.len() implies acc[j] == acc.drop_first()[j - 1] by {}
    }
}

/// Record that text `s` applies to crown `c`: add `c` to the entry for `s`,
/// or add a new entry.
pub open spec fn add_crown(acc: Seq<(Seq<char>, Seq<u8>)>, s: Seq<char>, c: u8) -> Seq<(Seq<char>, Seq<u8>)> {
    match find_text(acc, s) {
        Some(i) => acc.update(i, (s, acc[i].1.push(c))),
        None => acc.push((s, seq![c])),
    }
}

/// Record each of `texts`, in order, for crown `c`.
pub open spec fn add_texts(acc: Seq<(Seq<char>, Seq<u8>)>, texts: Seq<Seq<char>>, c: u8) -> Seq<(Seq<char>, Seq<u8>)>
    decreases texts.len(),
{
    if texts.len() == 0 {
        acc
    } else {
        add_crown(add_texts(acc, texts.drop_last(), c), texts.last(), c)
    }
}

/// Every restriction text of `rs`, in order of first appearance, with the
/// crowns it applies to.
pub open spec fn group_crowns(cats: &CatDataContainer, rs: Seq<Restriction>) -> Seq<(Seq<char>, Seq<u8>)>
    decreases rs.len(),
{
    if rs.len() == 0 {
        Seq::empty()
    } else {
        add_texts(group_crowns(cats, rs.drop_last()), single_texts(cats, rs.last()), crown_of(rs.last()))
    }
}

/// No text lists a crown twice.
pub open spec fn crowns_distinct(g: Seq<(Seq<char>, Seq<u8>)>) -> bool {
    forall|i: int, j: int, k: int|
        0 <= i < g.len() && 0 <= j < k < g[i].1.len() ==> #[trigger] g[i].1[j] != #[trigger] g[i].1[k]
}

/// Texts of grouped restrictions: a text for every crown stands alone, a
/// text for one crown is prefixed by it.
pub open spec fn multi_text(g: Seq<(Seq<char>, Seq<u8>)>, max_difficulty: u8) -> Seq<Seq<char>> {
    Seq::new(
        g.len(),
        |i: int|
            if g[i].1.len() == max_difficulty {
                g[i].0
            } else {
                decimal(g[i].1[0] as nat) + "-Crown: "@ + g[i].0
            },
    )
}

/// Restrictions that differ between crowns can be written: each applies to
/// one crown, each can be written on its own, no text is listed twice for a
/// crown, there are at least two texts, and each text applies to every crown
/// or to one.
pub open spec fn multi_ok(cats: &CatDataContainer, rs: Seq<Restriction>, max_difficulty: u8) -> bool {
    let g = group_crowns(cats, rs);
    &&& forall|i: int| 0 <= i < rs.len() ==> (#[trigger] rs[i]).crowns_applied is One
    &&& forall|i: int| 0 <= i < rs.len() ==> single_ok(cats, #[trigger] rs[i])
    &&& crowns_distinct(g)
    &&& g.len() >= 2
    &&& forall|i: int| 0 <= i < g.len() ==> (#[trigger] g[i]).1.len() == max_difficulty || g[i].1.len() == 1
}

/// Views of the grouping kept as two vectors.
pub open spec fn acc_view(names: Seq<String>, crowns: Seq<Vec<u8>>) -> Seq<(Seq<char>, Seq<u8>)> {
    Seq::new(names.len(), |i: int| (names[i]@, crowns[i]@))
}

/// Copy of a byte vector.
fn copy_bytes(v: &Vec<u8>) -> (r: Vec<u8>)
    ensures
        r@ == v@,
{
    let mut r: Vec<u8> = Vec::new();
    let mut i: usize = 0;
    while i < v.len()
        invariant
            0 <= i <= v.len(),
            r@ == v@.take(i as int),
        decreases v.len() - i,
    {
        r.push(v[i]);
        assert(r@ =~= v@.take(i + 1));
        i = i + 1;
    }
    assert(v@.take(i as int) =~= v@);
    r
}

/// If `res_new` is already recorded, add `crown` to its crowns; otherwise
/// record it with `crown` alone.
fn add_restriction_or_crown(names: &mut Vec<String>, crowns: &mut Vec<Vec<u8>>, res_new: String, crown: u8)
    requires
        old(names).len() == old(crowns).len(),
    ensures
        final(names).len() == final(crowns).len(),
        acc_view(final(names)@, final(crowns)@) == add_crown(acc_view(old(names)@, old(crowns)@), res_new@, crown),
{
    let ghost acc = acc_view(names@, crowns@);
    proof {
        lemma_find_text(acc, res_new@);
    }
    let mut i: usize = 0;
    assert(acc.skip(0) =~= acc);
    while i < names.len()
        invariant
            0 <= i <= names.len(),
            names.len() == crowns.len(),
            names@ == old(names)@,
            crowns@ == old(crowns)@,
            acc == acc_view(names@, crowns@),
            find_text(acc, res_new@) == match find_text(acc.skip(i as int), res_new@) {
                Some(k) => Some(k + i),
                None => None,
            },
        decreases names.len() - i,
    {
        let ghost rest = acc.skip(i as int);
        assert(rest[0] == acc[i as int]);
        if str_eq(names[i].as_str(), res_new.as_str()) {
            let mut v = copy_bytes(&crowns[i]);
            v.push(crown);
            crowns.set(i, v);
            assert(acc_view(names@, crowns@) =~= add_crown(acc, res_new@, crown));
            return;
        }
        assert(rest.drop_first() =~= acc.skip(i + 1));
        i = i + 1;
    }
    assert(acc.skip(i as int).len() == 0);
    names.push(res_new);
    let mut v: Vec<u8> = Vec::new();
    v.push(crown);
    crowns.push(v);
    assert(acc_view(names@, crowns@) =~= add_crown(acc, res_new@, crown));
}

/// Get restrictions when the stage has different restrictions for its
/// crowns.
fn get_multi_restriction(cats: &CatDataContainer, restrictions: &Vec<Restriction>, max_difficulty: u8) -> (v: Vec<String>)
    requires
        multi_ok(cats, restrictions@, max_difficulty),
    ensures
        strings_view(v@) == multi_text(group_crowns(cats, restrictions@), max_difficulty),
{
    let mut names: Vec<String> = Vec::new();
    let mut crowns: Vec<Vec<u8>> = Vec::new();
    let mut k: usize = 0;
    assert(restrictions@.take(0) =~= Seq::<Restriction>::empty());
    assert(acc_view(names@, crowns@) =~= Seq::<(Seq<char>, Seq<u8>)>::empty());
    while k < restrictions.len()
        invariant
            0 <= k <= restrictions.len(),
            names.len() == crowns.len(),
            multi_ok(cats, restrictions@, max_difficulty),
            acc_view(names@, crowns@) == group_crowns(cats, restrictions@.take(k as int)),
        decreases restrictions.len() - k,
    {
        let ghost r = restrictions@[k as int];
        assert(r == restrictions@[k as int]);
        let crown: u8 = match restrictions[k].crowns_applied {
            RestrictionCrowns::One(c) => c,
            RestrictionCrowns::All => 0,
        };
        let texts = get_single_restriction(cats, &restrictions[k]);
        let ghost start = acc_view(names@, crowns@);
        let mut t: usize = 0;
        let ghost tv = strings_view(texts@);
        assert(tv.take(0) =~= Seq::<Seq<char>>::empty());
        while t < texts.len()
            invariant
                0 <= t <= texts.len(),
                names.len() == crowns.len(),
                tv == strings_view(texts@),
                acc_view(names@, crowns@) == add_texts(start, tv.take(t as int), crown),
            decreases texts.len() - t,
        {
            add_restriction_or_crown(&mut names, &mut crowns, texts[t].clone(), crown);
            proof {
                let tt = tv.take(t + 1);
                assert(tt.drop_last() =~= tv.take(t as int));
                assert(tt.last() == texts@[t as int]@);
            }
            t = t + 1;
        }
        proof {
            assert(tv.take(t as int) =~= tv);
            let p = restrictions@.take(k + 1);
            assert(p.drop_last() =~= restrictions@.take(k as int));
            assert(p.last() == r);
        }
        k = k + 1;
    }
    assert(restrictions@.take(k as int) =~= restrictions@);
    let ghost g = acc_view(names@, crowns@);
    let mut out: Vec<String> = Vec::new();
    let mut i: usize = 0;
    while i < names.len()
        invariant
            0 <= i <= names.len(),
            names.len() == crowns.len(),
            g == acc_view(names@, crowns@),
            multi_ok(cats, restrictions@, max_difficulty),
            g == group_crowns(cats, restrictions@),
            out.len() == i,
            forall|j: int| 0 <= j < i ==> (#[trigger] out@[j])@ == multi_text(g, max_difficulty)[j],
        decreases names.len() - i,
    {
        assert(g[i as int].1.len() == max_difficulty || g[i as int].1.len() == 1);
        if crowns[i].len() == max_difficulty as usize {
            out.push(names[i].clone());
        } else {
            let mut b: Vec<char> = Vec::new();
            push_decimal(&mut b, crowns[i][0] as u64);
            push_str(&mut b, "-Crown: ");
            push_str(&mut b, names[i].as_str());
            out.push(string_from(&b));
        }
        i = i + 1;
    }
    assert(strings_view(out@) =~= multi_text(g, max_difficulty));
    out
}

/// Specials and rares only, on the fourth crown only: the restriction that
/// every stage with four crowns has.
pub open spec fn is_four_crown_default(r: Restriction) -> bool {
    &&& r.crowns_applied == RestrictionCrowns::One(4)
    &&& r.rarity == Some(6u8)
    &&& r.deploy_limit is None
    &&& r.rows is None
    &&& r.min_cost is None
    &&& r.max_cost is None
    &&& r.charagroup is None
}

/// Highest crown of a stage (`0` where it has no crown data).
pub open spec fn max_difficulty_of(stage: &Stage) -> u8 {
    match stage.crown_data {
        Some(d) => d.max_difficulty,
        None => 0,
    }
}

/// Restriction texts of a stage, or `None` where it has none to show.
pub open spec fn restriction_list(cats: &CatDataContainer, stage: &Stage) -> Option<Seq<Seq<char>>> {
    match stage.restrictions {
        None => None,
        Some(rs) => if rs@.len() == 0 || (rs@.len() == 1 && is_four_crown_default(rs@[0])) {
            None
        } else if rs@.len() == 1 {
            Some(single_texts(cats, rs@[0]))
        } else {
            Some(multi_text(group_crowns(cats, rs@), max_difficulty_of(stage)))
        },
    }
}

/// The restrictions of a stage can be written: a lone restriction applies to
/// every crown or the stage has one crown that it applies to, and several
/// restrictions come one per crown.
pub open spec fn restrictions_ok(cats: &CatDataContainer, stage: &Stage) -> bool {
    match stage.restrictions {
        None => true,
        Some(rs) => if rs@.len() == 0 || (rs@.len() == 1 && is_four_crown_default(rs@[0])) {
            true
        } else if rs@.len() == 1 {
            &&& single_ok(cats, rs@[0])
            &&& !(rs@[0].crowns_applied != RestrictionCrowns::All && stage.crown_data is Some && (
            max_difficulty_of(stage) > 1 || rs@[0].crowns_applied != RestrictionCrowns::One(1)))
        } else {
            &&& stage.crown_data is Some
            &&& rs@.len() == max_difficulty_of(stage)
            &&& multi_ok(cats, rs@, max_difficulty_of(stage))
        },
    }
}

/// Is the restriction the four-crown default?
fn check_four_crown_default(r: &Restriction) -> (b: bool)
    ensures
        b == is_four_crown_default(*r),
{
    r.crowns_applied == RestrictionCrowns::One(4) && r.rarity == Some(6u8) && r.deploy_limit.is_none()
        && r.rows.is_none() && r.min_cost.is_none() && r.max_cost.is_none() && r.charagroup.is_none()
}

/// Get the list of the stage's restriction texts, if it has any to show.
fn get_restriction_list(stage: &Stage, cats: &CatDataContainer) -> (r: Option<Vec<String>>)
    requires
        restrictions_ok(cats, stage),
    ensures
        match r {
            Some(v) => restriction_list(cats, stage) == Some(strings_view(v@)),
            None => restriction_list(cats, stage) is None,
        },
{
    let restrictions = match &stage.restrictions {
        None => {
            return None;
        },
        Some(rs) => rs,
    };
    if restrictions.len() == 0 || (restrictions.len() == 1 && check_four_crown_default(&restrictions[0])) {
        return None;
    }
    if restrictions.len() == 1 {
        return Some(get_single_restriction(cats, &restrictions[0]));
    }
    let max_difficulty: u8 = match &stage.crown_data {
        Some(d) => d.max_difficulty,
        None => 0,
    };
    Some(get_multi_restriction(cats, restrictions, max_difficulty))
}

/// Value of the Stage Info `restriction` parameter, or `None` where the
/// stage shows none.
pub open spec fn restrictions_info_value(cats: &CatDataContainer, stage: &Stage) -> Option<Seq<char>> {
    match restriction_list(cats, stage) {
        None => if stage.is_no_continues {
            Some("[[No Continues]]"@)
        } else {
            None
        },
        Some(l) => Some(
            join(l, "<br>\n"@) + if stage.is_no_continues {
                "<br>\n[[No Continues]]"@
            } else {
                Seq::empty()
            },
        ),
    }
}

/// Get restrictions for the Stage Info template (including no continues).
pub fn restrictions_info(stage: &Stage, cats: &CatDataContainer) -> (p: Option<TemplateParameter>)
    requires
        restrictions_ok(cats, stage),
    ensures
        match p {
            Some(t) => t@.0 == "restriction"@ && restrictions_info_value(cats, stage) == Some(t@.1),
            None => restrictions_info_value(cats, stage) is None,
        },
{
    let restrictions = get_restriction_list(stage, cats);
    let r = match restrictions {
        None => {
            if !stage.is_no_continues {
                return None;
            }
            return Some(TemplateParameter::new("restriction".to_string(), "[[No Continues]]".to_string()));
        },
        Some(r) => r,
    };
    let mut buf: Vec<char> = Vec::new();
    push_join(&mut buf, &r, "<br>\n");
    if stage.is_no_continues {
        push_str(&mut buf, "<br>\n[[No Continues]]");
    }
    assert(buf@ =~= restrictions_info_value(cats, stage).unwrap());
    Some(TemplateParameter::new("restriction".to_string(), string_from(&buf)))
}

/// Text of the restrictions section of a stage page.
pub open spec fn restrictions_section_text(cats: &CatDataContainer, stage: &Stage) -> Seq<char> {
    match restriction_list(cats, stage) {
        None => Seq::empty(),
        Some(l) => if l.len() == 1 {
            l[0]
        } else {
            join(Seq::new(l.len(), |i: int| seq!['*'] + l[i]), "\n"@)
        },
    }
}

/// Get the content of the restrictions section.
pub fn restrictions_section(stage: &Stage, cats: &CatDataContainer) -> (s: String)
    requires
        restrictions_ok(cats, stage),
        restriction_list(cats, stage) matches Some(l) ==> l.len() >= 1,
    ensures
        s@ == restrictions_section_text(cats, stage),
{
    let restrictions = match get_restriction_list(stage, cats) {
        None => {
            return String::new();
        },
        Some(r) => r,
    };
    if restrictions.len() == 1 {
        return restrictions[0].clone();
    }
    let ghost l = strings_view(restrictions@);
    let mut bullets: Vec<String> = Vec::new();
    let mut i: usize = 0;
    while i < restrictions.len()
        invariant
            0 <= i <= restrictions.len(),
            l == strings_view(restrictions@),
            bullets.len() == i,
            forall|j: int| 0 <= j < i ==> (#[trigger] bullets@[j])@ == seq!['*'] + l[j],
        decreases restrictions.len() - i,
    {
        let mut b: Vec<char> = Vec::new();
        b.push('*');
        push_str(&mut b, restrictions[i].as_str());
        bullets.push(string_from(&b));
        i = i + 1;
    }
    assert(strings_view(bullets@) =~= Seq::new(l.len(), |j: int| seq!['*'] + l[j]));
    let mut out: Vec<char> = Vec::new();
    push_join(&mut out, &bullets, "\n");
    assert(out@ =~= restrictions_section_text(cats, stage));
    string_from(&out)
}

/// Law: the Stage Info restriction and the restrictions section agree. A
/// stage with no restrictions to show has an empty section, and its Stage
/// Info restriction is `[[No Continues]]` where continues are not allowed
/// and absent otherwise. A stage with one restriction shows it as the
/// section, and the Stage Info restriction is that same text, followed by
/// `[[No Continues]]` on a line of its own where continues are not allowed.
pub proof fn law_restrictions_agree(cats: &CatDataContainer, stage: &Stage)
    ensures
        restriction_list(cats, stage) is None ==> restrictions_section_text(cats, stage) == Seq::<char>::empty()
            && restrictions_info_value(cats, stage) == if stage.is_no_continues {
            Some("[[No Continues]]"@)
        } else {
            None
        },
        restriction_list(cats, stage) matches Some(l) && l.len() == 1 ==> restrictions_info_value(cats, stage)
            == Some(restrictions_section_text(cats, stage) + if stage.is_no_continues {
            "<br>\n[[No Continues]]"@
        } else {
            Seq::empty()
        }),
{
}

} // verus!
