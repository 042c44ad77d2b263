//! Pieces of Legend Stages map pages.

use crate::meta::stage::map_id::MapID;
use crate::meta::stage::variant::StageVariant;
use crate::text::{decimal, padded, push_decimal, push_padded, push_str, string_from};
use crate::wikitext::number_utils::{en_formatted, format_en};
use vstd::prelude::*;

verus! {

/// Crown data of a map.
#[derive(Debug, Clone, Copy)]
pub struct MapCrownData {
    /// Highest crown difficulty.
    pub max_difficulty: u8,
    /// Magnification at two crowns.
    pub crown_2: Option<u32>,
    /// Magnification at three crowns.
    pub crown_3: Option<u32>,
    /// Magnification at four crowns.
    pub crown_4: Option<u32>,
}

/// A map, as the legend pages read it.
#[derive(Debug)]
pub struct GameMap {
    /// Id of the map.
    pub id: MapID,
    /// Number of the map's background image.
    pub map_file_num: u32,
    /// Crown data of the map.
    pub crown_data: Option<MapCrownData>,
}

/// Material drop chances of a map: eight normal ones and, for some maps,
/// eight of the Z materials.
#[derive(Debug, Clone, Copy)]
pub struct DropItem {
    /// Chances of bricks, feathers, coal, sprockets, gold, meteorite, beast
    /// bones and ammonite.
    pub normal: [u8; 8],
    /// Chances of the Z materials, in the same order.
    pub z: [Option<u8>; 8],
}

/// Map's background image: `[[File:Map{num:03}.png|center|350px]]`.
pub fn map_img(map: &GameMap) -> (s: String)
    ensures
        s@ == "[[File:Map"@ + padded(map.map_file_num as nat, 3) + ".png|center|350px]]"@,
{
    let mut out: Vec<char> = Vec::new();
    push_str(&mut out, "[[File:Map");
    push_padded(&mut out, map.map_file_num as u64, 3);
    push_str(&mut out, ".png|center|350px]]");
    string_from(&out)
}

/// `|{mag}` for a magnification that is given.
pub open spec fn opt_mag(m: Option<u32>) -> Seq<char> {
    match m {
        Some(v) => seq!['|'] + en_formatted(v as nat),
        None => Seq::empty(),
    }
}

/// `{{LegendDiff|...}}` with the magnifications at two to four crowns, or
/// nothing for a map with one crown.
pub open spec fn difficulty_text(d: MapCrownData) -> Seq<char> {
    if d.max_difficulty == 1 {
        Seq::empty()
    } else {
        "{{LegendDiff"@ + opt_mag(d.crown_2) + opt_mag(d.crown_3) + opt_mag(d.crown_4) + "}}"@
    }
}

/// Append `|{mag}` for a magnification that is given.
fn push_opt_mag(out: &mut Vec<char>, m: Option<u32>)
    ensures
        final(out)@ == old(out)@ + opt_mag(m),
{
    match m {
        Some(v) => {
            out.push('|');
            let f = format_en(v as u64);
            push_str(out, f.as_str());
        },
        None => {
            assert(old(out)@ + Seq::<char>::empty() =~= old(out)@);
        },
    }
}

/// LegendDiff invocation for map.
pub fn difficulty(map: &GameMap) -> (s: String)
    requires
        map.crown_data is Some,
    ensures
        s@ == difficulty_text(map.crown_data.unwrap()),
{
    let data = match &map.crown_data {
        Some(d) => d,
        None => {
            return String::new();
        },
    };
    if data.max_difficulty == 1 {
        return String::new();
    }
    let mut out: Vec<char> = Vec::new();
    push_str(&mut out, "{{LegendDiff");
    push_opt_mag(&mut out, data.crown_2);
    push_opt_mag(&mut out, data.crown_3);
    push_opt_mag(&mut out, data.crown_4);
    push_str(&mut out, "}}");
    assert(out@ =~= difficulty_text(*data));
    string_from(&out)
}

/// Sum of the first `k` chances.
pub open spec fn sum_upto(c: Seq<u8>, k: int) -> int
    decreases k,
{
    if k <= 0 {
        0
    } else {
        sum_upto(c, k - 1) + c[k - 1]
    }
}

/// The chances of a map's drops: the normal ones, then the Z ones where the
/// map has them.
pub open spec fn chances(d: DropItem) -> Seq<u8> {
    if d.z[0] is None {
        d.normal@
    } else {
        d.normal@ + Seq::new(8, |i: int| d.z@[i].unwrap())
    }
}

/// `|c` for each chance.
pub open spec fn chances_text(c: Seq<u8>) -> Seq<char>
    decreases c.len(),
{
    if c.len() == 0 {
        Seq::empty()
    } else {
        chances_text(c.drop_last()) + seq!['|'] + decimal(c.last() as nat)
    }
}

/// `{{Materials|miss|chances...}}`: the miss chance is what the chances
/// leave of 100; maps with Z materials hide the normal ones.
pub open spec fn materials_text(d: DropItem) -> Seq<char> {
    "{{Materials|"@ + decimal((100 - sum_upto(chances(d), chances(d).len() as int)) as nat) + chances_text(chances(d))
        + if d.z[0] is None {
        Seq::<char>::empty()
    } else {
        "|hidenormal="@
    } + "}}"@
}

/// The drops can be written: where the map has Z materials it has all
/// eight, and the chances add up to at most 100.
pub open spec fn materials_ok(d: DropItem) -> bool {
    &&& (d.z[0] is Some ==> forall|i: int| 0 <= i < 8 ==> (#[trigger] d.z@[i]) is Some)
    &&& sum_upto(chances(d), chances(d).len() as int) <= 100
}

/// Lemma: partial sums of chances grow with the number of chances summed.
proof fn lemma_sum_mono(c: Seq<u8>, a: int, b: int)
    requires
        0 <= a <= b <= c.len(),
    ensures
        sum_upto(c, a) <= sum_upto(c, b),
    decreases b - a,
{
    if a < b {
        lemma_sum_mono(c, a, b - 1);
    }
}

/// Stage's material drops.
pub fn materials(drop_item: &DropItem) -> (s: String)
    requires
        materials_ok(*drop_item),
    ensures
        s@ == materials_text(*drop_item),
{
    let mut cs: Vec<u8> = Vec::new();
    let mut i: usize = 0;
    while i < 8
        invariant
            0 <= i <= 8,
            cs@ == drop_item.normal@.take(i as int),
        decreases 8 - i,
    {
        cs.push(drop_item.normal[i]);
        assert(cs@ =~= drop_item.normal@.take(i + 1));
        i = i + 1;
    }
    assert(drop_item.normal@.take(8) =~= drop_item.normal@);
    let has_z = drop_item.z[0].is_some();
    if has_z {
        let mut j: usize = 0;
        while j < 8
            invariant
                0 <= j <= 8,
                drop_item.z[0] is Some,
                materials_ok(*drop_item),
                cs@ == drop_item.normal@ + Seq::new(8, |k: int| drop_item.z@[k].unwrap()).take(j as int),
            decreases 8 - j,
        {
            assert(drop_item.z@[j as int] is Some);
            let c = match drop_item.z[j] {
                Some(c) => c,
                None => 0,
            };
            cs.push(c);
            assert(cs@ =~= drop_item.normal@ + Seq::new(8, |k: int| drop_item.z@[k].unwrap()).take(j + 1));
            j = j + 1;
        }
        assert(Seq::new(8, |k: int| drop_item.z@[k].unwrap()).take(8) =~= Seq::new(8, |k: int| drop_item.z@[k].unwrap()));
    }
    assert(cs@ == chances(*drop_item));
    let ghost c = cs@;
    let mut body: Vec<char> = Vec::new();
    let mut total: u8 = 0;
    let mut k: usize = 0;
    while k < cs.len()
        invariant
            0 <= k <= cs.len(),
            c == cs@,
            sum_upto(c, c.len() as int) <= 100,
            total == sum_upto(c, k as int),
            body@ == chances_text(c.take(k as int)),
        decreases cs.len() - k,
    {
        proof {
            lemma_sum_mono(c, k + 1, c.len() as int);
        }
        body.push('|');
        push_decimal(&mut body, cs[k] as u64);
        total = total + cs[k];
        let ghost t = c.take(k + 1);
        assert(t.drop_last() =~= c.take(k as int));
        assert(t.last() == c[k as int]);
        k = k + 1;
    }
    assert(c.take(k as int) =~= c);
    let mut out: Vec<char> = Vec::new();
    push_str(&mut out, "{{Materials|");
    push_decimal(&mut out, (100 - total) as u64);
    let mut m: usize = 0;
    while m < body.len()
        invariant
            0 <= m <= body.len(),
            out@ == "{{Materials|"@ + decimal((100 - total) as nat) + body@.take(m as int),
        decreases body.len() - m,
    {
        out.push(body[m]);
        assert(out@ =~= "{{Materials|"@ + decimal((100 - total) as nat) + body@.take(m + 1));
        m = m + 1;
    }
    assert(body@.take(m as int) =~= body@);
    if has_z {
        push_str(&mut out, "|hidenormal=");
    }
    push_str(&mut out, "}}");
    assert(out@ =~= materials_text(*drop_item));
    string_from(&out)
}

/// battlecats-db reference of the map.
pub fn reference(map: &GameMap) -> (s: String)
    requires
        map.id.spec_variant().spec_num() * 1000 + map.id.spec_num() <= u32::MAX,
    ensures
        s@ == "https://battlecats-db.com/stage/s"@ + padded(
            (map.id.spec_variant().spec_num() * 1000 + map.id.spec_num()) as nat,
            5,
        ) + ".html"@,
{
    let mapid = map.id.mapid();
    let mut out: Vec<char> = Vec::new();
    push_str(&mut out, "https://battlecats-db.com/stage/s");
    push_padded(&mut out, mapid as u64, 5);
    push_str(&mut out, ".html");
    string_from(&out)
}

/// Centred navigation: the heading, then `left | right` in bold.
pub open spec fn nav_text(heading: Seq<char>, left: Seq<char>, right: Seq<char>) -> Seq<char> {
    "<p style=\"text-align:center;\">"@ + heading + ":</p>\n\n<p style=\"text-align:center;\">'''"@ + left
        + " | "@ + right + "'''</p>"@
}

/// Format navigation.
pub fn nav_item(heading: &str, left: &str, right: &str) -> (s: String)
    ensures
        s@ == nav_text(heading@, left@, right@),
{
    let mut out: Vec<char> = Vec::new();
    push_str(&mut out, "<p style=\"text-align:center;\">");
    push_str(&mut out, heading);
    push_str(&mut out, ":</p>\n\n<p style=\"text-align:center;\">'''");
    push_str(&mut out, left);
    push_str(&mut out, " | ");
    push_str(&mut out, right);
    push_str(&mut out, "'''</p>");
    assert(out@ =~= nav_text(heading@, left@, right@));
    string_from(&out)
}

/// Left part of a navigation: a link back to the previous map, or `N/A`.
pub open spec fn nav_left(left: Option<Seq<char>>) -> Seq<char> {
    match left {
        None => "&lt;&lt; N/A"@,
        Some(name) => "[["@ + name + "|&lt;&lt; "@ + name + "]]"@,
    }
}

/// Right part of a navigation: a link on to the next map, or `N/A`.
pub open spec fn nav_right(right: Option<Seq<char>>) -> Seq<char> {
    match right {
        None => "N/A &gt;&gt;"@,
        Some(name) => "[["@ + name + seq!['|'] + name + " &gt;&gt;]]"@,
    }
}

/// Format navigation with optional previous and next maps.
pub fn nav_item_opt(heading: &str, left: Option<&str>, right: Option<&str>) -> (s: String)
    ensures
        s@ == nav_text(
            heading@,
            nav_left(
                match left {
                    Some(l) => Some(l@),
                    None => None,
                },
            ),
            nav_right(
                match right {
                    Some(r) => Some(r@),
                    None => None,
                },
            ),
        ),
{
    let mut l: Vec<char> = Vec::new();
    match left {
        None => push_str(&mut l, "&lt;&lt; N/A"),
        Some(name) => {
            push_str(&mut l, "[[");
            push_str(&mut l, name);
            push_str(&mut l, "|&lt;&lt; ");
            push_str(&mut l, name);
            push_str(&mut l, "]]");
        },
    }
    let mut r: Vec<char> = Vec::new();
    match right {
        None => push_str(&mut r, "N/A &gt;&gt;"),
        Some(name) => {
            push_str(&mut r, "[[");
            push_str(&mut r, name);
            r.push('|');
            push_str(&mut r, name);
            push_str(&mut r, " &gt;&gt;]]");
        },
    }
    let ls = string_from(&l);
    let rs = string_from(&r);
    nav_item(heading, ls.as_str(), rs.as_str())
}

/// Footer of a legend map page (templates and categories).
pub open spec fn footer_text(v: StageVariant) -> Seq<char> {
    match v {
        StageVariant::SoL => "{{LegendStages}}\n[[Category:Stories of Legend Chapters]]"@,
        StageVariant::UL => "{{UncannyLegendStages}}\n[[Category:Uncanny Legends Chapters]]"@,
        _ => "{{ZeroLegendStages}}\n[[Category:Zero Legends Chapters]]"@,
    }
}

/// Footer (templates/categories).
pub fn footer(map: &GameMap) -> (s: String)
    requires
        map.id.spec_variant() == StageVariant::SoL || map.id.spec_variant() == StageVariant::UL
            || map.id.spec_variant() == StageVariant::ZL,
    ensures
        s@ == footer_text(map.id.spec_variant()),
{
    match map.id.variant() {
        StageVariant::SoL => "{{LegendStages}}\n[[Category:Stories of Legend Chapters]]".to_string(),
        StageVariant::UL => "{{UncannyLegendStages}}\n[[Category:Uncanny Legends Chapters]]".to_string(),
        _ => "{{ZeroLegendStages}}\n[[Category:Zero Legends Chapters]]".to_string(),
    }
}

} // verus!
