//! Number formatting helpers: thousands grouping, plurals and frame counts
//! written as seconds.

use crate::text::{all_digits, decimal, lemma_decimal_digits, padded, push_decimal, push_padded, string_from, pow10};
use num_format::{Locale, ToFormattedString};
use vstd::prelude::*;

verus! {

/// The digits of `d` in groups of three from the right, joined by commas
/// (`"1234567"` becomes `"1,234,567"`).
pub open spec fn group_thousands(d: Seq<char>) -> Seq<char>
    decreases d.len(),
{
    if d.len() <= 3 {
        d
    } else {
        group_thousands(d.subrange(0, d.len() - 3)) + seq![','] + d.subrange(d.len() - 3, d.len() as int)
    }
}

/// `n` written with `,` between groups of three digits.
pub open spec fn en_formatted(n: nat) -> Seq<char> {
    group_thousands(decimal(n))
}

/// `s` without its commas.
pub open spec fn without_commas(s: Seq<char>) -> Seq<char>
    decreases s.len(),
{
    if s.len() == 0 {
        Seq::empty()
    } else if s.last() == ',' {
        without_commas(s.drop_last())
    } else {
        without_commas(s.drop_last()).push(s.last())
    }
}

/// Lemma: dropping commas from two texts put together drops them from each.
proof fn lemma_without_commas_append(a: Seq<char>, b: Seq<char>)
    ensures
        without_commas(a + b) == without_commas(a) + without_commas(b),
    decreases b.len(),
{
    if b.len() == 0 {
        assert(a + b =~= a);
        assert(without_commas(a) + Seq::<char>::empty() =~= without_commas(a));
    } else {
        lemma_without_commas_append(a, b.drop_last());
        assert((a + b).drop_last() =~= a + b.drop_last());
        assert((a + b).last() == b.last());
        if b.last() != ',' {
            assert(without_commas(a) + without_commas(b.drop_last()).push(b.last()) =~= (without_commas(a)
                + without_commas(b.drop_last())).push(b.last()));
        }
    }
}

/// Lemma: digits have no commas to drop.
proof fn lemma_without_commas_digits(d: Seq<char>)
    requires
        all_digits(d),
    ensures
        without_commas(d) == d,
    decreases d.len(),
{
    if d.len() > 0 {
        lemma_without_commas_digits(d.drop_last());
        assert(d.drop_last().push(d.last()) =~= d);
    }
}

/// Law: a number written with thousands separators gives back its decimal
/// digits when the separators are dropped.
pub proof fn law_grouping_keeps_digits(n: nat)
    ensures
        without_commas(en_formatted(n)) == decimal(n),
{
    lemma_decimal_digits(n);
    lemma_group_keeps_digits(decimal(n));
}

/// Lemma: grouping digits only adds commas.
proof fn lemma_group_keeps_digits(d: Seq<char>)
    requires
        all_digits(d),
    ensures
        without_commas(group_thousands(d)) == d,
    decreases d.len(),
{
    if d.len() <= 3 {
        lemma_without_commas_digits(d);
    } else {
        let head = d.subrange(0, d.len() - 3);
        let tail = d.subrange(d.len() - 3, d.len() as int);
        lemma_group_keeps_digits(head);
        lemma_without_commas_append(group_thousands(head), seq![',']);
        lemma_without_commas_append(group_thousands(head) + seq![','], tail);
        lemma_without_commas_digits(tail);
        let c = seq![','];
        assert(c.drop_last() =~= Seq::<char>::empty());
        assert(c.last() == ',');
        assert(without_commas(c.drop_last()) == Seq::<char>::empty());
        assert(without_commas(c) =~= Seq::<char>::empty());
        assert(head + tail =~= d);
    }
}

#[verifier::external_body]
/// `n` formatted in the `en` locale.
///
/// Calls `num_format::ToFormattedString::to_formatted_string` with
/// `Locale::en`, whose separator is `","` and whose grouping is `Standard`
/// (groups of three digits counted from the right); the contract states that
/// result over the decimal digits of `n`.
pub(crate) fn format_en(n: u64) -> (s: String)
    ensures
        s@ == en_formatted(n as nat),
{
    n.to_formatted_string(&Locale::en)
}

/// Number of decimal places used for a frame count shown in seconds: none
/// for whole seconds, one for tenths, two otherwise.
pub open spec fn precision_f(frames: nat) -> nat {
    if frames % 30 == 0 {
        0
    } else if frames % 3 == 0 {
        1
    } else {
        2
    }
}

/// `num / den` rounded to `p` decimal places, as an integer count of
/// `10^-p` units (halves round up).
pub open spec fn rounded(num: nat, den: nat, p: nat) -> nat {
    ((2 * num * pow10(p) + den) / (2 * den)) as nat
}

/// Fixed-point text of `q * 10^-p` with exactly `p` decimal places.
pub open spec fn fixed_text(q: nat, p: nat) -> Seq<char> {
    if p == 0 {
        decimal(q)
    } else {
        decimal(q / pow10(p)) + seq!['.'] + padded(q % pow10(p), p)
    }
}

/// Seconds text of a frame count at 30 frames a second, written with
/// `precision_f` decimal places.
pub open spec fn seconds_text(frames: nat) -> Seq<char> {
    fixed_text(rounded(frames, 30, precision_f(frames)), precision_f(frames))
}

/// Precision to use when showing a frame count as seconds.
pub fn get_precision_f(frames: u32) -> (p: usize)
    ensures
        p == precision_f(frames as nat),
{
    if frames % 30 == 0 {
        0
    } else if frames % 3 == 0 {
        1
    } else {
        2
    }
}

/// `single` when `amt` is one, else `many`.
pub fn plural<'a>(amt: u16, single: &'a str, many: &'a str) -> (r: &'a str)
    ensures
        r == (if amt == 1 { single } else { many }),
{
    if amt == 1 {
        single
    } else {
        many
    }
}

/// `single` when `amt` frames make exactly one second, else `many`.
pub fn plural_f<'a>(amt: u32, single: &'a str, many: &'a str) -> (r: &'a str)
    ensures
        r == (if amt == 30 { single } else { many }),
{
    if amt == 30 {
        single
    } else {
        many
    }
}

/// Append the seconds that `time_f` frames last.
pub fn write_seconds(buf: &mut String, time_f: u32)
    requires
        time_f < 30_000,
    ensures
        final(buf)@ == old(buf)@ + seconds_text(time_f as nat),
{
    let p = get_precision_f(time_f);
    let mut out: Vec<char> = Vec::new();
    let f: u64 = time_f as u64;
    if p == 0 {
        let q: u64 = (2 * f * 1 + 30) / 60;
        assert(pow10(0) == 1);
        push_decimal(&mut out, q);
    } else if p == 1 {
        let q: u64 = (2 * f * 10 + 30) / 60;
        assert(pow10(1) == 10) by {
            reveal_with_fuel(pow10, 2);
        }
        push_decimal(&mut out, q / 10);
        out.push('.');
        push_padded(&mut out, q % 10, 1);
    } else {
        let q: u64 = (2 * f * 100 + 30) / 60;
        assert(pow10(2) == 100) by {
            reveal_with_fuel(pow10, 3);
        }
        push_decimal(&mut out, q / 100);
        out.push('.');
        push_padded(&mut out, q % 100, 2);
    }
    let s = string_from(&out);
    crate::text::append_str(buf, s.as_str());
    assert(out@ =~= seconds_text(time_f as nat));
}

/// Seconds that `time_f` frames last, as text.
pub fn seconds_repr(time_f: u32) -> (s: String)
    requires
        time_f < 30_000,
    ensures
        s@ == seconds_text(time_f as nat),
{
    let mut buf = String::new();
    write_seconds(&mut buf, time_f);
    assert(buf@ =~= seconds_text(time_f as nat));
    buf
}

/// `(frames, seconds)` text of a frame count.
pub fn time_repr(time_f: u32) -> (r: (String, String))
    requires
        time_f < 30_000,
    ensures
        r.0@ == en_formatted(time_f as nat),
        r.1@ == seconds_text(time_f as nat),
{
    let f = format_en(time_f as u64);
    let s = seconds_repr(time_f);
    (f, s)
}

} // verus!
