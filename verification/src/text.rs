//! Character-level text utilities: decimal formatting, zero padding,
//! thousands grouping and number parsing, all specified over `Seq<char>`.

use vstd::prelude::*;
use vstd::string::StringExecFns;

verus! {

/// Is `c` one of the ASCII digits `'0'..='9'`?
pub open spec fn is_digit(c: char) -> bool {
    '0' <= c && c <= '9'
}

/// Numeric value of an ASCII digit.
pub open spec fn digit_value(c: char) -> nat {
    (c as int - '0' as int) as nat
}

/// The ASCII digit for a value below ten.
pub open spec fn digit_char(d: nat) -> char {
    ((d + '0' as nat) as u8) as char
}

/// Decimal representation of `n`, without leading zeros (`"0"` for zero).
pub open spec fn decimal(n: nat) -> Seq<char>
    decreases n,
{
    if n < 10 {
        seq![digit_char(n)]
    } else {
        decimal(n / 10).push(digit_char(n % 10))
    }
}

/// `s` left-padded with `'0'` to at least `width` characters.
pub open spec fn zero_pad(s: Seq<char>, width: nat) -> Seq<char> {
    if s.len() >= width {
        s
    } else {
        Seq::new((width - s.len()) as nat, |i: int| '0') + s
    }
}

/// Decimal representation of `n` padded to `width`, as `format!("{n:0width$}")`.
pub open spec fn padded(n: nat, width: nat) -> Seq<char> {
    zero_pad(decimal(n), width)
}

/// Value of a sequence of ASCII digits read in base ten.
pub open spec fn digits_value(s: Seq<char>) -> nat
    decreases s.len(),
{
    if s.len() == 0 {
        0
    } else {
        digits_value(s.drop_last()) * 10 + digit_value(s.last())
    }
}

/// Every character of `s` is an ASCII digit.
pub open spec fn all_digits(s: Seq<char>) -> bool {
    forall|i: int| 0 <= i < s.len() ==> is_digit(#[trigger] s[i])
}

#[verifier::external_body]
/// Characters of a string slice, in order.
///
/// Calls `str::chars` and collects the iterator; the contract states that the
/// result holds exactly the characters of `s`.
pub(crate) fn chars_of(s: &str) -> (v: Vec<char>)
    ensures
        v@ == s@,
{
    s.chars().collect()
}

#[verifier::external_body]
/// String made of the given characters.
///
/// Collects the characters with `FromIterator<&char> for String`; the
/// contract states that the string holds exactly these characters.
pub(crate) fn string_from(v: &Vec<char>) -> (s: String)
    ensures
        s@ == v@,
{
    v.iter().collect()
}

/// Lemma: every character of `decimal(n)` is a digit and the representation
/// has at least one character.
pub proof fn lemma_decimal_digits(n: nat)
    ensures
        all_digits(decimal(n)),
        decimal(n).len() >= 1,
    decreases n,
{
    if n >= 10 {
        lemma_decimal_digits(n / 10);
    }
}

/// Append the decimal representation of `n` to `out`.
pub fn push_decimal(out: &mut Vec<char>, n: u64)
    ensures
        final(out)@ == old(out)@ + decimal(n as nat),
    decreases n,
{
    if n >= 10 {
        push_decimal(out, n / 10);
    }
    let d = n % 10;
    out.push(((d as u8) + 48u8) as char);
    assert(decimal(n as nat) == if n < 10 { seq![digit_char(n as nat)] } else { decimal((n / 10) as nat).push(digit_char((n % 10) as nat)) });
}


/// Lowercase form of a character as far as `str::to_lowercase` yields an
/// ASCII result: ASCII capitals and the Kelvin sign become ASCII lowercase.
pub open spec fn lower_char(c: char) -> char {
    if 'A' <= c && c <= 'Z' {
        ((c as u32 + 32) as u8) as char
    } else if c == '\u{212A}' {
        'k'
    } else {
        c
    }
}

/// Simple case folding restricted to the characters that fold onto ASCII
/// letters: ASCII capitals, the Kelvin sign (to `k`) and the long s (to `s`).
pub open spec fn fold_char(c: char) -> char {
    if c == '\u{17F}' {
        's'
    } else {
        lower_char(c)
    }
}

/// `a` and `b` are equal under case-insensitive matching: same length, and
/// the characters fold to the same character position by position.
pub open spec fn fold_eq(a: Seq<char>, b: Seq<char>) -> bool
    decreases a.len(),
{
    if a.len() != b.len() {
        false
    } else if a.len() == 0 {
        true
    } else {
        fold_char(a[0]) == fold_char(b[0]) && fold_eq(a.drop_first(), b.drop_first())
    }
}

/// Lemma: `fold_eq` compares the folded characters position by position.
pub proof fn lemma_fold_eq_forall(a: Seq<char>, b: Seq<char>)
    ensures
        fold_eq(a, b) <==> (a.len() == b.len() && forall|i: int|
            0 <= i < a.len() ==> fold_char(#[trigger] a[i]) == fold_char(b[i])),
    decreases a.len(),
{
    if a.len() == b.len() && a.len() > 0 {
        lemma_fold_eq_forall(a.drop_first(), b.drop_first());
        if forall|i: int| 0 <= i < a.len() ==> fold_char(#[trigger] a[i]) == fold_char(b[i]) {
            assert forall|i: int| 0 <= i < a.drop_first().len() implies fold_char(
                #[trigger] a.drop_first()[i],
            ) == fold_char(b.drop_first()[i]) by {
                assert(a.drop_first()[i] == a[i + 1]);
                assert(b.drop_first()[i] == b[i + 1]);
            }
        }
        if fold_eq(a, b) {
            assert forall|i: int| 0 <= i < a.len() implies fold_char(#[trigger] a[i]) == fold_char(
                b[i],
            ) by {
                if i > 0 {
                    assert(a.drop_first()[i - 1] == a[i]);
                    assert(b.drop_first()[i - 1] == b[i]);
                }
            }
        }
    }
}

/// Lemma: two digit strings are equal under case folding only when they are
/// equal.
pub proof fn lemma_fold_eq_digits(a: Seq<char>, b: Seq<char>)
    requires
        all_digits(a),
        all_digits(b),
    ensures
        fold_eq(a, b) <==> a == b,
{
    lemma_fold_eq_forall(a, b);
    if fold_eq(a, b) {
        assert forall|i: int| 0 <= i < a.len() implies a[i] == b[i] by {
            assert(is_digit(a[i]));
            assert(is_digit(b[i]));
            assert(fold_char(a[i]) == fold_char(b[i]));
        }
        assert(a =~= b);
    }
}

/// `a.to_lowercase()` equals `t`, where `t` is lowercase ASCII.
pub open spec fn lower_eq(a: Seq<char>, t: Seq<char>) -> bool {
    &&& a.len() == t.len()
    &&& forall|i: int| 0 <= i < a.len() ==> lower_char(#[trigger] a[i]) == t[i]
}

/// Pieces of `s` between occurrences of `sep`, as `str::split` with a
/// character separator yields them (always at least one piece).
pub open spec fn split_on(s: Seq<char>, sep: char) -> Seq<Seq<char>>
    decreases s.len(),
{
    if s.len() == 0 {
        seq![Seq::<char>::empty()]
    } else {
        let rest = split_on(s.drop_last(), sep);
        if s.last() == sep {
            rest.push(Seq::<char>::empty())
        } else {
            rest.update(rest.len() - 1, rest.last().push(s.last()))
        }
    }
}

/// Value of `s` as read by `str::parse` for an unsigned integer without an
/// upper bound: an optional `+`, then one or more ASCII digits.
pub open spec fn parse_nat(s: Seq<char>) -> Option<nat> {
    let d = if s.len() > 0 && s[0] == '+' { s.drop_first() } else { s };
    if d.len() > 0 && all_digits(d) {
        Some(digits_value(d))
    } else {
        None
    }
}

/// `str::parse::<u32>`: `parse_nat` within the range of `u32`.
pub open spec fn parse_u32(s: Seq<char>) -> Option<u32> {
    match parse_nat(s) {
        Some(v) => if v <= u32::MAX { Some(v as u32) } else { None },
        None => None,
    }
}

/// `str::parse::<usize>`: `parse_nat` within the range of `usize`.
pub open spec fn parse_usize(s: Seq<char>) -> Option<usize> {
    match parse_nat(s) {
        Some(v) => if v <= usize::MAX { Some(v as usize) } else { None },
        None => None,
    }
}

/// Does `c` occur in `s`?
pub open spec fn has_char(s: Seq<char>, c: char) -> bool {
    exists|i: int| 0 <= i < s.len() && s[i] == c
}

/// Lemma: the pieces of `split_on` contain no separator and there is one
/// more piece than there are separators in `s`.
pub proof fn lemma_split_pieces(s: Seq<char>, sep: char)
    ensures
        split_on(s, sep).len() >= 1,
        forall|i: int, j: int|
            0 <= i < split_on(s, sep).len() && 0 <= j < split_on(s, sep)[i].len()
                ==> split_on(s, sep)[i][j] != sep,
        split_on(s, sep).len() == 1 <==> !has_char(s, sep),
        split_on(s, sep).len() == 1 ==> split_on(s, sep)[0] == s,
    decreases s.len(),
{
    if s.len() > 0 {
        lemma_split_pieces(s.drop_last(), sep);
        let rest = split_on(s.drop_last(), sep);
        if has_char(s, sep) && s.last() != sep {
            let k = choose|k: int| 0 <= k < s.len() && s[k] == sep;
            assert(s.drop_last()[k] == sep);
        }
        if has_char(s.drop_last(), sep) {
            let k = choose|k: int| 0 <= k < s.drop_last().len() && s.drop_last()[k] == sep;
            assert(s[k] == sep);
        }
        if s.last() == sep {
            assert(s[s.len() - 1] == sep);
        }
        if split_on(s, sep).len() == 1 {
            assert(s.drop_last().push(s.last()) == s);
        }
    }
}

/// Views of a sequence of character vectors.
pub open spec fn pieces_view(parts: Seq<Vec<char>>) -> Seq<Seq<char>> {
    Seq::new(parts.len(), |i: int| parts[i]@)
}

/// Split `s` at every occurrence of `sep`.
pub fn split_chars(s: &Vec<char>, sep: char) -> (parts: Vec<Vec<char>>)
    ensures
        pieces_view(parts@) == split_on(s@, sep),
{
    let mut parts: Vec<Vec<char>> = Vec::new();
    parts.push(Vec::new());
    let mut i: usize = 0;
    proof {
        assert(s@.subrange(0, 0) == Seq::<char>::empty());
        assert(pieces_view(parts@) =~= split_on(s@.subrange(0, 0), sep));
    }
    while i < s.len()
        invariant
            0 <= i <= s.len(),
            parts.len() >= 1,
            pieces_view(parts@) == split_on(s@.subrange(0, i as int), sep),
        decreases s.len() - i,
    {
        let c = s[i];
        let ghost prev = s@.subrange(0, i as int);
        let ghost next = s@.subrange(0, i as int + 1);
        proof {
            assert(next.drop_last() =~= prev);
            assert(next.last() == c);
        }
        if c == sep {
            parts.push(Vec::new());
            proof {
                assert(pieces_view(parts@) =~= split_on(prev, sep).push(Seq::<char>::empty()));
            }
        } else {
            let ghost before = pieces_view(parts@);
            let mut piece = parts.pop().unwrap();
            piece.push(c);
            parts.push(piece);
            proof {
                assert(pieces_view(parts@) =~= before.update(before.len() - 1, before.last().push(c)));
            }
        }
        i = i + 1;
    }
    proof {
        assert(s@.subrange(0, s@.len() as int) =~= s@);
    }
    parts
}

/// Lemma: the value of a digit sequence is at least the value of any of its
/// prefixes.
pub proof fn lemma_digits_value_prefix_le(d: Seq<char>, k: nat)
    requires
        all_digits(d),
        k <= d.len(),
    ensures
        digits_value(d.subrange(0, k as int)) <= digits_value(d),
    decreases d.len() - k,
{
    if k < d.len() {
        let dl = d.drop_last();
        assert(all_digits(dl)) by {
            assert forall|j: int| 0 <= j < dl.len() implies is_digit(#[trigger] dl[j]) by {
                assert(dl[j] == d[j]);
            }
        }
        lemma_digits_value_prefix_le(dl, k);
        assert(dl.subrange(0, k as int) =~= d.subrange(0, k as int));
    } else {
        assert(d.subrange(0, k as int) =~= d);
    }
}

/// Parse `s` as `str::parse::<u32>` does.
pub fn parse_u32_chars(s: &Vec<char>) -> (r: Option<u32>)
    ensures
        r == parse_u32(s@),
{
    let start: usize = if s.len() > 0 && s[0] == '+' { 1 } else { 0 };
    let ghost d = if s@.len() > 0 && s@[0] == '+' { s@.drop_first() } else { s@ };
    proof {
        assert(d =~= s@.subrange(start as int, s@.len() as int));
    }
    if start >= s.len() {
        return None;
    }
    let mut acc: u64 = 0;
    let mut i: usize = start;
    while i < s.len()
        invariant
            start <= i <= s.len(),
            start < s.len(),
            d == s@.subrange(start as int, s@.len() as int),
            d == (if s@.len() > 0 && s@[0] == '+' { s@.drop_first() } else { s@ }),
            all_digits(s@.subrange(start as int, i as int)),
            acc as nat == digits_value(s@.subrange(start as int, i as int)),
            acc <= u32::MAX,
        decreases s.len() - i,
    {
        let c = s[i];
        let ghost prev = s@.subrange(start as int, i as int);
        let ghost next = s@.subrange(start as int, i as int + 1);
        proof {
            assert(next.drop_last() =~= prev);
            assert(next.last() == c);
        }
        if !('0' <= c && c <= '9') {
            proof {
                assert(d[i - start] == c);
                assert(!all_digits(d));
                assert(parse_nat(s@) == None::<nat>);
            }
            return None;
        }
        let v = (c as u64) - 48;
        acc = acc * 10 + v;
        if acc > 0xFFFF_FFFF {
            proof {
                assert(d.subrange(0, (i - start + 1) as int) =~= next);
                assert forall|j: int| 0 <= j < next.len() implies is_digit(#[trigger] next[j]) by {
                    if j < prev.len() {
                        assert(next[j] == prev[j]);
                    }
                }
                if all_digits(d) {
                    lemma_digits_value_prefix_le(d, (i - start + 1) as nat);
                    assert(digits_value(next) == digits_value(prev) * 10 + digit_value(c));
                    assert(parse_nat(s@) == Some(digits_value(d)));
                } else {
                    assert(parse_nat(s@) == None::<nat>);
                }
            }
            return None;
        }
        proof {
            assert forall|j: int| 0 <= j < next.len() implies is_digit(#[trigger] next[j]) by {
                if j < prev.len() {
                    assert(next[j] == prev[j]);
                }
            }
        }
        i = i + 1;
    }
    proof {
        assert(s@.subrange(start as int, s@.len() as int) == d);
    }
    Some(acc as u32)
}


/// Parse `s` as `str::parse::<usize>` does.
pub fn parse_usize_chars(s: &Vec<char>) -> (r: Option<usize>)
    ensures
        r == parse_usize(s@),
{
    let start: usize = if s.len() > 0 && s[0] == '+' { 1 } else { 0 };
    let ghost d = if s@.len() > 0 && s@[0] == '+' { s@.drop_first() } else { s@ };
    proof {
        assert(d =~= s@.subrange(start as int, s@.len() as int));
    }
    if start >= s.len() {
        return None;
    }
    let mut acc: u128 = 0;
    let mut i: usize = start;
    while i < s.len()
        invariant
            start <= i <= s.len(),
            start < s.len(),
            d == s@.subrange(start as int, s@.len() as int),
            d == (if s@.len() > 0 && s@[0] == '+' { s@.drop_first() } else { s@ }),
            all_digits(s@.subrange(start as int, i as int)),
            acc as nat == digits_value(s@.subrange(start as int, i as int)),
            acc <= usize::MAX,
        decreases s.len() - i,
    {
        let c = s[i];
        let ghost prev = s@.subrange(start as int, i as int);
        let ghost next = s@.subrange(start as int, i as int + 1);
        proof {
            assert(next.drop_last() =~= prev);
            assert(next.last() == c);
        }
        if !('0' <= c && c <= '9') {
            proof {
                assert(d[i - start] == c);
                assert(!all_digits(d));
                assert(parse_nat(s@) == None::<nat>);
            }
            return None;
        }
        let v = (c as u128) - 48;
        acc = acc * 10 + v;
        if acc > usize::MAX as u128 {
            proof {
                assert(d.subrange(0, (i - start + 1) as int) =~= next);
                assert forall|j: int| 0 <= j < next.len() implies is_digit(#[trigger] next[j]) by {
                    if j < prev.len() {
                        assert(next[j] == prev[j]);
                    }
                }
                if all_digits(d) {
                    lemma_digits_value_prefix_le(d, (i - start + 1) as nat);
                    assert(digits_value(next) == digits_value(prev) * 10 + digit_value(c));
                    assert(parse_nat(s@) == Some(digits_value(d)));
                } else {
                    assert(parse_nat(s@) == None::<nat>);
                }
            }
            return None;
        }
        proof {
            assert forall|j: int| 0 <= j < next.len() implies is_digit(#[trigger] next[j]) by {
                if j < prev.len() {
                    assert(next[j] == prev[j]);
                }
            }
        }
        i = i + 1;
    }
    proof {
        assert(s@.subrange(start as int, s@.len() as int) == d);
    }
    Some(acc as usize)
}


/// Append `n` in decimal, left-padded with zeros to at least `width`
/// characters (as `format!("{n:0width$}")`).
pub fn push_padded(out: &mut Vec<char>, n: u64, width: usize)
    ensures
        final(out)@ == old(out)@ + padded(n as nat, width as nat),
{
    let mut digits: Vec<char> = Vec::new();
    push_decimal(&mut digits, n);
    assert(digits@ =~= decimal(n as nat));
    let mut zeros: usize = 0;
    while digits.len() + zeros < width
        invariant
            digits@ == decimal(n as nat),
            digits.len() + zeros <= width || zeros == 0,
            out@ == old(out)@ + Seq::new(zeros as nat, |i: int| '0'),
        decreases width - zeros,
    {
        let ghost before = out@;
        out.push('0');
        proof {
            assert(out@ =~= old(out)@ + Seq::new((zeros + 1) as nat, |i: int| '0'));
        }
        zeros = zeros + 1;
    }
    let mut i: usize = 0;
    let ghost base = out@;
    while i < digits.len()
        invariant
            0 <= i <= digits.len(),
            out@ == base + digits@.subrange(0, i as int),
        decreases digits.len() - i,
    {
        out.push(digits[i]);
        proof {
            assert(out@ =~= base + digits@.subrange(0, i as int + 1));
        }
        i = i + 1;
    }
    proof {
        assert(digits@.subrange(0, digits@.len() as int) =~= digits@);
        if digits@.len() >= width {
            assert(zeros == 0);
            assert(out@ =~= old(out)@ + padded(n as nat, width as nat));
        } else {
            assert(zeros == width - digits@.len());
            assert(out@ =~= old(out)@ + padded(n as nat, width as nat));
        }
    }
}

/// Append all characters of `s` to `out`.
pub fn push_str(out: &mut Vec<char>, s: &str)
    ensures
        final(out)@ == old(out)@ + s@,
{
    let cs = chars_of(s);
    push_chars(out, &cs);
}

/// Append all characters of `cs` to `out`.
pub fn push_chars(out: &mut Vec<char>, cs: &Vec<char>)
    ensures
        final(out)@ == old(out)@ + cs@,
{
    let mut i: usize = 0;
    let ghost base = out@;
    while i < cs.len()
        invariant
            0 <= i <= cs.len(),
            out@ == base + cs@.subrange(0, i as int),
            base == old(out)@,
        decreases cs.len() - i,
    {
        out.push(cs[i]);
        proof {
            assert(out@ =~= base + cs@.subrange(0, i as int + 1));
        }
        i = i + 1;
    }
    proof {
        assert(cs@.subrange(0, cs@.len() as int) =~= cs@);
    }
}

/// `s` begins with `p`.
pub open spec fn starts_with(s: Seq<char>, p: Seq<char>) -> bool {
    p.len() <= s.len() && s.subrange(0, p.len() as int) == p
}

/// `s` ends with `p`.
pub open spec fn ends_with(s: Seq<char>, p: Seq<char>) -> bool {
    p.len() <= s.len() && s.subrange(s.len() - p.len(), s.len() as int) == p
}

/// Does `s` begin with `p`?
pub fn has_prefix(s: &Vec<char>, p: &str) -> (b: bool)
    ensures
        b == starts_with(s@, p@),
{
    let pc = chars_of(p);
    if pc.len() > s.len() {
        return false;
    }
    let mut i: usize = 0;
    while i < pc.len()
        invariant
            0 <= i <= pc.len(),
            pc.len() <= s.len(),
            pc@ == p@,
            forall|k: int| 0 <= k < i ==> s@[k] == pc@[k],
        decreases pc.len() - i,
    {
        if s[i] != pc[i] {
            assert(s@.subrange(0, pc@.len() as int)[i as int] == s@[i as int]);
            return false;
        }
        i = i + 1;
    }
    assert(s@.subrange(0, pc@.len() as int) =~= pc@);
    true
}

/// Does `s` end with `p`?
pub fn has_suffix(s: &Vec<char>, p: &str) -> (b: bool)
    ensures
        b == ends_with(s@, p@),
{
    let pc = chars_of(p);
    if pc.len() > s.len() {
        return false;
    }
    let off = s.len() - pc.len();
    let mut i: usize = 0;
    while i < pc.len()
        invariant
            0 <= i <= pc.len(),
            pc.len() <= s.len(),
            off == s.len() - pc.len(),
            pc@ == p@,
            forall|k: int| 0 <= k < i ==> s@[off + k] == pc@[k],
        decreases pc.len() - i,
    {
        if s[off + i] != pc[i] {
            assert(s@.subrange(off as int, s@.len() as int)[i as int] == s@[off + i]);
            return false;
        }
        i = i + 1;
    }
    assert(s@.subrange(off as int, s@.len() as int) =~= pc@);
    true
}

/// The characters of `s` from `lo` up to (not including) `hi`.
pub fn subvec(s: &Vec<char>, lo: usize, hi: usize) -> (r: Vec<char>)
    requires
        lo <= hi <= s.len(),
    ensures
        r@ == s@.subrange(lo as int, hi as int),
{
    let mut r: Vec<char> = Vec::new();
    let mut i: usize = lo;
    while i < hi
        invariant
            lo <= i <= hi,
            hi <= s.len(),
            r@ == s@.subrange(lo as int, i as int),
        decreases hi - i,
    {
        r.push(s[i]);
        assert(r@ =~= s@.subrange(lo as int, i as int + 1));
        i = i + 1;
    }
    r
}

/// Index of the last occurrence of `c` in `s`.
pub open spec fn index_of_last(s: Seq<char>, c: char) -> Option<int>
    decreases s.len(),
{
    if s.len() == 0 {
        None
    } else if s.last() == c {
        Some(s.len() - 1)
    } else {
        index_of_last(s.drop_last(), c)
    }
}

/// Index of the first occurrence of `c` in `s`.
pub open spec fn index_of_first(s: Seq<char>, c: char) -> Option<int>
    decreases s.len(),
{
    if s.len() == 0 {
        None
    } else if s[0] == c {
        Some(0)
    } else {
        match index_of_first(s.drop_first(), c) {
            Some(i) => Some(i + 1),
            None => None,
        }
    }
}

/// Lemma: the indices found by `index_of_first` and `index_of_last` hold
/// `c`, and no other occurrence lies before (after) them.
pub proof fn lemma_index_of(s: Seq<char>, c: char)
    ensures
        index_of_first(s, c) matches Some(i) ==> 0 <= i < s.len() && s[i] == c
            && forall|j: int| 0 <= j < i ==> s[j] != c,
        index_of_first(s, c) is None ==> forall|j: int| 0 <= j < s.len() ==> s[j] != c,
        index_of_last(s, c) matches Some(i) ==> 0 <= i < s.len() && s[i] == c
            && forall|j: int| i < j < s.len() ==> s[j] != c,
        index_of_last(s, c) is None ==> forall|j: int| 0 <= j < s.len() ==> s[j] != c,
    decreases s.len(),
{
    if s.len() > 0 {
        lemma_index_of(s.drop_first(), c);
        lemma_index_of(s.drop_last(), c);
        assert forall|j: int| 0 < j < s.len() implies s[j] == s.drop_first()[j - 1] by {}
        assert forall|j: int| 0 <= j < s.len() - 1 implies s[j] == s.drop_last()[j] by {}
    }
}

/// Find the last occurrence of `c` in `s`.
pub fn find_last(s: &Vec<char>, c: char) -> (r: Option<usize>)
    ensures
        match r {
            Some(i) => index_of_last(s@, c) == Some(i as int) && i < s.len(),
            None => index_of_last(s@, c) == None::<int>,
        },
{
    proof {
        lemma_index_of(s@, c);
    }
    let mut i: usize = s.len();
    assert(s@.subrange(0, i as int) =~= s@);
    while i > 0
        invariant
            0 <= i <= s.len(),
            index_of_last(s@, c) == index_of_last(s@.subrange(0, i as int), c),
        decreases i,
    {
        let ghost pre = s@.subrange(0, i as int);
        assert(pre.last() == s@[i - 1]);
        if s[i - 1] == c {
            return Some(i - 1);
        }
        assert(pre.drop_last() =~= s@.subrange(0, i - 1));
        i = i - 1;
    }
    None
}

/// Find the first occurrence of `c` in `s`.
pub fn find_first(s: &Vec<char>, c: char) -> (r: Option<usize>)
    ensures
        match r {
            Some(i) => index_of_first(s@, c) == Some(i as int) && i < s.len(),
            None => index_of_first(s@, c) == None::<int>,
        },
{
    proof {
        lemma_index_of(s@, c);
    }
    let mut i: usize = 0;
    assert(s@.skip(0) =~= s@);
    while i < s.len()
        invariant
            0 <= i <= s.len(),
            index_of_first(s@, c) == match index_of_first(s@.skip(i as int), c) {
                Some(k) => Some(k + i),
                None => None,
            },
        decreases s.len() - i,
    {
        let ghost rest = s@.skip(i as int);
        assert(rest[0] == s@[i as int]);
        if s[i] == c {
            return Some(i);
        }
        assert(rest.drop_first() =~= s@.skip(i + 1));
        i = i + 1;
    }
    assert(s@.skip(i as int).len() == 0);
    None
}

/// Number of bytes of the UTF-8 encoding of `c`.
pub open spec fn utf8_len(c: char) -> nat {
    if (c as u32) < 0x80 {
        1
    } else if (c as u32) < 0x800 {
        2
    } else if (c as u32) < 0x10000 {
        3
    } else {
        4
    }
}

/// The characters of `s` after its first `n` bytes of UTF-8, or `None` where
/// byte `n` is past the end or inside a character.
pub open spec fn byte_skip(s: Seq<char>, n: nat) -> Option<Seq<char>>
    decreases s.len(),
{
    if n == 0 {
        Some(s)
    } else if s.len() == 0 || utf8_len(s[0]) > n {
        None
    } else {
        byte_skip(s.drop_first(), (n - utf8_len(s[0])) as nat)
    }
}

/// Executable [`utf8_len`].
pub fn utf8_len_exec(c: char) -> (n: usize)
    ensures
        n == utf8_len(c),
{
    let v = c as u32;
    if v < 0x80 {
        1
    } else if v < 0x800 {
        2
    } else if v < 0x10000 {
        3
    } else {
        4
    }
}

/// Skip the first `n` bytes of the UTF-8 encoding of `s`.
pub fn skip_bytes(s: &Vec<char>, n: usize) -> (r: Option<Vec<char>>)
    ensures
        match r {
            Some(v) => byte_skip(s@, n as nat) == Some(v@),
            None => byte_skip(s@, n as nat) == None::<Seq<char>>,
        },
{
    let mut i: usize = 0;
    let mut left: usize = n;
    assert(s@.skip(0) =~= s@);
    while left > 0
        invariant
            0 <= i <= s.len(),
            byte_skip(s@, n as nat) == byte_skip(s@.skip(i as int), left as nat),
        decreases left,
    {
        let ghost rest = s@.skip(i as int);
        if i >= s.len() {
            return None;
        }
        assert(rest[0] == s@[i as int]);
        let k = utf8_len_exec(s[i]);
        if k > left {
            return None;
        }
        assert(rest.drop_first() =~= s@.skip(i + 1));
        left = left - k;
        i = i + 1;
    }
    let r = subvec(s, i, s.len());
    assert(r@ =~= s@.skip(i as int));
    Some(r)
}

/// Is `c` an ASCII character?
pub open spec fn is_ascii(c: char) -> bool {
    (c as u32) < 0x80
}

/// Executable [`lower_char`].
pub fn lower_char_exec(c: char) -> (r: char)
    ensures
        r == lower_char(c),
{
    if 'A' <= c && c <= 'Z' {
        (((c as u32) + 32) as u8) as char
    } else if c == '\u{212A}' {
        'k'
    } else {
        c
    }
}

/// Is `a.to_lowercase()` equal to the lowercase ASCII string `t`?
pub fn lower_eq_str(a: &Vec<char>, t: &str) -> (b: bool)
    ensures
        b == lower_eq(a@, t@),
{
    let tc = chars_of(t);
    if a.len() != tc.len() {
        return false;
    }
    let mut i: usize = 0;
    while i < a.len()
        invariant
            0 <= i <= a.len(),
            a.len() == tc.len(),
            tc@ == t@,
            forall|k: int| 0 <= k < i ==> lower_char(#[trigger] a@[k]) == tc@[k],
        decreases a.len() - i,
    {
        if lower_char_exec(a[i]) != tc[i] {
            return false;
        }
        i = i + 1;
    }
    true
}

/// Are the characters of `v` exactly those of `t`?
pub fn eq_str(v: &Vec<char>, t: &str) -> (b: bool)
    ensures
        b == (v@ == t@),
{
    let tc = chars_of(t);
    if v.len() != tc.len() {
        return false;
    }
    let mut i: usize = 0;
    while i < v.len()
        invariant
            0 <= i <= v.len(),
            v.len() == tc.len(),
            tc@ == t@,
            forall|k: int| 0 <= k < i ==> v@[k] == tc@[k],
        decreases v.len() - i,
    {
        if v[i] != tc[i] {
            return false;
        }
        i = i + 1;
    }
    assert(v@ =~= tc@);
    true
}

/// Lemma: an ASCII digit's character reads back as the digit.
pub proof fn lemma_digit_char(d: nat)
    requires
        d < 10,
    ensures
        is_digit(digit_char(d)),
        digit_value(digit_char(d)) == d,
        fold_char(digit_char(d)) == digit_char(d),
{
}

/// Lemma: the decimal representation of `n` reads back as `n`.
pub proof fn lemma_digits_value_decimal(n: nat)
    ensures
        digits_value(decimal(n)) == n,
    decreases n,
{
    lemma_digit_char(n % 10);
    let d = decimal(n);
    if n >= 10 {
        lemma_digits_value_decimal(n / 10);
        assert(d.drop_last() =~= decimal(n / 10));
        assert(d.last() == digit_char(n % 10));
        assert((n / 10) * 10 + n % 10 == n);
    } else {
        assert(d.drop_last() =~= Seq::<char>::empty());
        assert(digits_value(Seq::<char>::empty()) == 0);
        assert(n % 10 == n);
    }
}

/// `k` zero characters.
pub open spec fn zeros(k: nat) -> Seq<char> {
    Seq::new(k, |i: int| '0')
}

/// Lemma: leading zeros do not change the value of a digit string.
pub proof fn lemma_digits_value_leading_zeros(k: nat, d: Seq<char>)
    ensures
        digits_value(zeros(k) + d) == digits_value(d),
    decreases d.len(), k,
{
    if d.len() == 0 {
        assert(zeros(k) + d =~= zeros(k));
        if k > 0 {
            lemma_digits_value_leading_zeros((k - 1) as nat, d);
            assert(zeros(k).drop_last() =~= zeros((k - 1) as nat));
            assert(zeros((k - 1) as nat) + d =~= zeros((k - 1) as nat));
        }
    } else {
        lemma_digits_value_leading_zeros(k, d.drop_last());
        assert((zeros(k) + d).drop_last() =~= zeros(k) + d.drop_last());
    }
}

/// Lemma: `padded(n, w)` is the decimal representation of `n` after some
/// leading zeros.
pub proof fn lemma_padded_shape(n: nat, w: nat)
    ensures
        exists|k: nat| padded(n, w) == #[trigger] zeros(k) + decimal(n),
        padded(n, w).len() >= decimal(n).len(),
        padded(n, w).len() >= w,
        decimal(n).len() >= w ==> padded(n, w) == decimal(n),
{
    if decimal(n).len() >= w {
        assert(padded(n, w) == zeros(0) + decimal(n));
    } else {
        let k = (w - decimal(n).len()) as nat;
        assert(padded(n, w) =~= zeros(k) + decimal(n));
    }
}

/// Lemma: a padded decimal is made of digits, reads back as its number and
/// has at least one character.
pub proof fn lemma_padded_digits(n: nat, w: nat)
    ensures
        all_digits(padded(n, w)),
        digits_value(padded(n, w)) == n,
        padded(n, w).len() >= 1,
{
    lemma_padded_shape(n, w);
    lemma_decimal_digits(n);
    lemma_digits_value_decimal(n);
    let k = choose|k: nat| padded(n, w) == #[trigger] zeros(k) + decimal(n);
    lemma_digits_value_leading_zeros(k, decimal(n));
    assert forall|i: int| 0 <= i < padded(n, w).len() implies is_digit(#[trigger] padded(n, w)[i]) by {
        if i < k {
            assert(padded(n, w)[i] == zeros(k)[i]);
        } else {
            assert(padded(n, w)[i] == decimal(n)[i - k]);
        }
    }
}

/// Lemma: `str::parse::<u32>` reads a padded decimal back as its number.
pub proof fn lemma_parse_padded(n: nat, w: nat)
    requires
        n <= u32::MAX,
    ensures
        parse_u32(padded(n, w)) == Some(n as u32),
{
    lemma_padded_digits(n, w);
    assert(is_digit(padded(n, w)[0]));
}

/// Lemma: `str::parse::<u32>` reads a decimal back as its number.
pub proof fn lemma_parse_decimal(n: nat)
    requires
        n <= u32::MAX,
    ensures
        parse_u32(decimal(n)) == Some(n as u32),
{
    lemma_parse_padded(n, 0);
    assert(padded(n, 0) == decimal(n));
}

/// Lemma: decimal representations of different numbers differ.
pub proof fn lemma_decimal_injective(a: nat, b: nat)
    ensures
        decimal(a) == decimal(b) ==> a == b,
{
    lemma_digits_value_decimal(a);
    lemma_digits_value_decimal(b);
}

/// Lemma: numbers below 10, 100 and 1000 have at most one, two and three
/// digits.
pub proof fn lemma_decimal_len(n: nat)
    ensures
        n < 10 ==> decimal(n).len() == 1,
        n < 100 ==> decimal(n).len() <= 2,
        n < 1000 ==> decimal(n).len() <= 3,
{
    reveal_with_fuel(decimal, 3);
}

/// Lemma: splitting `x`, a separator and a piece without separators gives
/// the pieces of `x` and then that piece.
pub proof fn lemma_split_append(x: Seq<char>, sep: char, y: Seq<char>)
    requires
        !has_char(y, sep),
    ensures
        split_on(x + seq![sep] + y, sep) == split_on(x, sep).push(y),
    decreases y.len(),
{
    if y.len() == 0 {
        let z = x + seq![sep] + y;
        assert(z =~= x.push(sep));
        assert(z.drop_last() =~= x);
        assert(z.last() == sep);
        assert(y =~= Seq::<char>::empty());
    } else {
        let y0 = y.drop_last();
        assert(!has_char(y0, sep)) by {
            if has_char(y0, sep) {
                let k = choose|k: int| 0 <= k < y0.len() && y0[k] == sep;
                assert(y[k] == sep);
            }
        }
        lemma_split_append(x, sep, y0);
        assert((x + seq![sep] + y).drop_last() =~= x + seq![sep] + y0);
        assert(y.last() != sep) by {
            assert(y[y.len() - 1] == y.last());
        }
        lemma_split_pieces(x, sep);
        assert(y0.push(y.last()) =~= y);
        let z = x + seq![sep] + y;
        assert(z.last() == y.last());
        let rest = split_on(x, sep).push(y0);
        assert(split_on(z, sep) == rest.update(rest.len() - 1, rest.last().push(z.last())));
        assert(rest.update(rest.len() - 1, rest.last().push(z.last())) =~= split_on(x, sep).push(y));
    }
}

/// Lemma: a string without separators is a single piece.
pub proof fn lemma_split_single(y: Seq<char>, sep: char)
    requires
        !has_char(y, sep),
    ensures
        split_on(y, sep) == seq![y],
{
    lemma_split_pieces(y, sep);
}

/// Lemma: digit strings hold no space.
pub proof fn lemma_digits_no_space(d: Seq<char>)
    requires
        all_digits(d),
    ensures
        !has_char(d, ' '),
{
    if has_char(d, ' ') {
        let k = choose|k: int| 0 <= k < d.len() && d[k] == ' ';
        assert(is_digit(d[k]));
    }
}

/// Lemma: skipping the bytes of an ASCII prefix leaves the rest.
pub proof fn lemma_byte_skip_ascii(p: Seq<char>, q: Seq<char>)
    requires
        forall|i: int| 0 <= i < p.len() ==> is_ascii(#[trigger] p[i]),
    ensures
        byte_skip(p + q, p.len()) == Some(q),
    decreases p.len(),
{
    if p.len() == 0 {
        assert(p + q =~= q);
    } else {
        assert(is_ascii(p[0]));
        assert((p + q)[0] == p[0]);
        assert((p + q).drop_first() =~= p.drop_first() + q);
        assert forall|i: int| 0 <= i < p.drop_first().len() implies is_ascii(#[trigger] p.drop_first()[i]) by {
            assert(p.drop_first()[i] == p[i + 1]);
        }
        lemma_byte_skip_ascii(p.drop_first(), q);
    }
}

/// Lemma: the last occurrence of `c` in `p`, `c`, `q` is the one between
/// them when `q` holds none.
pub proof fn lemma_index_of_last_append(p: Seq<char>, c: char, q: Seq<char>)
    requires
        !has_char(q, c),
    ensures
        index_of_last(p + seq![c] + q, c) == Some(p.len() as int),
    decreases q.len(),
{
    let s = p + seq![c] + q;
    if q.len() == 0 {
        assert(s.last() == c);
        assert(s.len() == p.len() + 1);
    } else {
        let q0 = q.drop_last();
        assert(!has_char(q0, c)) by {
            if has_char(q0, c) {
                let k = choose|k: int| 0 <= k < q0.len() && q0[k] == c;
                assert(q[k] == c);
            }
        }
        assert(s.last() == q[q.len() - 1]);
        assert(s.drop_last() =~= p + seq![c] + q0);
        lemma_index_of_last_append(p, c, q0);
    }
}

/// `10` to the power `k`.
pub open spec fn pow10(k: nat) -> nat
    decreases k,
{
    if k == 0 {
        1
    } else {
        10 * pow10((k - 1) as nat)
    }
}

/// Lemma: numbers below `10^k` (`k >= 1`) have at most `k` digits.
pub proof fn lemma_decimal_len_pow(n: nat, k: nat)
    requires
        k >= 1,
        n < pow10(k),
    ensures
        decimal(n).len() <= k,
    decreases k,
{
    if n >= 10 {
        assert(k >= 2) by {
            if k == 1 {
                assert(pow10(1) == 10 * pow10(0));
            }
        }
        assert(pow10(k) == 10 * pow10((k - 1) as nat));
        assert(n / 10 < pow10((k - 1) as nat));
        lemma_decimal_len_pow(n / 10, (k - 1) as nat);
    }
}

/// Lemma: a `u32` has at most ten digits.
pub proof fn lemma_decimal_len_u32(n: nat)
    requires
        n <= u32::MAX,
    ensures
        decimal(n).len() <= 10,
{
    reveal_with_fuel(pow10, 11);
    lemma_decimal_len_pow(n, 10);
}

/// Append `s` to `buf`.
pub(crate) fn append_str(buf: &mut String, s: &str)
    ensures
        final(buf)@ == old(buf)@ + s@,
{
    buf.append(s);
}

/// Append the characters of `cs` to `buf`.
pub fn append_chars(buf: &mut String, cs: &Vec<char>)
    ensures
        final(buf)@ == old(buf)@ + cs@,
{
    let s = string_from(cs);
    append_str(buf, s.as_str());
}

/// The characters of `s` without its last `k` bytes of UTF-8, and those
/// last characters, or `None` where byte `len - k` is not the start of a
/// character.
pub open spec fn byte_split_end(s: Seq<char>, k: nat) -> Option<(Seq<char>, Seq<char>)>
    decreases s.len(),
{
    if k == 0 {
        Some((s, Seq::<char>::empty()))
    } else if s.len() == 0 || utf8_len(s.last()) > k {
        None
    } else {
        match byte_split_end(s.drop_last(), (k - utf8_len(s.last())) as nat) {
            Some((a, b)) => Some((a, b.push(s.last()))),
            None => None,
        }
    }
}

/// Split the last `k` bytes of UTF-8 off `s`.
pub fn split_bytes_end(s: &Vec<char>, k: usize) -> (r: Option<(Vec<char>, Vec<char>)>)
    ensures
        match r {
            Some((a, b)) => byte_split_end(s@, k as nat) == Some((a@, b@)),
            None => byte_split_end(s@, k as nat) is None,
        },
{
    let mut i: usize = s.len();
    let mut left: usize = k;
    assert(s@.subrange(0, i as int) =~= s@);
    while left > 0
        invariant
            0 <= i <= s.len(),
            left <= k,
            byte_split_end(s@, k as nat) == match byte_split_end(s@.subrange(0, i as int), left as nat) {
                Some((a, b)) => Some((a, b + s@.subrange(i as int, s@.len() as int))),
                None => None,
            },
        decreases left,
    {
        let ghost pre = s@.subrange(0, i as int);
        if i == 0 {
            return None;
        }
        assert(pre.last() == s@[i - 1]);
        let n = utf8_len_exec(s[i - 1]);
        if n > left {
            return None;
        }
        proof {
            assert(pre.drop_last() =~= s@.subrange(0, i - 1));
            let rest = s@.subrange(i as int, s@.len() as int);
            let rest2 = s@.subrange(i - 1, s@.len() as int);
            assert(rest2 =~= seq![s@[i - 1]] + rest);
            match byte_split_end(s@.subrange(0, i - 1), (left - n) as nat) {
                Some((a, b)) => {
                    assert(b.push(pre.last()) + rest =~= b + rest2);
                },
                None => {},
            }
        }
        left = left - n;
        i = i - 1;
    }
    let a = subvec(s, 0, i);
    let b = subvec(s, i, s.len());
    proof {
        assert(a@ =~= s@.subrange(0, i as int));
        assert(Seq::<char>::empty() + b@ =~= b@);
    }
    Some((a, b))
}

/// What `str::to_lowercase` returns for a string (its Unicode lowercase
/// mapping).
pub uninterp spec fn lowercase(s: Seq<char>) -> Seq<char>;

#[verifier::external_body]
/// Lowercase form of `s`.
///
/// Calls `str::to_lowercase`; the contract names its result `lowercase` of
/// the characters of `s`, a function of them alone.
pub(crate) fn to_lowercase(s: &str) -> (r: String)
    ensures
        r@ == lowercase(s@),
{
    s.to_lowercase()
}

/// Are two strings equal?
pub fn str_eq(a: &str, b: &str) -> (r: bool)
    ensures
        r == (a@ == b@),
{
    let ac = chars_of(a);
    eq_str(&ac, b)
}


/// Views of a sequence of strings.
pub open spec fn strings_view(v: Seq<String>) -> Seq<Seq<char>> {
    Seq::new(v.len(), |i: int| v[i]@)
}

/// `items` joined with `sep` between consecutive items.
pub open spec fn join(items: Seq<Seq<char>>, sep: Seq<char>) -> Seq<char>
    decreases items.len(),
{
    if items.len() == 0 {
        Seq::empty()
    } else if items.len() == 1 {
        items[0]
    } else {
        join(items.drop_last(), sep) + sep + items.last()
    }
}

/// Append `items` joined with `sep` to `out`.
pub fn push_join(out: &mut Vec<char>, items: &Vec<String>, sep: &str)
    ensures
        final(out)@ == old(out)@ + join(strings_view(items@), sep@),
{
    let ghost all = strings_view(items@);
    let ghost base = out@;
    let mut i: usize = 0;
    assert(all.take(0) =~= Seq::<Seq<char>>::empty());
    assert(base + Seq::<char>::empty() =~= base);
    while i < items.len()
        invariant
            0 <= i <= items.len(),
            all == strings_view(items@),
            base == old(out)@,
            out@ == base + join(all.take(i as int), sep@),
        decreases items.len() - i,
    {
        let ghost before = out@;
        if i > 0 {
            push_str(out, sep);
        }
        push_str(out, items[i].as_str());
        proof {
            let t = all.take(i + 1);
            assert(t.drop_last() =~= all.take(i as int));
            assert(t.last() == items@[i as int]@);
            if i == 0 {
                assert(join(t, sep@) == t[0]);
                assert(out@ =~= base + join(t, sep@));
            } else {
                assert(out@ =~= base + join(t, sep@));
            }
        }
        i = i + 1;
    }
    assert(all.take(items.len() as int) =~= all);
}

/// `items` joined with `sep` between consecutive items.
pub fn join_strings(items: &Vec<String>, sep: &str) -> (s: String)
    ensures
        s@ == join(strings_view(items@), sep@),
{
    let mut out: Vec<char> = Vec::new();
    push_join(&mut out, items, sep);
    assert(out@ =~= join(strings_view(items@), sep@));
    string_from(&out)
}

/// `s` with every occurrence of the nonempty `from` replaced by `to`,
/// occurrences found left to right without overlapping.
pub open spec fn replaced(s: Seq<char>, from: Seq<char>, to: Seq<char>) -> Seq<char>
    decreases s.len(),
{
    if from.len() == 0 || s.len() < from.len() {
        s
    } else if s.subrange(0, from.len() as int) == from {
        to + replaced(s.skip(from.len() as int), from, to)
    } else {
        seq![s[0]] + replaced(s.skip(1), from, to)
    }
}

/// Does `from` occur in `s` at index `i`?
fn occurs_at(s: &Vec<char>, from: &Vec<char>, i: usize) -> (b: bool)
    requires
        i + from.len() <= s.len(),
    ensures
        b == (s@.subrange(i as int, i + from.len()) == from@),
{
    let mut k: usize = 0;
    while k < from.len()
        invariant
            0 <= k <= from.len(),
            i + from.len() <= s.len(),
            forall|q: int| 0 <= q < k ==> s@[i + q] == from@[q],
        decreases from.len() - k,
    {
        if s[i + k] != from[k] {
            assert(s@.subrange(i as int, i + from.len())[k as int] != from@[k as int]);
            return false;
        }
        k = k + 1;
    }
    assert(s@.subrange(i as int, i + from.len()) =~= from@);
    true
}

/// Replace every occurrence of the nonempty `from` in `s` by `to`, left to
/// right (as `str::replace` does).
pub fn replace_str(s: &str, from: &str, to: &str) -> (r: String)
    requires
        from@.len() > 0,
    ensures
        r@ == replaced(s@, from@, to@),
{
    let cs = chars_of(s);
    let fs = chars_of(from);
    let ts = chars_of(to);
    let mut out: Vec<char> = Vec::new();
    let mut i: usize = 0;
    assert(cs@.skip(0) =~= cs@);
    while i < cs.len()
        invariant
            0 <= i <= cs.len(),
            fs@ == from@,
            ts@ == to@,
            fs@.len() > 0,
            out@ + replaced(cs@.skip(i as int), fs@, ts@) == replaced(cs@, fs@, ts@),
        decreases cs.len() - i,
    {
        let ghost rest = cs@.skip(i as int);
        let ghost before = out@;
        if fs.len() <= cs.len() - i && occurs_at(&cs, &fs, i) {
            assert(rest.subrange(0, fs@.len() as int) =~= cs@.subrange(i as int, i + fs@.len()));
            assert(rest.skip(fs@.len() as int) =~= cs@.skip(i + fs@.len()));
            let ghost tail = replaced(cs@.skip(i + fs@.len()), fs@, ts@);
            assert(replaced(rest, fs@, ts@) == ts@ + tail);
            push_chars(&mut out, &ts);
            assert(out@ + tail =~= before + (ts@ + tail));
            i = i + fs.len();
        } else {
            proof {
                if rest.len() >= fs@.len() {
                    assert(rest.subrange(0, fs@.len() as int) =~= cs@.subrange(i as int, i + fs@.len()));
                }
            }
            assert(rest.skip(1) =~= cs@.skip(i + 1));
            let ghost tail = replaced(cs@.skip(i + 1), fs@, ts@);
            assert(replaced(rest, fs@, ts@) == seq![cs@[i as int]] + tail);
            out.push(cs[i]);
            assert(out@ + tail =~= before + (seq![cs@[i as int]] + tail));
            i = i + 1;
        }
    }
    assert(cs@.skip(i as int) =~= Seq::<char>::empty());
    assert(out@ =~= replaced(cs@, fs@, ts@));
    string_from(&out)
}

} // verus!
