//! Decimal digits in the Unicode sense (general category `Nd`), the class
//! that `\d` matches in the file-name patterns, and the run of leading
//! characters outside it.

use vstd::prelude::*;
use crate::text::is_digit;

verus! {

/// Is the code point `u` a decimal digit outside ASCII? These are the ranges
/// of the Unicode 16 `Decimal_Number` category past `'0'..='9'`.
#[verifier::opaque]
pub open spec fn other_decimal_number(u: u32) -> bool {
        (0x660 <= u && u <= 0x669) || (0x6f0 <= u && u <= 0x6f9) || (0x7c0 <= u && u <= 0x7c9) ||
        (0x966 <= u && u <= 0x96f) || (0x9e6 <= u && u <= 0x9ef) || (0xa66 <= u && u <= 0xa6f) ||
        (0xae6 <= u && u <= 0xaef) || (0xb66 <= u && u <= 0xb6f) || (0xbe6 <= u && u <= 0xbef) ||
        (0xc66 <= u && u <= 0xc6f) || (0xce6 <= u && u <= 0xcef) || (0xd66 <= u && u <= 0xd6f) ||
        (0xde6 <= u && u <= 0xdef) || (0xe50 <= u && u <= 0xe59) || (0xed0 <= u && u <= 0xed9) ||
        (0xf20 <= u && u <= 0xf29) || (0x1040 <= u && u <= 0x1049) || (0x1090 <= u && u <= 0x1099) ||
        (0x17e0 <= u && u <= 0x17e9) || (0x1810 <= u && u <= 0x1819) || (0x1946 <= u && u <= 0x194f) ||
        (0x19d0 <= u && u <= 0x19d9) || (0x1a80 <= u && u <= 0x1a89) || (0x1a90 <= u && u <= 0x1a99) ||
        (0x1b50 <= u && u <= 0x1b59) || (0x1bb0 <= u && u <= 0x1bb9) || (0x1c40 <= u && u <= 0x1c49) ||
        (0x1c50 <= u && u <= 0x1c59) || (0xa620 <= u && u <= 0xa629) || (0xa8d0 <= u && u <= 0xa8d9) ||
        (0xa900 <= u && u <= 0xa909) || (0xa9d0 <= u && u <= 0xa9d9) || (0xa9f0 <= u && u <= 0xa9f9) ||
        (0xaa50 <= u && u <= 0xaa59) || (0xabf0 <= u && u <= 0xabf9) || (0xff10 <= u && u <= 0xff19) ||
        (0x104a0 <= u && u <= 0x104a9) || (0x10d30 <= u && u <= 0x10d39) || (0x10d40 <= u && u <= 0x10d49) ||
        (0x11066 <= u && u <= 0x1106f) || (0x110f0 <= u && u <= 0x110f9) || (0x11136 <= u && u <= 0x1113f) ||
        (0x111d0 <= u && u <= 0x111d9) || (0x112f0 <= u && u <= 0x112f9) || (0x11450 <= u && u <= 0x11459) ||
        (0x114d0 <= u && u <= 0x114d9) || (0x11650 <= u && u <= 0x11659) || (0x116c0 <= u && u <= 0x116c9) ||
        (0x116d0 <= u && u <= 0x116e3) || (0x11730 <= u && u <= 0x11739) || (0x118e0 <= u && u <= 0x118e9) ||
        (0x11950 <= u && u <= 0x11959) || (0x11bf0 <= u && u <= 0x11bf9) || (0x11c50 <= u && u <= 0x11c59) ||
        (0x11d50 <= u && u <= 0x11d59) || (0x11da0 <= u && u <= 0x11da9) || (0x11f50 <= u && u <= 0x11f59) ||
        (0x16130 <= u && u <= 0x16139) || (0x16a60 <= u && u <= 0x16a69) || (0x16ac0 <= u && u <= 0x16ac9) ||
        (0x16b50 <= u && u <= 0x16b59) || (0x16d70 <= u && u <= 0x16d79) || (0x1ccf0 <= u && u <= 0x1ccf9) ||
        (0x1d7ce <= u && u <= 0x1d7ff) || (0x1e140 <= u && u <= 0x1e149) || (0x1e2f0 <= u && u <= 0x1e2f9) ||
        (0x1e4f0 <= u && u <= 0x1e4f9) || (0x1e5f1 <= u && u <= 0x1e5fa) || (0x1e950 <= u && u <= 0x1e959) ||
        (0x1fbf0 <= u && u <= 0x1fbf9)
}

/// Is `c` a decimal digit (Unicode general category `Nd`)?
pub open spec fn is_decimal_number(c: char) -> bool {
    is_digit(c) || other_decimal_number(c as u32)
}

/// Lemma: an ASCII character is a decimal digit exactly when it is one of
/// `'0'..='9'`.
pub proof fn lemma_ascii_decimal(c: char)
    requires
        (c as u32) < 0x80,
    ensures
        is_decimal_number(c) == is_digit(c),
{
    reveal(other_decimal_number);
}

/// Every character of `s` is a decimal digit.
pub open spec fn all_decimal(s: Seq<char>) -> bool {
    forall|i: int| 0 <= i < s.len() ==> is_decimal_number(#[trigger] s[i])
}

/// Length of the longest prefix of `s` that holds no decimal digit.
pub open spec fn non_decimal_prefix_len(s: Seq<char>) -> nat
    decreases s.len(),
{
    if s.len() == 0 || is_decimal_number(s[0]) {
        0
    } else {
        1 + non_decimal_prefix_len(s.drop_first())
    }
}

/// Lemma: the prefix measured by `non_decimal_prefix_len` fits in `s`, holds
/// no decimal digit, and is followed by one where it ends before `s` does.
pub proof fn lemma_non_decimal_prefix(s: Seq<char>)
    ensures
        non_decimal_prefix_len(s) <= s.len(),
        forall|i: int| 0 <= i < non_decimal_prefix_len(s) ==> !is_decimal_number(#[trigger] s[i]),
        non_decimal_prefix_len(s) < s.len() ==> is_decimal_number(s[non_decimal_prefix_len(s) as int]),
    decreases s.len(),
{
    if s.len() > 0 && !is_decimal_number(s[0]) {
        lemma_non_decimal_prefix(s.drop_first());
        assert forall|i: int| 0 <= i < non_decimal_prefix_len(s) implies !is_decimal_number(#[trigger] s[i]) by {
            if i > 0 {
                assert(s[i] == s.drop_first()[i - 1]);
            }
        }
    }
}

/// Lemma: the run of non-digits at the front of `a + b` is `a` where `a`
/// holds no decimal digit and `b` begins with one.
pub proof fn lemma_non_decimal_prefix_append(a: Seq<char>, b: Seq<char>)
    requires
        forall|i: int| 0 <= i < a.len() ==> !is_decimal_number(#[trigger] a[i]),
        b.len() > 0,
        is_decimal_number(b[0]),
    ensures
        non_decimal_prefix_len(a + b) == a.len(),
    decreases a.len(),
{
    if a.len() == 0 {
        assert(a + b =~= b);
    } else {
        assert((a + b)[0] == a[0]);
        assert((a + b).drop_first() =~= a.drop_first() + b);
        assert forall|i: int| 0 <= i < a.drop_first().len() implies !is_decimal_number(#[trigger] a.drop_first()[i]) by {
            assert(a.drop_first()[i] == a[i + 1]);
        }
        lemma_non_decimal_prefix_append(a.drop_first(), b);
    }
}

/// Is `c` a decimal digit?
pub fn is_decimal_number_exec(c: char) -> (b: bool)
    ensures
        b == is_decimal_number(c),
{
    let u: u32 = c as u32;
    proof {
        reveal(other_decimal_number);
    }
    ('0' <= c && c <= '9') || (
        (0x660 <= u && u <= 0x669) || (0x6f0 <= u && u <= 0x6f9) || (0x7c0 <= u && u <= 0x7c9) ||
        (0x966 <= u && u <= 0x96f) || (0x9e6 <= u && u <= 0x9ef) || (0xa66 <= u && u <= 0xa6f) ||
        (0xae6 <= u && u <= 0xaef) || (0xb66 <= u && u <= 0xb6f) || (0xbe6 <= u && u <= 0xbef) ||
        (0xc66 <= u && u <= 0xc6f) || (0xce6 <= u && u <= 0xcef) || (0xd66 <= u && u <= 0xd6f) ||
        (0xde6 <= u && u <= 0xdef) || (0xe50 <= u && u <= 0xe59) || (0xed0 <= u && u <= 0xed9) ||
        (0xf20 <= u && u <= 0xf29) || (0x1040 <= u && u <= 0x1049) || (0x1090 <= u && u <= 0x1099) ||
        (0x17e0 <= u && u <= 0x17e9) || (0x1810 <= u && u <= 0x1819) || (0x1946 <= u && u <= 0x194f) ||
        (0x19d0 <= u && u <= 0x19d9) || (0x1a80 <= u && u <= 0x1a89) || (0x1a90 <= u && u <= 0x1a99) ||
        (0x1b50 <= u && u <= 0x1b59) || (0x1bb0 <= u && u <= 0x1bb9) || (0x1c40 <= u && u <= 0x1c49) ||
        (0x1c50 <= u && u <= 0x1c59) || (0xa620 <= u && u <= 0xa629) || (0xa8d0 <= u && u <= 0xa8d9) ||
        (0xa900 <= u && u <= 0xa909) || (0xa9d0 <= u && u <= 0xa9d9) || (0xa9f0 <= u && u <= 0xa9f9) ||
        (0xaa50 <= u && u <= 0xaa59) || (0xabf0 <= u && u <= 0xabf9) || (0xff10 <= u && u <= 0xff19) ||
        (0x104a0 <= u && u <= 0x104a9) || (0x10d30 <= u && u <= 0x10d39) || (0x10d40 <= u && u <= 0x10d49) ||
        (0x11066 <= u && u <= 0x1106f) || (0x110f0 <= u && u <= 0x110f9) || (0x11136 <= u && u <= 0x1113f) ||
        (0x111d0 <= u && u <= 0x111d9) || (0x112f0 <= u && u <= 0x112f9) || (0x11450 <= u && u <= 0x11459) ||
        (0x114d0 <= u && u <= 0x114d9) || (0x11650 <= u && u <= 0x11659) || (0x116c0 <= u && u <= 0x116c9) ||
        (0x116d0 <= u && u <= 0x116e3) || (0x11730 <= u && u <= 0x11739) || (0x118e0 <= u && u <= 0x118e9) ||
        (0x11950 <= u && u <= 0x11959) || (0x11bf0 <= u && u <= 0x11bf9) || (0x11c50 <= u && u <= 0x11c59) ||
        (0x11d50 <= u && u <= 0x11d59) || (0x11da0 <= u && u <= 0x11da9) || (0x11f50 <= u && u <= 0x11f59) ||
        (0x16130 <= u && u <= 0x16139) || (0x16a60 <= u && u <= 0x16a69) || (0x16ac0 <= u && u <= 0x16ac9) ||
        (0x16b50 <= u && u <= 0x16b59) || (0x16d70 <= u && u <= 0x16d79) || (0x1ccf0 <= u && u <= 0x1ccf9) ||
        (0x1d7ce <= u && u <= 0x1d7ff) || (0x1e140 <= u && u <= 0x1e149) || (0x1e2f0 <= u && u <= 0x1e2f9) ||
        (0x1e4f0 <= u && u <= 0x1e4f9) || (0x1e5f1 <= u && u <= 0x1e5fa) || (0x1e950 <= u && u <= 0x1e959) ||
        (0x1fbf0 <= u && u <= 0x1fbf9)
    )
}

/// Are all characters of `s` decimal digits?
pub fn all_decimal_exec(s: &Vec<char>) -> (b: bool)
    ensures
        b == all_decimal(s@),
{
    let mut i: usize = 0;
    while i < s.len()
        invariant
            0 <= i <= s.len(),
            forall|k: int| 0 <= k < i ==> is_decimal_number(#[trigger] s@[k]),
        decreases s.len() - i,
    {
        if !is_decimal_number_exec(s[i]) {
            return false;
        }
        i = i + 1;
    }
    true
}

/// Count the leading characters of `s` that are not decimal digits.
pub fn count_non_decimal_prefix(s: &Vec<char>) -> (n: usize)
    ensures
        n == non_decimal_prefix_len(s@),
        n <= s.len(),
{
    let mut i: usize = 0;
    assert(s@.skip(0) =~= s@);
    while i < s.len() && !is_decimal_number_exec(s[i])
        invariant
            0 <= i <= s.len(),
            non_decimal_prefix_len(s@) == i + non_decimal_prefix_len(s@.skip(i as int)),
        decreases s.len() - i,
    {
        let ghost rest = s@.skip(i as int);
        assert(rest[0] == s@[i as int]);
        assert(rest.drop_first() =~= s@.skip(i + 1));
        i = i + 1;
    }
    proof {
        if i < s.len() {
            assert(s@.skip(i as int)[0] == s@[i as int]);
        }
    }
    i
}

} // verus!
