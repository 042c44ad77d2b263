//! Deals with page sections.

use crate::text::{chars_of, push_chars, push_str, string_from, subvec};
use vstd::prelude::*;

verus! {

/// Title of a section.
#[derive(Debug, PartialEq, Eq)]
pub enum SectionTitle {
    /// No title, i.e. the section is blank.
    Blank,
    /// Title with two `=` on either side.
    H2(String),
    /// Title with three `=` on either side.
    H3(String),
    /// Title with four `=` on either side.
    H4(String),
    /// Title with five `=` on either side.
    H5(String),
    /// Title with six `=` on either side.
    H6(String),
}

/// Section of a page.
#[derive(Debug, PartialEq, Eq)]
pub struct Section {
    /// Section title.
    pub title: SectionTitle,
    /// Section content.
    pub content: String,
}

/// Is `c` white space (the Unicode `White_Space` property, as
/// `char::is_whitespace` and `str::trim` use it)?
pub open spec fn is_white_space(c: char) -> bool {
    ('\u{9}' <= c && c <= '\u{d}') || c == ' ' || c == '\u{85}' || c == '\u{a0}' || c == '\u{1680}'
        || ('\u{2000}' <= c && c <= '\u{200a}') || c == '\u{2028}' || c == '\u{2029}' || c == '\u{202f}'
        || c == '\u{205f}' || c == '\u{3000}'
}

/// Executable [`is_white_space`].
pub fn is_white_space_exec(c: char) -> (b: bool)
    ensures
        b == is_white_space(c),
{
    ('\u{9}' <= c && c <= '\u{d}') || c == ' ' || c == '\u{85}' || c == '\u{a0}' || c == '\u{1680}'
        || ('\u{2000}' <= c && c <= '\u{200a}') || c == '\u{2028}' || c == '\u{2029}' || c == '\u{202f}'
        || c == '\u{205f}' || c == '\u{3000}'
}

/// Number of white space characters at the start of `s`.
pub open spec fn leading_ws(s: Seq<char>) -> nat
    decreases s.len(),
{
    if s.len() == 0 || !is_white_space(s[0]) {
        0
    } else {
        1 + leading_ws(s.drop_first())
    }
}

/// Number of white space characters at the end of `s`.
pub open spec fn trailing_ws(s: Seq<char>) -> nat
    decreases s.len(),
{
    if s.len() == 0 || !is_white_space(s.last()) {
        0
    } else {
        1 + trailing_ws(s.drop_last())
    }
}

/// `s` without white space at either end (as `str::trim`).
pub open spec fn trim(s: Seq<char>) -> Seq<char> {
    let t = s.skip(leading_ws(s) as int);
    t.subrange(0, t.len() - trailing_ws(t))
}

/// Lemma: the white space counts fit in the string.
pub proof fn lemma_ws_len(s: Seq<char>)
    ensures
        leading_ws(s) <= s.len(),
        trailing_ws(s) <= s.len(),
    decreases s.len(),
{
    if s.len() > 0 {
        lemma_ws_len(s.drop_first());
        lemma_ws_len(s.drop_last());
    }
}

/// Executable [`trim`].
pub fn trim_chars(s: &Vec<char>) -> (r: Vec<char>)
    ensures
        r@ == trim(s@),
{
    let mut i: usize = 0;
    assert(s@.skip(0) =~= s@);
    while i < s.len() && is_white_space_exec(s[i])
        invariant
            0 <= i <= s.len(),
            leading_ws(s@) == i + leading_ws(s@.skip(i as int)),
        decreases s.len() - i,
    {
        assert(s@.skip(i as int)[0] == s@[i as int]);
        assert(s@.skip(i as int).drop_first() =~= s@.skip(i + 1));
        i = i + 1;
    }
    if i < s.len() {
        assert(s@.skip(i as int)[0] == s@[i as int]);
    }
    let t = subvec(s, i, s.len());
    assert(t@ =~= s@.skip(i as int));
    let mut j: usize = t.len();
    assert(t@.subrange(0, j as int) =~= t@);
    while j > 0 && is_white_space_exec(t[j - 1])
        invariant
            0 <= j <= t.len(),
            trailing_ws(t@) == (t.len() - j) + trailing_ws(t@.subrange(0, j as int)),
        decreases j,
    {
        assert(t@.subrange(0, j as int).last() == t@[j - 1]);
        assert(t@.subrange(0, j as int).drop_last() =~= t@.subrange(0, j - 1));
        j = j - 1;
    }
    if j > 0 {
        assert(t@.subrange(0, j as int).last() == t@[j - 1]);
    }
    subvec(&t, 0, j)
}

/// Text of a section: the title line (`==title==` and so on, none for a
/// blank title), then the content without surrounding white space.
pub open spec fn section_text(title: SectionTitle, content: Seq<char>) -> Seq<char> {
    let head = match title {
        SectionTitle::Blank => Seq::<char>::empty(),
        SectionTitle::H2(t) => "=="@ + t@ + "=="@ + seq!['\n'],
        SectionTitle::H3(t) => "==="@ + t@ + "==="@ + seq!['\n'],
        SectionTitle::H4(t) => "===="@ + t@ + "===="@ + seq!['\n'],
        SectionTitle::H5(t) => "====="@ + t@ + "====="@ + seq!['\n'],
        SectionTitle::H6(t) => "======"@ + t@ + "======"@ + seq!['\n'],
    };
    head + trim(content)
}

impl Section {
    /// Create a new section.
    pub fn new(title: SectionTitle, content: String) -> (s: Self)
        ensures
            s.title == title,
            s.content == content,
    {
        Self { title, content }
    }

    /// Create a section with a blank title.
    pub fn blank(content: String) -> (s: Self)
        ensures
            s.title == SectionTitle::Blank,
            s.content == content,
    {
        Self::new(SectionTitle::Blank, content)
    }

    /// Create a section with an `h2` title.
    pub fn h2(title: String, content: String) -> (s: Self)
        ensures
            s.title == SectionTitle::H2(title),
            s.content == content,
    {
        Self::new(SectionTitle::H2(title), content)
    }

    /// Create a section with an `h3` title.
    pub fn h3(title: String, content: String) -> (s: Self)
        ensures
            s.title == SectionTitle::H3(title),
            s.content == content,
    {
        Self::new(SectionTitle::H3(title), content)
    }

    /// Create a section with an `h4` title.
    pub fn h4(title: String, content: String) -> (s: Self)
        ensures
            s.title == SectionTitle::H4(title),
            s.content == content,
    {
        Self::new(SectionTitle::H4(title), content)
    }

    /// Create a section with an `h5` title.
    pub fn h5(title: String, content: String) -> (s: Self)
        ensures
            s.title == SectionTitle::H5(title),
            s.content == content,
    {
        Self::new(SectionTitle::H5(title), content)
    }

    /// Create a section with an `h6` title.
    pub fn h6(title: String, content: String) -> (s: Self)
        ensures
            s.title == SectionTitle::H6(title),
            s.content == content,
    {
        Self::new(SectionTitle::H6(title), content)
    }

    /// Text of the section.
    pub fn to_string(&self) -> (s: String)
        ensures
            s@ == section_text(self.title, self.content@),
    {
        let mut out: Vec<char> = Vec::new();
        match &self.title {
            SectionTitle::Blank => {},
            SectionTitle::H2(t) => {
                push_str(&mut out, "==");
                push_str(&mut out, t.as_str());
                push_str(&mut out, "==\n");
            },
            SectionTitle::H3(t) => {
                push_str(&mut out, "===");
                push_str(&mut out, t.as_str());
                push_str(&mut out, "===\n");
            },
            SectionTitle::H4(t) => {
                push_str(&mut out, "====");
                push_str(&mut out, t.as_str());
                push_str(&mut out, "====\n");
            },
            SectionTitle::H5(t) => {
                push_str(&mut out, "=====");
                push_str(&mut out, t.as_str());
                push_str(&mut out, "=====\n");
            },
            SectionTitle::H6(t) => {
                push_str(&mut out, "======");
                push_str(&mut out, t.as_str());
                push_str(&mut out, "======\n");
            },
        }
        let content = chars_of(self.content.as_str());
        let trimmed = trim_chars(&content);
        push_chars(&mut out, &trimmed);
        proof {
            reveal_strlit("==\n");
            reveal_strlit("===\n");
            reveal_strlit("====\n");
            reveal_strlit("=====\n");
            reveal_strlit("======\n");
            reveal_strlit("==");
            reveal_strlit("===");
            reveal_strlit("====");
            reveal_strlit("=====");
            reveal_strlit("======");
        }
        assert(out@ =~= section_text(self.title, self.content@));
        string_from(&out)
    }
}

} // verus!
