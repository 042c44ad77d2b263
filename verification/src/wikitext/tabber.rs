//! Deals with tabbers.

use crate::text::{push_str, string_from};
use vstd::prelude::*;

verus! {

/// Type of tabber.
#[derive(Debug, Clone, Copy, PartialEq, Eq, PartialOrd, Ord, Default, Structural)]
pub enum TabberType {
    /// Regular tabber.
    #[default]
    Tabber,
    /// Tabber inside a tabber.
    SubTabber,
}

/// Tab of a tabber.
#[derive(Debug, PartialEq, Eq, PartialOrd, Ord)]
pub struct TabberTab {
    /// Title of the tab.
    pub title: String,
    /// Content of the tab.
    pub content: String,
}

/// Text of a tab: `{title}=`, a new line and the content.
pub open spec fn tab_text(title: Seq<char>, content: Seq<char>) -> Seq<char> {
    title + "=\n"@ + content
}

impl TabberTab {
    /// Create a new tab.
    pub fn new(title: String, content: String) -> (t: Self)
        ensures
            t.title == title,
            t.content == content,
    {
        Self { title, content }
    }

    /// Text of the tab.
    pub fn to_string(&self) -> (s: String)
        ensures
            s@ == tab_text(self.title@, self.content@),
    {
        let mut out: Vec<char> = Vec::new();
        push_str(&mut out, self.title.as_str());
        push_str(&mut out, "=\n");
        push_str(&mut out, self.content.as_str());
        string_from(&out)
    }
}

/// Wiki tabber.
#[derive(Debug, PartialEq, Eq, PartialOrd, Ord, Default)]
pub struct Tabber {
    /// Type of tabber.
    pub ttype: TabberType,
    /// Tabs of the tabber.
    pub content: Vec<TabberTab>,
}

/// Opening, separating and closing markup of a tabber type.
pub open spec fn tabber_markup(t: TabberType) -> (Seq<char>, Seq<char>, Seq<char>) {
    match t {
        TabberType::Tabber => ("<tabber>"@, "|-|"@, "</tabber>"@),
        TabberType::SubTabber => ("{{#tag:tabber"@, "{{!}}-{{!}}"@, "}}"@),
    }
}

/// The tabs, each followed by a new line, with the separator (on a line of
/// its own, after a blank line) between them.
pub open spec fn tabs_text(tabs: Seq<TabberTab>, mid: Seq<char>) -> Seq<char>
    decreases tabs.len(),
{
    if tabs.len() == 0 {
        Seq::<char>::empty()
    } else if tabs.len() == 1 {
        tab_text(tabs[0].title@, tabs[0].content@) + seq!['\n']
    } else {
        tabs_text(tabs.drop_last(), mid) + seq!['\n'] + mid + seq!['\n'] + tab_text(tabs.last().title@, tabs.last().content@) + seq!['\n']
    }
}

/// Text of a tabber: a single tab is just its content; otherwise the
/// opening markup, the tabs and the closing markup.
pub open spec fn tabber_text(t: TabberType, tabs: Seq<TabberTab>) -> Seq<char> {
    if tabs.len() == 1 {
        tabs[0].content@
    } else {
        let (open, mid, close) = tabber_markup(t);
        open + seq!['\n'] + tabs_text(tabs, mid) + close
    }
}

/// Law: the tabs of a tabber split anywhere between two tabs are written
/// as the tabs before the split, the separator on a line of its own after a
/// blank line, and the tabs after it.
pub proof fn law_tabs_text_split(a: Seq<TabberTab>, b: Seq<TabberTab>, mid: Seq<char>)
    requires
        a.len() >= 1,
        b.len() >= 1,
    ensures
        tabs_text(a + b, mid) == tabs_text(a, mid) + seq!['\n'] + mid + seq!['\n'] + tabs_text(b, mid),
    decreases b.len(),
{
    let ab = a + b;
    assert(ab.drop_last() =~= a + b.drop_last());
    assert(ab.last() == b.last());
    if b.len() == 1 {
        assert(a + b.drop_last() =~= a);
        assert(b[0] == b.last());
        assert(tabs_text(ab, mid) =~= tabs_text(a, mid) + seq!['\n'] + mid + seq!['\n'] + tabs_text(b, mid));
    } else {
        law_tabs_text_split(a, b.drop_last(), mid);
        assert(tabs_text(ab, mid) =~= tabs_text(a, mid) + seq!['\n'] + mid + seq!['\n'] + tabs_text(b, mid));
    }
}

impl Tabber {
    /// Create a new tabber.
    pub fn new(ttype: TabberType, content: Vec<TabberTab>) -> (t: Self)
        ensures
            t.ttype == ttype,
            t.content@ == content@,
    {
        Self { ttype, content }
    }

    /// Text of the tabber.
    pub fn to_string(&self) -> (s: String)
        ensures
            s@ == tabber_text(self.ttype, self.content@),
    {
        if self.content.len() == 1 {
            return self.content[0].content.clone();
        }
        let (open, mid, close) = match self.ttype {
            TabberType::Tabber => ("<tabber>", "|-|", "</tabber>"),
            TabberType::SubTabber => ("{{#tag:tabber", "{{!}}-{{!}}", "}}"),
        };
        let mut out: Vec<char> = Vec::new();
        push_str(&mut out, open);
        out.push('\n');
        let ghost head = out@;
        let mut i: usize = 0;
        let tabs = &self.content;
        assert(tabs@.subrange(0, 0) =~= Seq::<TabberTab>::empty());
        while i < tabs.len()
            invariant
                0 <= i <= tabs.len(),
                mid@ == tabber_markup(self.ttype).1,
                out@ == head + tabs_text(tabs@.subrange(0, i as int), mid@),
            decreases tabs.len() - i,
        {
            let ghost prev = tabs@.subrange(0, i as int);
            let ghost next = tabs@.subrange(0, i + 1);
            assert(next.drop_last() =~= prev);
            assert(next.last() == tabs@[i as int]);
            if i > 0 {
                out.push('\n');
                push_str(&mut out, mid);
                out.push('\n');
            }
            let t = tabs[i].to_string();
            push_str(&mut out, t.as_str());
            out.push('\n');
            proof {
                if i == 0 {
                    assert(out@ =~= head + tabs_text(next, mid@));
                } else {
                    assert(out@ =~= head + tabs_text(next, mid@));
                }
            }
            i = i + 1;
        }
        assert(tabs@.subrange(0, tabs@.len() as int) =~= tabs@);
        push_str(&mut out, close);
        string_from(&out)
    }
}

} // verus!
