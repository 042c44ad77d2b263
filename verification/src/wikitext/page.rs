//! Deals with wiki pages.

use super::section::{section_text, Section};
use crate::text::{push_str, string_from};
use vstd::prelude::*;

verus! {

/// A wiki page: a list of sections.
pub struct Page(Vec<Section>);

/// Texts of the sections, joined by blank lines.
pub open spec fn sections_text(ss: Seq<Section>) -> Seq<char>
    decreases ss.len(),
{
    if ss.len() == 0 {
        Seq::<char>::empty()
    } else if ss.len() == 1 {
        section_text(ss[0].title, ss[0].content@)
    } else {
        sections_text(ss.drop_last()) + "\n\n"@ + section_text(ss.last().title, ss.last().content@)
    }
}

impl Page {
    /// The page's sections.
    pub closed spec fn sections(&self) -> Seq<Section> {
        self.0@
    }

    /// Create a page with the given sections.
    fn new(sections: Vec<Section>) -> (p: Self)
        ensures
            p.sections() == sections@,
    {
        Self(sections)
    }

    /// Create a page with no sections.
    pub fn blank() -> (p: Self)
        ensures
            p.sections() == Seq::<Section>::empty(),
    {
        Self::new(vec![])
    }

    /// Add a section at the end of the page.
    pub fn push(&mut self, section: Section)
        ensures
            final(self).sections() == old(self).sections().push(section),
    {
        self.0.push(section);
    }

    /// Text of the page: its sections separated by blank lines.
    pub fn to_string(&self) -> (s: String)
        ensures
            s@ == sections_text(self.sections()),
    {
        let mut out: Vec<char> = Vec::new();
        let mut i: usize = 0;
        assert(self.0@.subrange(0, 0) =~= Seq::<Section>::empty());
        while i < self.0.len()
            invariant
                0 <= i <= self.0.len(),
                out@ == sections_text(self.0@.subrange(0, i as int)),
            decreases self.0.len() - i,
        {
            let ghost prev = self.0@.subrange(0, i as int);
            let ghost next = self.0@.subrange(0, i + 1);
            assert(next.drop_last() =~= prev);
            assert(next.last() == self.0@[i as int]);
            if i > 0 {
                push_str(&mut out, "\n\n");
            }
            let text = self.0[i].to_string();
            push_str(&mut out, text.as_str());
            proof {
                if i == 0 {
                    assert(out@ =~= sections_text(next));
                }
            }
            i = i + 1;
        }
        assert(self.0@.subrange(0, self.0@.len() as int) =~= self.0@);
        string_from(&out)
    }
}

} // verus!
