//! Helpers for getting and updating the wiki's data files: stripping the
//! `<pre>` wrapper of a page and showing what changed in a file.

use crate::text::{byte_split_end, chars_of, push_str, split_bytes_end, starts_with, string_from, has_prefix};
use similar::{ChangeTag, TextDiff};
use vstd::prelude::*;
use vstd::string::StrSliceExecFns;

verus! {

/// Kind of a line of a diff.
#[derive(Debug, Clone, Copy, PartialEq, Eq, Structural)]
pub enum DiffTag {
    /// Line in both texts.
    Equal,
    /// Line only in the old text.
    Delete,
    /// Line only in the new text.
    Insert,
}

/// A line of a diff.
#[derive(Debug)]
pub struct DiffChange {
    /// Kind of the line.
    pub tag: DiffTag,
    /// The line (with its line break, if it has one).
    pub text: String,
}

/// A hunk of a unified diff.
#[derive(Debug)]
pub struct DiffHunk {
    /// Header of the hunk, `@@ -a,b +c,d @@`.
    pub header: String,
    /// Lines of the hunk.
    pub changes: Vec<DiffChange>,
}

/// A hunk as plain values.
pub type HunkView = (Seq<char>, Seq<(DiffTag, Seq<char>)>);

/// What `similar` gives as the hunks of the unified line diff of `old` and
/// `new`, with the default settings.
pub uninterp spec fn unified_hunks(old: Seq<char>, new: Seq<char>) -> Seq<HunkView>;

/// Plain values of hunks.
pub open spec fn hunks_view(h: Seq<DiffHunk>) -> Seq<HunkView> {
    Seq::new(
        h.len(),
        |i: int| (h[i].header@, Seq::new(h[i].changes@.len(), |j: int| (h[i].changes@[j].tag, h[i].changes@[j].text@))),
    )
}

#[verifier::external_body]
/// Hunks of the unified line diff of `old` and `new`.
///
/// Calls `similar::TextDiff::configure().diff_lines(old, new).unified_diff()`
/// and collects its hunks: each header (`UnifiedHunkHeader`, displayed) and
/// each change's tag and text (`to_string_lossy`). The default configuration
/// sets no deadline, so the result depends on `old` and `new` alone; the
/// contract names it `unified_hunks` without saying more of it.
fn unified_diff_hunks(old: &str, new: &str) -> (h: Vec<DiffHunk>)
    ensures
        hunks_view(h@) == unified_hunks(old@, new@),
{
    let binding = TextDiff::configure().diff_lines(old, new);
    let diff = binding.unified_diff();
    diff.iter_hunks().map(|hunk| DiffHunk {
        header: hunk.header().to_string(),
        changes: hunk.iter_changes().map(|c| DiffChange {
            tag: match c.tag() {
                ChangeTag::Equal => DiffTag::Equal,
                ChangeTag::Delete => DiffTag::Delete,
                ChangeTag::Insert => DiffTag::Insert,
            },
            text: c.to_string_lossy().to_string(),
        }).collect(),
    }).collect()
}

/// Concatenation of a sequence of texts.
pub open spec fn concat(s: Seq<Seq<char>>) -> Seq<char>
    decreases s.len(),
{
    if s.len() == 0 {
        Seq::empty()
    } else {
        concat(s.drop_last()) + s.last()
    }
}

/// Character that marks a line's kind in a diff.
pub open spec fn tag_char(t: DiffTag) -> char {
    match t {
        DiffTag::Equal => ' ',
        DiffTag::Delete => '-',
        DiffTag::Insert => '+',
    }
}

/// Colour code that starts a line of the given kind.
pub open spec fn tag_colour(t: DiffTag) -> Seq<char> {
    match t {
        DiffTag::Insert => "\x1b[38;2;0;200;0m"@,
        DiffTag::Delete => "\x1b[38;2;200;0;0m"@,
        DiffTag::Equal => Seq::empty(),
    }
}

/// Text of a line of a diff: its colour, its mark, the line, then white.
pub open spec fn change_text(c: (DiffTag, Seq<char>)) -> Seq<char> {
    tag_colour(c.0) + seq![tag_char(c.0)] + c.1 + "\x1b[38;2;255;255;255m"@
}

/// Text of a hunk: its header on a line of its own, then its lines (nothing
/// for a hunk without lines).
pub open spec fn hunk_text(h: HunkView) -> Seq<char> {
    if h.1.len() == 0 {
        Seq::empty()
    } else {
        h.0 + seq!['\n'] + concat(Seq::new(h.1.len(), |j: int| change_text(h.1[j])))
    }
}

/// Coloured unified diff of hunks.
pub open spec fn diff_text(hs: Seq<HunkView>) -> Seq<char> {
    concat(Seq::new(hs.len(), |i: int| hunk_text(hs[i])))
}

/// Append the text of a hunk.
fn push_hunk(out: &mut Vec<char>, h: &DiffHunk)
    ensures
        final(out)@ == old(out)@ + hunk_text(hunks_view(seq![*h])[0]),
{
    let ghost hv = hunks_view(seq![*h])[0];
    let ghost texts = Seq::new(hv.1.len(), |j: int| change_text(hv.1[j]));
    let ghost base = old(out)@;
    let mut i: usize = 0;
    assert(concat(texts.take(0)) =~= Seq::<char>::empty());
    while i < h.changes.len()
        invariant
            0 <= i <= h.changes.len(),
            hv == hunks_view(seq![*h])[0],
            texts == Seq::new(hv.1.len(), |j: int| change_text(hv.1[j])),
            base == old(out)@,
            i == 0 ==> out@ == base,
            i > 0 ==> out@ == base + hv.0 + seq!['\n'] + concat(texts.take(i as int)),
        decreases h.changes.len() - i,
    {
        let ghost before = out@;
        if i == 0 {
            push_str(out, h.header.as_str());
            out.push('\n');
        }
        let c = &h.changes[i];
        match c.tag {
            DiffTag::Insert => push_str(out, "\x1b[38;2;0;200;0m"),
            DiffTag::Delete => push_str(out, "\x1b[38;2;200;0;0m"),
            DiffTag::Equal => {},
        }
        match c.tag {
            DiffTag::Equal => out.push(' '),
            DiffTag::Delete => out.push('-'),
            DiffTag::Insert => out.push('+'),
        }
        push_str(out, c.text.as_str());
        push_str(out, "\x1b[38;2;255;255;255m");
        proof {
            let t = texts.take(i + 1);
            assert(t.drop_last() =~= texts.take(i as int));
            assert(hv.1[i as int] == (c.tag, c.text@));
            assert(t.last() == change_text((c.tag, c.text@)));
            if i == 0 {
                assert(concat(texts.take(0)) =~= Seq::<char>::empty());
                assert(out@ =~= base + hv.0 + seq!['\n'] + concat(t));
            } else {
                assert(out@ =~= base + hv.0 + seq!['\n'] + concat(t));
            }
        }
        i = i + 1;
    }
    assert(texts.take(i as int) =~= texts);
    if i == 0 {
        assert(out@ =~= old(out)@ + hunk_text(hv));
    } else {
        assert(out@ =~= old(out)@ + hunk_text(hv));
    }
}

/// Coloured text of diff hunks: each hunk's header, then its lines marked
/// ` `, `-` or `+`, added lines green and removed lines red.
pub fn format_diff_hunks(hunks: &Vec<DiffHunk>) -> (s: String)
    ensures
        s@ == diff_text(hunks_view(hunks@)),
{
    let ghost hs = hunks_view(hunks@);
    let ghost texts = Seq::new(hs.len(), |i: int| hunk_text(hs[i]));
    let mut out: Vec<char> = Vec::new();
    let mut i: usize = 0;
    assert(out@ =~= concat(texts.take(0)));
    while i < hunks.len()
        invariant
            0 <= i <= hunks.len(),
            hs == hunks_view(hunks@),
            texts == Seq::new(hs.len(), |k: int| hunk_text(hs[k])),
            out@ == concat(texts.take(i as int)),
        decreases hunks.len() - i,
    {
        push_hunk(&mut out, &hunks[i]);
        proof {
            let t = texts.take(i + 1);
            assert(t.drop_last() =~= texts.take(i as int));
            assert(hunks_view(seq![hunks@[i as int]])[0] == hs[i as int]);
            assert(t.last() == hunk_text(hs[i as int]));
        }
        i = i + 1;
    }
    assert(texts.take(i as int) =~= texts);
    string_from(&out)
}

/// Get a coloured unified diff between the old and new content.
pub fn get_file_diff(old_content: &str, new_content: &str) -> (s: String)
    ensures
        s@ == diff_text(unified_hunks(old_content@, new_content@)),
{
    let hunks = unified_diff_hunks(old_content, new_content);
    format_diff_hunks(&hunks)
}

/// The page content without its `<pre>` wrapper: where it starts with
/// `"<pre>\n"`, what lies between that and its last six bytes.
pub open spec fn stripped(content: Seq<char>) -> Seq<char> {
    if starts_with(content, "<pre>\n"@) {
        byte_split_end(content.skip(6), 6).unwrap().0
    } else {
        content
    }
}

/// The page content can be stripped: where it starts with `"<pre>\n"`, at
/// least six bytes follow and the last six start at a character.
pub open spec fn strip_ok(content: Seq<char>) -> bool {
    starts_with(content, "<pre>\n"@) ==> byte_split_end(content.skip(6), 6) is Some
}

/// Get rid of the `<pre>` and `</pre>` parts of the page's content.
pub fn strip_pre(content: &str) -> (s: &str)
    requires
        strip_ok(content@),
    ensures
        s@ == stripped(content@),
{
    let cs = chars_of(content);
    if has_prefix(&cs, "<pre>\n") {
        proof {
            reveal_strlit("<pre>\n");
        }
        let rest = crate::text::subvec(&cs, 6, cs.len());
        assert(rest@ =~= content@.skip(6));
        match split_bytes_end(&rest, 6) {
            Some((a, _)) => {
                proof {
                    lemma_split_prefix(content@.skip(6), 6);
                }
                let r = content.substring_char(6, 6 + a.len());
                assert(r@ =~= a@);
                r
            },
            None => content,
        }
    } else {
        content
    }
}

/// Strip the page's content as `strip_pre` does, or `None` where its last
/// six bytes cannot be cut off.
pub fn try_strip_pre(content: &str) -> (s: Option<&str>)
    ensures
        match s {
            Some(t) => strip_ok(content@) && t@ == stripped(content@),
            None => !strip_ok(content@),
        },
{
    let cs = chars_of(content);
    if has_prefix(&cs, "<pre>\n") {
        proof {
            reveal_strlit("<pre>\n");
        }
        let rest = crate::text::subvec(&cs, 6, cs.len());
        assert(rest@ =~= content@.skip(6));
        match split_bytes_end(&rest, 6) {
            Some(_) => Some(strip_pre(content)),
            None => None,
        }
    } else {
        Some(content)
    }
}

/// Lemma: what `byte_split_end` keeps is a prefix of the text.
proof fn lemma_split_prefix(s: Seq<char>, k: nat)
    ensures
        byte_split_end(s, k) matches Some((a, b)) ==> a.len() <= s.len() && a == s.subrange(0, a.len() as int) && s
            == a + b,
    decreases s.len(),
{
    if k > 0 && s.len() > 0 && crate::text::utf8_len(s.last()) <= k {
        lemma_split_prefix(s.drop_last(), (k - crate::text::utf8_len(s.last())) as nat);
        match byte_split_end(s.drop_last(), (k - crate::text::utf8_len(s.last())) as nat) {
            Some((a, b)) => {
                assert(s =~= s.drop_last().push(s.last()));
                assert(a + b.push(s.last()) =~= (a + b).push(s.last()));
                assert(s.subrange(0, a.len() as int) =~= s.drop_last().subrange(0, a.len() as int));
            },
            None => {},
        }
    } else if k == 0 {
        assert(s.subrange(0, s.len() as int) =~= s);
        assert(s + Seq::<char>::empty() =~= s);
    }
}

} // verus!
