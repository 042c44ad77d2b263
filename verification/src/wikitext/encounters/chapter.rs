//! Deals with singular chapters of encounters.

use super::section::SectionRef;
use crate::meta::stage::stage_id::StageID;
use crate::text::chars_of;
use vstd::prelude::*;

verus! {

/// Represents a stage for encounters.
#[derive(Debug)]
pub struct Stage<'a> {
    /// Name of stage.
    pub stage_name: &'a str,
    /// Enemy magnifications in stage.
    pub mags: String,
    /// Stage ID.
    pub id: StageID,
}

impl<'a> View for Stage<'a> {
    type V = (Seq<char>, Seq<char>, StageID);

    open spec fn view(&self) -> (Seq<char>, Seq<char>, StageID) {
        (self.stage_name@, self.mags@, self.id)
    }
}

impl<'a> Stage<'a> {
    /// Create new Stage.
    pub fn new(stage_name: &'a str, mags: String, id: &'a StageID) -> (s: Self)
        ensures
            s@ == (stage_name@, mags@, *id),
    {
        Self { stage_name, mags, id: *id }
    }

    /// Create new Stage from an owned ID.
    pub fn new2(stage_name: &'a str, mags: String, id: StageID) -> (s: Self)
        ensures
            s@ == (stage_name@, mags@, id),
    {
        Self { stage_name, mags, id }
    }
}

/// Views of a sequence of stages.
pub open spec fn stages_view<'a>(stages: Seq<Stage<'a>>) -> Seq<(Seq<char>, Seq<char>, StageID)> {
    Seq::new(stages.len(), |i: int| stages[i]@)
}

/// Represents a contiguous block of stages of the same display type with the
/// same map num.
#[derive(Debug)]
pub struct Chapter<'a> {
    /// Name of chapter.
    pub chapter_name: String,
    /// Stages in chapter.
    pub stages: Vec<Stage<'a>>,
}

/// The stages of `s` whose names have not appeared before them.
pub open spec fn dedup_names(s: Seq<(Seq<char>, Seq<char>, StageID)>) -> Seq<(Seq<char>, Seq<char>, StageID)>
    decreases s.len(),
{
    if s.len() == 0 {
        s
    } else {
        let rest = dedup_names(s.drop_last());
        if exists|j: int| 0 <= j < s.len() - 1 && s[j].0 == s.last().0 {
            rest
        } else {
            rest.push(s.last())
        }
    }
}

/// Lemma: the names kept by `dedup_names` are exactly those of `s`, each
/// once.
pub proof fn lemma_dedup_names(s: Seq<(Seq<char>, Seq<char>, StageID)>)
    ensures
        forall|i: int| #![trigger s[i]] 0 <= i < s.len() ==> exists|k: int| #![trigger dedup_names(s)[k]] 0 <= k < dedup_names(s).len() && dedup_names(s)[k].0 == s[i].0,
        forall|k: int| #![trigger dedup_names(s)[k]] 0 <= k < dedup_names(s).len() ==> exists|i: int| #![trigger s[i]] 0 <= i < s.len() && s[i] == dedup_names(s)[k],
    decreases s.len(),
{
    if s.len() > 0 {
        let p = s.drop_last();
        lemma_dedup_names(p);
        let d = dedup_names(s);
        let r = dedup_names(p);
        assert forall|i: int| #![trigger s[i]] 0 <= i < s.len() implies exists|k: int| #![trigger d[k]] 0 <= k < d.len() && d[k].0 == s[i].0 by {
            if i < s.len() - 1 {
                assert(p[i] == s[i]);
                let k = choose|k: int| #![trigger r[k]] 0 <= k < r.len() && r[k].0 == p[i].0;
                assert(d[k] == r[k]);
            } else if exists|j: int| 0 <= j < s.len() - 1 && s[j].0 == s.last().0 {
                let j = choose|j: int| 0 <= j < s.len() - 1 && s[j].0 == s.last().0;
                assert(p[j] == s[j]);
                let k = choose|k: int| #![trigger r[k]] 0 <= k < r.len() && r[k].0 == p[j].0;
                assert(d[k] == r[k]);
            } else {
                assert(d[r.len() as int] == s.last());
            }
        }
        assert forall|k: int| #![trigger d[k]] 0 <= k < d.len() implies exists|i: int| #![trigger s[i]] 0 <= i < s.len() && s[i] == d[k] by {
            if k < r.len() {
                assert(d[k] == r[k]);
                let i = choose|i: int| #![trigger p[i]] 0 <= i < p.len() && p[i] == r[k];
                assert(s[i] == p[i]);
            } else {
                assert(s[s.len() - 1] == d[k]);
            }
        }
    }
}

/// Does a stage before index `i` of `s` have the name of `s[i]`?
pub open spec fn name_seen_before(s: Seq<(Seq<char>, Seq<char>, StageID)>, i: int) -> bool {
    exists|j: int| 0 <= j < i && s[j].0 == s[i].0
}

/// Indices of the stages of `s` whose names have not appeared before them,
/// in order.
pub open spec fn first_name_indices(s: Seq<(Seq<char>, Seq<char>, StageID)>) -> Seq<int>
    decreases s.len(),
{
    if s.len() == 0 {
        Seq::empty()
    } else if name_seen_before(s, s.len() - 1) {
        first_name_indices(s.drop_last())
    } else {
        first_name_indices(s.drop_last()).push(s.len() - 1)
    }
}

/// Law: removing duplicate names keeps exactly the first stage of each
/// name, in order: the stages kept are those of `s` at increasing indices,
/// no stage before a kept one has its name, every stage whose name has not
/// appeared before it is kept, and the names kept are pairwise distinct.
pub proof fn law_dedup_first_occurrences(s: Seq<(Seq<char>, Seq<char>, StageID)>)
    ensures
        first_name_indices(s).len() == dedup_names(s).len(),
        forall|k: int| 0 <= k < dedup_names(s).len() ==> 0 <= #[trigger] first_name_indices(s)[k] < s.len()
            && s[first_name_indices(s)[k]] == dedup_names(s)[k]
            && !name_seen_before(s, first_name_indices(s)[k]),
        forall|a: int, b: int| 0 <= a < b < dedup_names(s).len()
            ==> #[trigger] first_name_indices(s)[a] < #[trigger] first_name_indices(s)[b],
        forall|i: int| 0 <= i < s.len() && !name_seen_before(s, i)
            ==> exists|k: int| 0 <= k < dedup_names(s).len() && #[trigger] first_name_indices(s)[k] == i,
        forall|a: int, b: int| 0 <= a < b < dedup_names(s).len()
            ==> (#[trigger] dedup_names(s)[a]).0 != (#[trigger] dedup_names(s)[b]).0,
    decreases s.len(),
{
    if s.len() > 0 {
        let p = s.drop_last();
        law_dedup_first_occurrences(p);
        let d = dedup_names(s);
        let f = first_name_indices(s);
        let r = dedup_names(p);
        let g = first_name_indices(p);
        let last = s.len() - 1;
        assert forall|i: int| 0 <= i < p.len() implies name_seen_before(s, i) == name_seen_before(p, i) by {
            if name_seen_before(s, i) {
                let j = choose|j: int| 0 <= j < i && s[j].0 == s[i].0;
                assert(p[j] == s[j]);
            }
            if name_seen_before(p, i) {
                let j = choose|j: int| 0 <= j < i && p[j].0 == p[i].0;
                assert(p[j] == s[j]);
            }
        }
        if name_seen_before(s, last) {
            assert(d == r);
            assert(f == g);
            assert forall|k: int| 0 <= k < d.len() implies 0 <= #[trigger] f[k] < s.len() && s[f[k]] == d[k]
                && !name_seen_before(s, f[k]) by {
                assert(s[g[k]] == p[g[k]]);
            }
        } else {
            assert(d == r.push(s[last]));
            assert(f == g.push(last));
            assert forall|k: int| 0 <= k < d.len() implies 0 <= #[trigger] f[k] < s.len() && s[f[k]] == d[k]
                && !name_seen_before(s, f[k]) by {
                if k < r.len() {
                    assert(f[k] == g[k] && d[k] == r[k]);
                    assert(s[g[k]] == p[g[k]]);
                }
            }
            assert forall|a: int, b: int| 0 <= a < b < d.len() implies #[trigger] f[a] < #[trigger] f[b] by {
                assert(f[a] == g[a]);
                if b < r.len() {
                    assert(f[b] == g[b]);
                }
            }
            assert forall|i: int| 0 <= i < s.len() && !name_seen_before(s, i)
                implies exists|k: int| 0 <= k < d.len() && #[trigger] f[k] == i by {
                if i < last {
                    let k = choose|k: int| 0 <= k < r.len() && #[trigger] g[k] == i;
                    assert(f[k] == g[k]);
                } else {
                    assert(f[r.len() as int] == last);
                }
            }
        }
        assert forall|a: int, b: int| 0 <= a < b < d.len() implies (#[trigger] d[a]).0 != (#[trigger] d[b]).0 by {
            assert(f[a] < f[b]);
            assert(s[f[a]] == d[a] && s[f[b]] == d[b]);
            assert(!name_seen_before(s, f[b]));
        }
    }
}

impl<'a> Chapter<'a> {
    /// Create new Chapter.
    pub fn new(chapter_name: String, stages: Vec<Stage<'a>>) -> (c: Self)
        ensures
            c.chapter_name@ == chapter_name@,
            stages_view(c.stages@) == stages_view(stages@),
    {
        Self { chapter_name, stages }
    }

    /// Return the chapter with all duplicate stage names removed: of stages
    /// with the same name only the first stays.
    pub fn dedupped(self) -> (c: Self)
        ensures
            c.chapter_name@ == self.chapter_name@,
            stages_view(c.stages@) == dedup_names(stages_view(self.stages@)),
    {
        let ghost all = stages_view(self.stages@);
        let mut rest = self.stages;
        let mut out: Vec<Stage<'a>> = Vec::new();
        let mut names: Vec<Vec<char>> = Vec::new();
        let ghost n = all.len();
        assert(all.subrange(0, 0) =~= Seq::<(Seq<char>, Seq<char>, StageID)>::empty());
        while rest.len() > 0
            invariant
                n == all.len(),
                rest.len() <= n,
                stages_view(rest@) == all.subrange(n - rest.len(), n as int),
                stages_view(out@) == dedup_names(all.subrange(0, n - rest.len())),
                names@.len() == out@.len(),
                forall|k: int| 0 <= k < out@.len() ==> (#[trigger] names@[k])@ == out@[k].stage_name@,
            decreases rest.len(),
        {
            let ghost done = all.subrange(0, n - rest.len());
            let ghost next = all.subrange(0, n - rest.len() + 1);
            let ghost rv = stages_view(rest@);
            let s = rest.remove(0);
            assert(s@ == rv[0]);
            assert(stages_view(rest@) =~= rv.drop_first());
            assert(next =~= done.push(s@));
            let seen = name_seen(&names, s.stage_name);
            proof {
                let dv = stages_view(out@);
                assert(seen == exists|k: int| 0 <= k < dv.len() && #[trigger] dv[k].0 == s@.0) by {
                    if seen {
                        let k = choose|k: int| 0 <= k < names@.len() && (#[trigger] names@[k])@ == s.stage_name@;
                        assert(dv[k].0 == s@.0);
                    }
                    if exists|k: int| 0 <= k < dv.len() && #[trigger] dv[k].0 == s@.0 {
                        let k = choose|k: int| 0 <= k < dv.len() && #[trigger] dv[k].0 == s@.0;
                        assert((names@[k])@ == s.stage_name@);
                    }
                }
                lemma_dedup_step(done, s@);
            }
            if !seen {
                names.push(chars_of(s.stage_name));
                let ghost before = out@;
                out.push(s);
                proof {
                    assert(stages_view(out@) =~= stages_view(before).push(s@));
                }
            }
        }
        assert(all.subrange(0, n as int) =~= all);
        Self { chapter_name: self.chapter_name, stages: out }
    }
}

/// Has `name` been seen among `names`?
fn name_seen(names: &Vec<Vec<char>>, name: &str) -> (b: bool)
    ensures
        b == exists|k: int| 0 <= k < names@.len() && (#[trigger] names@[k])@ == name@,
{
    let mut k: usize = 0;
    while k < names.len()
        invariant
            0 <= k <= names.len(),
            forall|j: int| 0 <= j < k ==> (#[trigger] names@[j])@ != name@,
        decreases names.len() - k,
    {
        if crate::text::eq_str(&names[k], name) {
            return true;
        }
        k = k + 1;
    }
    false
}

/// Lemma: adding a stage to the end keeps it exactly when no kept stage has
/// its name.
pub proof fn lemma_dedup_step(done: Seq<(Seq<char>, Seq<char>, StageID)>, x: (Seq<char>, Seq<char>, StageID))
    ensures
        dedup_names(done.push(x)) == if exists|k: int| 0 <= k < dedup_names(done).len() && #[trigger] dedup_names(done)[k].0 == x.0 {
            dedup_names(done)
        } else {
            dedup_names(done).push(x)
        },
{
    let s = done.push(x);
    assert(s.drop_last() =~= done);
    assert(s.last() == x);
    lemma_dedup_names(done);
    let dv = dedup_names(done);
    if exists|j: int| 0 <= j < s.len() - 1 && s[j].0 == s.last().0 {
        let j = choose|j: int| 0 <= j < s.len() - 1 && s[j].0 == s.last().0;
        assert(done[j] == s[j]);
        let k = choose|k: int| #![trigger dv[k]] 0 <= k < dv.len() && dv[k].0 == done[j].0;
        assert(dv[k].0 == x.0);
    }
    if exists|k: int| 0 <= k < dv.len() && #[trigger] dv[k].0 == x.0 {
        let k = choose|k: int| 0 <= k < dv.len() && #[trigger] dv[k].0 == x.0;
        let i = choose|i: int| #![trigger done[i]] 0 <= i < done.len() && done[i] == dv[k];
        assert(s[i] == done[i]);
    }
}

/// Represents a section of the encounters.
#[derive(Debug)]
pub struct Group<'a> {
    /// Section reference.
    pub sref: SectionRef,
    /// Chapters under heading.
    pub chapters: Vec<Chapter<'a>>,
}

impl<'a> Group<'a> {
    /// Create new Group.
    pub fn new(sref: SectionRef, chapters: Vec<Chapter<'a>>) -> (g: Self)
        ensures
            g.sref == sref,
            g.chapters@ == chapters@,
    {
        Self { sref, chapters }
    }
}

} // verus!
