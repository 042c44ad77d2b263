//! Deals with wiki templates.

use crate::text::{append_str, push_str, string_from};
use vstd::prelude::*;

verus! {

/// Parameter of a template.
#[derive(Debug, PartialEq, Clone)]
pub struct TemplateParameter {
    /// Parameter key.
    pub key: String,
    /// Parameter value.
    pub value: String,
}

impl View for TemplateParameter {
    type V = (Seq<char>, Seq<char>);

    open spec fn view(&self) -> (Seq<char>, Seq<char>) {
        (self.key@, self.value@)
    }
}

/// Views of a sequence of parameters.
pub open spec fn params_view(ps: Seq<TemplateParameter>) -> Seq<(Seq<char>, Seq<char>)> {
    Seq::new(ps.len(), |i: int| ps[i]@)
}

/// Text of a parameter: `|{key} = {value}`.
pub open spec fn param_text(p: (Seq<char>, Seq<char>)) -> Seq<char> {
    seq!['|'] + p.0 + " = "@ + p.1
}

impl TemplateParameter {
    /// Create a new parameter.
    pub fn new(key: String, value: String) -> (p: Self)
        ensures
            p@ == (key@, value@),
    {
        Self { key, value }
    }

    /// Text of the parameter.
    pub fn to_string(&self) -> (s: String)
        ensures
            s@ == param_text(self@),
    {
        let mut out: Vec<char> = Vec::new();
        out.push('|');
        push_str(&mut out, self.key.as_str());
        push_str(&mut out, " = ");
        push_str(&mut out, self.value.as_str());
        string_from(&out)
    }
}

/// Append a parameter's text and a newline to `buf` (a step of folding a
/// list of parameters into text).
pub fn param_vec_fold(buf: String, param: &TemplateParameter) -> (s: String)
    ensures
        s@ == buf@ + param_text(param@) + "\n"@,
{
    let mut buf = buf;
    let text = param.to_string();
    append_str(&mut buf, text.as_str());
    append_str(&mut buf, "\n");
    buf
}

/// Values that can be added to a template's parameters.
pub trait AutoParam: Sized {
    /// The parameters the value adds, in order.
    spec fn added(&self) -> Seq<(Seq<char>, Seq<char>)>;

    /// Add the value's parameters to the end of `params`.
    fn add_self_to(self, params: &mut Vec<TemplateParameter>)
        ensures
            params_view(final(params)@) == params_view(old(params)@) + self.added();
}

impl AutoParam for TemplateParameter {
    open spec fn added(&self) -> Seq<(Seq<char>, Seq<char>)> {
        seq![self@]
    }

    fn add_self_to(self, params: &mut Vec<TemplateParameter>) {
        let ghost before = params@;
        let ghost v = self@;
        params.push(self);
        assert(params_view(params@) =~= params_view(before) + seq![v]);
    }
}

impl AutoParam for Option<TemplateParameter> {
    open spec fn added(&self) -> Seq<(Seq<char>, Seq<char>)> {
        match self {
            Some(p) => seq![p@],
            None => Seq::empty(),
        }
    }

    fn add_self_to(self, params: &mut Vec<TemplateParameter>) {
        let ghost before = params@;
        let ghost added = self.added();
        match self {
            Some(p) => {
                p.add_self_to(params);
            },
            None => {
                assert(params_view(params@) =~= params_view(before) + added);
            },
        }
    }
}

impl AutoParam for Vec<TemplateParameter> {
    open spec fn added(&self) -> Seq<(Seq<char>, Seq<char>)> {
        params_view(self@)
    }

    fn add_self_to(self, params: &mut Vec<TemplateParameter>) {
        let ghost before = params@;
        let ghost all = params_view(self@);
        let mut rest = self;
        let mut i: usize = 0;
        let ghost n = all.len();
        assert(all.subrange(0, 0) =~= Seq::<(Seq<char>, Seq<char>)>::empty());
        assert(params_view(before) + all.subrange(0, 0) =~= params_view(before));
        while rest.len() > 0
            invariant
                n == all.len(),
                rest.len() <= n,
                params_view(rest@) == all.subrange(n - rest.len(), n as int),
                params_view(params@) == params_view(before) + all.subrange(0, n - rest.len()),
            decreases rest.len(),
        {
            let ghost rv = params_view(rest@);
            let ghost pv = params_view(params@);
            let p = rest.remove(0);
            assert(p@ == rv[0]);
            assert(params_view(rest@) =~= rv.drop_first());
            params.push(p);
            assert(params_view(params@) =~= pv.push(p@));
            assert(all.subrange(0, n - rest.len()) =~= all.subrange(0, n - rest.len() - 1).push(p@));
        }
        assert(all.subrange(0, n as int) =~= all);
    }
}

/// Wiki template.
#[derive(Debug, PartialEq)]
pub struct Template {
    name: String,
    params: Vec<TemplateParameter>,
}

/// Lines `\n|{key} = {value}` of the parameters.
pub open spec fn params_text(ps: Seq<(Seq<char>, Seq<char>)>) -> Seq<char>
    decreases ps.len(),
{
    if ps.len() == 0 {
        Seq::<char>::empty()
    } else {
        params_text(ps.drop_last()) + seq!['\n'] + param_text(ps.last())
    }
}

/// Text of a template: `{{name`, a line for each parameter and `}}` on a
/// line of its own.
pub open spec fn template_text(name: Seq<char>, ps: Seq<(Seq<char>, Seq<char>)>) -> Seq<char> {
    "{{"@ + name + params_text(ps) + "\n}}"@
}

/// Lemma: the lines of two lists of parameters are the lines of the first
/// followed by those of the second.
pub proof fn lemma_params_text_concat(ps: Seq<(Seq<char>, Seq<char>)>, qs: Seq<(Seq<char>, Seq<char>)>)
    ensures
        params_text(ps + qs) == params_text(ps) + params_text(qs),
    decreases qs.len(),
{
    if qs.len() == 0 {
        assert(ps + qs =~= ps);
        assert(params_text(ps) + params_text(qs) =~= params_text(ps));
    } else {
        lemma_params_text_concat(ps, qs.drop_last());
        assert((ps + qs).drop_last() =~= ps + qs.drop_last());
        assert((ps + qs).last() == qs.last());
        assert(params_text(ps + qs) =~= params_text(ps) + params_text(qs));
    }
}

/// Law: adding parameters to a template writes their lines, in order, after
/// the lines of those it had and before the closing `}}`.
pub proof fn law_add_params_text(
    name: Seq<char>,
    ps: Seq<(Seq<char>, Seq<char>)>,
    qs: Seq<(Seq<char>, Seq<char>)>,
)
    ensures
        template_text(name, ps + qs) == "{{"@ + name + params_text(ps) + params_text(qs) + "\n}}"@,
{
    lemma_params_text_concat(ps, qs);
    assert(template_text(name, ps + qs) =~= "{{"@ + name + params_text(ps) + params_text(qs) + "\n}}"@);
}

/// Parameters from constant pairs.
pub open spec fn const_params(ps: Seq<(&'static str, &'static str)>) -> Seq<(Seq<char>, Seq<char>)> {
    Seq::new(ps.len(), |i: int| (ps[i].0@, ps[i].1@))
}

impl Template {
    /// The template's name.
    pub closed spec fn spec_name(&self) -> Seq<char> {
        self.name@
    }

    /// The template's parameters.
    pub closed spec fn spec_params(&self) -> Seq<(Seq<char>, Seq<char>)> {
        params_view(self.params@)
    }

    /// Create new template.
    pub fn new(name: String, params: Vec<TemplateParameter>) -> (t: Self)
        ensures
            t.spec_name() == name@,
            t.spec_params() == params_view(params@),
    {
        Self { name, params }
    }

    /// Create new template with no parameters.
    pub fn named(name: String) -> (t: Self)
        ensures
            t.spec_name() == name@,
            t.spec_params() == Seq::<(Seq<char>, Seq<char>)>::empty(),
    {
        let t = Self::new(name, vec![]);
        assert(t.spec_params() =~= Seq::<(Seq<char>, Seq<char>)>::empty());
        t
    }

    /// Add parameters to the end of the template.
    pub fn add_params<P: AutoParam>(self, params: P) -> (t: Self)
        ensures
            t.spec_name() == self.spec_name(),
            t.spec_params() == self.spec_params() + params.added(),
    {
        let mut t = self;
        params.add_self_to(&mut t.params);
        t
    }

    /// Add constant parameters to the end of the template.
    pub fn add_const(self, params: &[(&'static str, &'static str)]) -> (t: Self)
        ensures
            t.spec_name() == self.spec_name(),
            t.spec_params() == self.spec_params() + const_params(params@),
    {
        let mut t = self;
        let ghost before = params_view(t.params@);
        let mut i: usize = 0;
        assert(const_params(params@).subrange(0, 0) =~= Seq::<(Seq<char>, Seq<char>)>::empty());
        assert(before + const_params(params@).subrange(0, 0) =~= before);
        while i < params.len()
            invariant
                0 <= i <= params.len(),
                params_view(t.params@) == before + const_params(params@).subrange(0, i as int),
                t.name@ == self.name@,
            decreases params.len() - i,
        {
            let (k, v) = params[i];
            let ghost pv = params_view(t.params@);
            let p = TemplateParameter::new(k.to_string(), v.to_string());
            t.params.push(p);
            assert(params_view(t.params@) =~= pv.push((k@, v@)));
            assert(const_params(params@).subrange(0, i + 1) =~= const_params(params@).subrange(0, i as int).push((k@, v@)));
            i = i + 1;
        }
        assert(const_params(params@).subrange(0, params@.len() as int) =~= const_params(params@));
        t
    }

    /// Text of the template.
    pub fn to_string(&self) -> (s: String)
        ensures
            s@ == template_text(self.spec_name(), self.spec_params()),
    {
        let mut out: Vec<char> = Vec::new();
        push_str(&mut out, "{{");
        push_str(&mut out, self.name.as_str());
        let ghost head = out@;
        let ghost pv = params_view(self.params@);
        let mut i: usize = 0;
        assert(pv.subrange(0, 0) =~= Seq::<(Seq<char>, Seq<char>)>::empty());
        while i < self.params.len()
            invariant
                0 <= i <= self.params.len(),
                pv == params_view(self.params@),
                out@ == head + params_text(pv.subrange(0, i as int)),
            decreases self.params.len() - i,
        {
            assert(pv.subrange(0, i + 1).drop_last() =~= pv.subrange(0, i as int));
            assert(pv.subrange(0, i + 1).last() == self.params@[i as int]@);
            out.push('\n');
            let p = self.params[i].to_string();
            push_str(&mut out, p.as_str());
            i = i + 1;
        }
        assert(pv.subrange(0, pv.len() as int) =~= pv);
        push_str(&mut out, "\n}}");
        string_from(&out)
    }
}

} // verus!
