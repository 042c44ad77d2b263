//! Parses the stage info format: text with `${name}` variables in it.

use crate::text::{chars_of, find_first, index_of_first, lemma_index_of, subvec};
use vstd::prelude::*;
use vstd::string::StrSliceExecFns;

verus! {

/// Kind of a piece of a stage info format.
#[derive(Debug, PartialEq, Eq, Structural, Clone, Copy)]
pub enum ParseType {
    /// A `${name}` variable; the content is `name`.
    Variable,
    /// Literal text.
    Text,
}

/// A piece of a stage info format.
#[derive(Debug)]
pub struct ParseNode<'a> {
    /// Variable name or literal text.
    pub content: &'a str,
    /// Kind of the piece.
    pub ptype: ParseType,
}

/// Index of the first `"${"` in `s`.
pub open spec fn find_open(s: Seq<char>) -> Option<int>
    decreases s.len(),
{
    if s.len() < 2 {
        None
    } else if s[0] == '$' && s[1] == '{' {
        Some(0)
    } else {
        match find_open(s.drop_first()) {
            Some(i) => Some(i + 1),
            None => None,
        }
    }
}

/// Lemma: `find_open` finds the first `"${"`.
pub proof fn lemma_find_open(s: Seq<char>)
    ensures
        find_open(s) matches Some(i) ==> 0 <= i && i + 1 < s.len() && s[i] == '$' && s[i + 1] == '{'
            && forall|j: int| 0 <= j < i ==> !(#[trigger] s[j] == '$' && s[j + 1] == '{'),
        find_open(s) is None ==> forall|j: int| 0 <= j && j + 1 < s.len() ==> !(#[trigger] s[j] == '$' && s[j + 1] == '{'),
    decreases s.len(),
{
    if s.len() >= 2 {
        lemma_find_open(s.drop_first());
        assert forall|j: int| 0 < j < s.len() implies s[j] == s.drop_first()[j - 1] by {}
    }
}

/// The pieces of a stage info format, in order, as `(content, kind)`; `None`
/// where a `"${"` has no later `'}'`.
pub open spec fn si_parse(s: Seq<char>) -> Option<Seq<(Seq<char>, ParseType)>>
    decreases s.len(),
{
    match find_open(s) {
        None => Some(
            if s.len() == 0 {
                Seq::empty()
            } else {
                seq![(s, ParseType::Text)]
            },
        ),
        Some(n) => {
            let rest = s.skip(n);
            match index_of_first(rest, '}') {
                None => None,
                Some(e) => {
                    proof {
                        lemma_find_open(s);
                        lemma_index_of(rest, '}');
                    }
                    match si_parse(rest.skip(e + 1)) {
                        None => None,
                        Some(tail) => Some(
                            (if n == 0 {
                                Seq::empty()
                            } else {
                                seq![(s.take(n), ParseType::Text)]
                            }) + seq![(rest.subrange(2, e), ParseType::Variable)] + tail,
                        ),
                    }
                },
            }
        },
    }
}

/// Views of parsed pieces.
pub open spec fn nodes_view(v: Seq<ParseNode>) -> Seq<(Seq<char>, ParseType)> {
    Seq::new(v.len(), |i: int| (v[i].content@, v[i].ptype))
}

/// Find the first `"${"` in `s`.
fn find_open_exec(s: &Vec<char>) -> (r: Option<usize>)
    ensures
        match r {
            Some(i) => find_open(s@) == Some(i as int) && i + 1 < s.len(),
            None => find_open(s@) is None,
        },
{
    proof {
        lemma_find_open(s@);
    }
    let mut i: usize = 0;
    assert(s@.skip(0) =~= s@);
    while s.len() > 1 && i < s.len() - 1
        invariant
            0 <= i <= s.len(),
            find_open(s@) == match find_open(s@.skip(i as int)) {
                Some(k) => Some(k + i),
                None => None,
            },
        decreases s.len() - i,
    {
        let ghost rest = s@.skip(i as int);
        assert(rest[0] == s@[i as int] && rest[1] == s@[i + 1]);
        if s[i] == '$' && s[i + 1] == '{' {
            return Some(i);
        }
        assert(rest.drop_first() =~= s@.skip(i + 1));
        i = i + 1;
    }
    assert(s@.skip(i as int).len() < 2);
    None
}

/// Split a stage info format into its pieces, or `None` where a `"${"` is
/// never closed by a `'}'`.
pub fn try_parse_si_format<'a>(format: &'a str) -> (r: Option<Vec<ParseNode<'a>>>)
    ensures
        match r {
            Some(v) => si_parse(format@) == Some(nodes_view(v@)),
            None => si_parse(format@) is None,
        },
{
    let cs = chars_of(format);
    let mut parsed: Vec<ParseNode<'a>> = Vec::new();
    let mut pos: usize = 0;
    assert(cs@.skip(0) =~= cs@);
    assert(nodes_view(parsed@) + Seq::<(Seq<char>, ParseType)>::empty() =~= Seq::<(Seq<char>, ParseType)>::empty());
    loop
        invariant
            cs@ == format@,
            pos <= cs.len(),
            si_parse(cs@) == match si_parse(cs@.skip(pos as int)) {
                Some(t) => Some(nodes_view(parsed@) + t),
                None => None,
            },
        decreases cs.len() - pos,
    {
        let ghost s = cs@.skip(pos as int);
        let rest = subvec(&cs, pos, cs.len());
        assert(rest@ =~= s);
        match find_open_exec(&rest) {
            None => {
                let ghost before = nodes_view(parsed@);
                if pos < cs.len() {
                    let t = format.substring_char(pos, cs.len());
                    parsed.push(ParseNode { content: t, ptype: ParseType::Text });
                    assert(nodes_view(parsed@) =~= before + seq![(s, ParseType::Text)]);
                } else {
                    assert(before + Seq::<(Seq<char>, ParseType)>::empty() =~= before);
                }
                return Some(parsed);
            },
            Some(n) => {
                let rest2 = subvec(&cs, pos + n, cs.len());
                assert(rest2@ =~= s.skip(n as int));
                proof {
                    lemma_index_of(rest2@, '}');
                    lemma_find_open(s);
                }
                match find_first(&rest2, '}') {
                    None => {
                        return None;
                    },
                    Some(e) => {
                        assert(rest2@[0] == '$' && rest2@[1] == '{');
                        assert(e >= 2);
                        let ghost before = nodes_view(parsed@);
                        let ghost tail = si_parse(s.skip(n as int).skip(e + 1));
                        if n != 0 {
                            let t = format.substring_char(pos, pos + n);
                            assert(t@ =~= s.take(n as int));
                            parsed.push(ParseNode { content: t, ptype: ParseType::Text });
                        }
                        let v = format.substring_char(pos + n + 2, pos + n + e);
                        assert(v@ =~= s.skip(n as int).subrange(2, e as int));
                        parsed.push(ParseNode { content: v, ptype: ParseType::Variable });
                        assert(nodes_view(parsed@) =~= before + (if n == 0 {
                            Seq::<(Seq<char>, ParseType)>::empty()
                        } else {
                            seq![(s.take(n as int), ParseType::Text)]
                        }) + seq![(s.skip(n as int).subrange(2, e as int), ParseType::Variable)]);
                        assert(s.skip(n as int).skip(e + 1) =~= cs@.skip(pos + n + e + 1));
                        proof {
                            match tail {
                                Some(tl) => {
                                    assert(before + ((if n == 0 {
                                        Seq::<(Seq<char>, ParseType)>::empty()
                                    } else {
                                        seq![(s.take(n as int), ParseType::Text)]
                                    }) + seq![(s.skip(n as int).subrange(2, e as int), ParseType::Variable)] + tl)
                                        =~= nodes_view(parsed@) + tl);
                                },
                                None => {},
                            }
                        }
                        pos = pos + n + e + 1;
                    },
                }
            },
        }
    }
}

/// Split a stage info format into its pieces.
pub fn parse_si_format<'a>(format: &'a str) -> (v: Vec<ParseNode<'a>>)
    requires
        si_parse(format@) is Some,
    ensures
        si_parse(format@) == Some(nodes_view(v@)),
{
    match try_parse_si_format(format) {
        Some(v) => v,
        None => Vec::new(),
    }
}

/// Text of pieces written back: literal text as it is, variables as
/// `${name}`.
pub open spec fn render(nodes: Seq<(Seq<char>, ParseType)>) -> Seq<char>
    decreases nodes.len(),
{
    if nodes.len() == 0 {
        Seq::empty()
    } else {
        piece_text(nodes[0]) + render(nodes.drop_first())
    }
}

/// Lemma: writing back a concatenation of pieces concatenates their texts.
proof fn lemma_render_append(a: Seq<(Seq<char>, ParseType)>, b: Seq<(Seq<char>, ParseType)>)
    ensures
        render(a + b) == render(a) + render(b),
    decreases a.len(),
{
    if a.len() == 0 {
        assert(a + b =~= b);
    } else {
        lemma_render_append(a.drop_first(), b);
        assert((a + b).drop_first() =~= a.drop_first() + b);
        assert((a + b)[0] == a[0]);
    }
}

/// Text of one piece written back.
pub open spec fn piece_text(n: (Seq<char>, ParseType)) -> Seq<char> {
    match n.1 {
        ParseType::Text => n.0,
        ParseType::Variable => "${"@ + n.0 + seq!['}'],
    }
}

/// Lemma: one piece is written back as its own text.
proof fn lemma_render_single(x: (Seq<char>, ParseType))
    ensures
        render(seq![x]) == piece_text(x),
{
    let v = seq![x];
    assert(v.drop_first() =~= Seq::<(Seq<char>, ParseType)>::empty());
    assert(render(v.drop_first()) == Seq::<char>::empty());
    assert(render(v) =~= piece_text(x));
}

/// Law: a stage info format that parses is given back, character for
/// character, by writing its pieces back (text as it is, variables as
/// `${name}`).
pub proof fn law_si_format_roundtrip(s: Seq<char>)
    requires
        si_parse(s) is Some,
    ensures
        render(si_parse(s).unwrap()) == s,
    decreases s.len(),
{
    match find_open(s) {
        None => {
            if s.len() > 0 {
                lemma_render_single((s, ParseType::Text));
            }
        },
        Some(n) => {
            lemma_find_open(s);
            let rest = s.skip(n);
            let e = index_of_first(rest, '}').unwrap();
            lemma_index_of(rest, '}');
            let tail_s = rest.skip(e + 1);
            law_si_format_roundtrip(tail_s);
            let tail = si_parse(tail_s).unwrap();
            let pre: Seq<(Seq<char>, ParseType)> = if n == 0 {
                Seq::empty()
            } else {
                seq![(s.take(n), ParseType::Text)]
            };
            let var = seq![(rest.subrange(2, e), ParseType::Variable)];
            assert(si_parse(s).unwrap() == pre + var + tail);
            lemma_render_append(pre + var, tail);
            lemma_render_append(pre, var);
            lemma_render_single((rest.subrange(2, e), ParseType::Variable));
            assert(render(pre) == s.take(n)) by {
                if n != 0 {
                    lemma_render_single((s.take(n), ParseType::Text));
                } else {
                    assert(s.take(n) =~= Seq::<char>::empty());
                }
            }
            assert(s =~= s.take(n) + ("${"@ + rest.subrange(2, e) + seq!['}']) + tail_s) by {
                reveal_strlit("${");
                assert(rest[0] == '$' && rest[1] == '{');
                assert(rest[e] == '}');
                assert(rest =~= "${"@ + rest.subrange(2, e) + seq!['}'] + tail_s);
                assert(s =~= s.take(n) + rest);
            }
        },
    }
}
/// Does `"${"` occur in `s`?
pub open spec fn has_open(s: Seq<char>) -> bool {
    exists|j: int| 0 <= j && j + 1 < s.len() && #[trigger] s[j] == '$' && s[j + 1] == '{'
}

/// Pieces that are well formed: a text piece is never empty and holds no
/// `"${"`, a variable's name holds no `'}'`, and no two text pieces stand
/// next to each other.
pub open spec fn si_nodes_ok(ns: Seq<(Seq<char>, ParseType)>) -> bool {
    &&& forall|i: int| 0 <= i < ns.len() && (#[trigger] ns[i]).1 == ParseType::Text
        ==> ns[i].0.len() > 0 && !has_open(ns[i].0)
    &&& forall|i: int| 0 <= i < ns.len() && (#[trigger] ns[i]).1 == ParseType::Variable ==> !ns[i].0.contains('}')
    &&& forall|i: int, j: int| 0 <= i && j == i + 1 && j < ns.len() && (#[trigger] ns[i]).1 == ParseType::Text
        ==> (#[trigger] ns[j]).1 == ParseType::Variable
}

/// Lemma: at most one well-formed text piece, then a variable, then well
/// formed pieces, are well formed together.
proof fn lemma_si_nodes_join(
    pre: Seq<(Seq<char>, ParseType)>,
    v: Seq<char>,
    tail: Seq<(Seq<char>, ParseType)>,
)
    requires
        pre.len() <= 1,
        pre.len() == 1 ==> pre[0].1 == ParseType::Text && pre[0].0.len() > 0 && !has_open(pre[0].0),
        !v.contains('}'),
        si_nodes_ok(tail),
    ensures
        si_nodes_ok(pre + seq![(v, ParseType::Variable)] + tail),
{
    let ns = pre + seq![(v, ParseType::Variable)] + tail;
    let p = pre.len() as int;
    assert(ns[p] == (v, ParseType::Variable));
    assert(p == 1 ==> ns[0] == pre[0]);
    assert forall|i: int| 0 <= i < ns.len() && (#[trigger] ns[i]).1 == ParseType::Text
        implies ns[i].0.len() > 0 && !has_open(ns[i].0) by {
        if i > p {
            assert(ns[i] == tail[i - p - 1]);
        }
    }
    assert forall|i: int| 0 <= i < ns.len() && (#[trigger] ns[i]).1 == ParseType::Variable
        implies !ns[i].0.contains('}') by {
        if i > p {
            assert(ns[i] == tail[i - p - 1]);
        }
    }
    assert forall|i: int, j: int| 0 <= i && j == i + 1 && j < ns.len() && (#[trigger] ns[i]).1 == ParseType::Text
        implies (#[trigger] ns[j]).1 == ParseType::Variable by {
        if i > p {
            assert(ns[i] == tail[i - p - 1]);
            assert(ns[j] == tail[j - p - 1]);
        }
    }
}

/// Law: the pieces of a stage info format are well formed (see
/// [`si_nodes_ok`]).
pub proof fn law_si_format_nodes(s: Seq<char>)
    requires
        si_parse(s) is Some,
    ensures
        si_nodes_ok(si_parse(s).unwrap()),
    decreases s.len(),
{
    lemma_find_open(s);
    match find_open(s) {
        None => {
            assert(!has_open(s)) by {
                if has_open(s) {
                    let j = choose|j: int| 0 <= j && j + 1 < s.len() && #[trigger] s[j] == '$' && s[j + 1] == '{';
                }
            }
            if s.len() > 0 {
                assert(si_parse(s).unwrap() == seq![(s, ParseType::Text)]);
            }
        },
        Some(n) => {
            let rest = s.skip(n);
            let e = index_of_first(rest, '}').unwrap();
            lemma_index_of(rest, '}');
            let tail_s = rest.skip(e + 1);
            law_si_format_nodes(tail_s);
            let t = s.take(n);
            let pre: Seq<(Seq<char>, ParseType)> = if n == 0 {
                Seq::empty()
            } else {
                seq![(t, ParseType::Text)]
            };
            let v = rest.subrange(2, e);
            assert(!has_open(t)) by {
                if has_open(t) {
                    let j = choose|j: int| 0 <= j && j + 1 < t.len() && #[trigger] t[j] == '$' && t[j + 1] == '{';
                    assert(s[j] == '$' && s[j + 1] == '{');
                }
            }
            assert(!v.contains('}')) by {
                if v.contains('}') {
                    let j = choose|j: int| 0 <= j < v.len() && v[j] == '}';
                    assert(rest[j + 2] == '}');
                }
            }
            lemma_si_nodes_join(pre, v, si_parse(tail_s).unwrap());
        },
    }
}
} // verus!
