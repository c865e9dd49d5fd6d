//! `${VAR}` templates: parsing into segments and rendering against an environment.
use vstd::prelude::*;
use vstd::string::StringExecFns;

use crate::strmap::Env;
use crate::text::{
    chars_of, find, find_from, lemma_find_first, lemma_find_matches, matches_at, string_from_chars,
};

verus! {

broadcast use vstd::seq::group_seq_axioms;

/// A segment of a parsed template string.
#[derive(Debug, PartialEq)]
pub enum Segment {
    /// Literal text, passed through as-is.
    Literal(String),
    /// `${VAR_NAME}`: to be resolved from the environment.
    Var(String),
}

/// The mathematical value of a segment.
pub ghost enum SegmentV {
    Literal(Seq<char>),
    Var(Seq<char>),
}

impl View for Segment {
    type V = SegmentV;

    open spec fn view(&self) -> SegmentV {
        match self {
            Segment::Literal(s) => SegmentV::Literal(s@),
            Segment::Var(s) => SegmentV::Var(s@),
        }
    }
}

/// A lexical token of a template: a piece of literal text or one variable.
pub ghost enum Tok {
    Text(Seq<char>),
    Var(Seq<char>),
}

proof fn lemma_scan_char(s: Seq<char>)
    requires
        s.len() > 0,
        s[0] != '$',
    ensures
        scan(s) == seq![Tok::Text(seq![s[0]])] + scan(s.skip(1)),
{
}

proof fn lemma_scan_dollar(s: Seq<char>)
    requires
        s.len() > 0,
        s[0] == '$',
        s.len() < 2 || (s[1] != '$' && s[1] != '{'),
    ensures
        scan(s) == seq![Tok::Text(seq!['$'])] + scan(s.skip(1)),
{
}

proof fn lemma_scan_escape(s: Seq<char>)
    requires
        s.len() >= 2,
        s[0] == '$',
        s[1] == '$',
    ensures
        scan(s) == seq![Tok::Text(seq!['$'])] + scan(s.skip(2)),
{
}

/// The tokens of a template, read from left to right:
/// `$$` is a literal `$`; `${NAME}` is a variable; a `${` that is never closed
/// and a `$` followed by anything else are literal text.
pub open spec fn scan(s: Seq<char>) -> Seq<Tok>
    decreases s.len(),
{
    if s.len() == 0 {
        Seq::empty()
    } else if s[0] != '$' {
        seq![Tok::Text(seq![s[0]])] + scan(s.skip(1))
    } else if s.len() >= 2 && s[1] == '$' {
        seq![Tok::Text(seq!['$'])] + scan(s.skip(2))
    } else if s.len() >= 2 && s[1] == '{' {
        let body = s.skip(2);
        match find(body, seq!['}']) {
            Some(j) => if 0 <= j < body.len() {
                seq![Tok::Var(body.take(j))] + scan(body.skip(j + 1))
            } else {
                seq![Tok::Text(s)]
            },
            None => seq![Tok::Text(s)],
        }
    } else {
        seq![Tok::Text(seq!['$'])] + scan(s.skip(1))
    }
}

/// Tokens grouped into segments: runs of literal text become one
/// `Literal`, each variable its own `Var`.
pub open spec fn group(toks: Seq<Tok>) -> Seq<SegmentV>
    decreases toks.len(),
{
    if toks.len() == 0 {
        Seq::empty()
    } else {
        let g = group(toks.drop_last());
        match toks.last() {
            Tok::Text(t) => if g.len() > 0 && g.last() is Literal {
                g.update(g.len() - 1, SegmentV::Literal(g.last()->Literal_0 + t))
            } else {
                g.push(SegmentV::Literal(t))
            },
            Tok::Var(n) => g.push(SegmentV::Var(n)),
        }
    }
}

/// Segments in normal form: no empty literal, and never two literals in a row.
pub open spec fn segments_normal(segs: Seq<SegmentV>) -> bool {
    &&& forall|i: int| 0 <= i < segs.len() && (#[trigger] segs[i]) is Literal ==> segs[i]->Literal_0.len() > 0
    &&& forall|i: int|
        0 <= i < segs.len() - 1 ==> !((#[trigger] segs[i]) is Literal && segs[i + 1] is Literal)
}

/// Every text token holds at least one character.
pub open spec fn texts_nonempty(toks: Seq<Tok>) -> bool {
    forall|i: int| 0 <= i < toks.len() && (#[trigger] toks[i]) is Text ==> toks[i]->Text_0.len() > 0
}

proof fn lemma_scan_texts_nonempty(s: Seq<char>)
    ensures
        texts_nonempty(scan(s)),
    decreases s.len(),
{
    if s.len() == 0 {
    } else if s[0] != '$' {
        lemma_scan_texts_nonempty(s.skip(1));
        lemma_texts_nonempty_concat(seq![Tok::Text(seq![s[0]])], scan(s.skip(1)));
    } else if s.len() >= 2 && s[1] == '$' {
        lemma_scan_texts_nonempty(s.skip(2));
        lemma_texts_nonempty_concat(seq![Tok::Text(seq!['$'])], scan(s.skip(2)));
    } else if s.len() >= 2 && s[1] == '{' {
        let body = s.skip(2);
        match find(body, seq!['}']) {
            Some(j) => if 0 <= j < body.len() {
                lemma_scan_texts_nonempty(body.skip(j + 1));
                lemma_texts_nonempty_concat(seq![Tok::Var(body.take(j))], scan(body.skip(j + 1)));
            } else {
            },
            None => {},
        }
    } else {
        lemma_scan_texts_nonempty(s.skip(1));
        lemma_texts_nonempty_concat(seq![Tok::Text(seq!['$'])], scan(s.skip(1)));
    }
}

proof fn lemma_texts_nonempty_concat(a: Seq<Tok>, b: Seq<Tok>)
    requires
        texts_nonempty(a),
        texts_nonempty(b),
    ensures
        texts_nonempty(a + b),
{
    assert forall|i: int| 0 <= i < (a + b).len() && (#[trigger] (a + b)[i]) is Text implies (a
        + b)[i]->Text_0.len() > 0 by {
        if i < a.len() {
            assert((a + b)[i] == a[i]);
        } else {
            assert((a + b)[i] == b[i - a.len()]);
        }
    }
}

proof fn lemma_group_normal(toks: Seq<Tok>)
    requires
        texts_nonempty(toks),
    ensures
        segments_normal(group(toks)),
        group(toks).len() > 0 ==> (group(toks).last() is Literal <==> toks.last() is Text),
    decreases toks.len(),
{
    if toks.len() > 0 {
        let d = toks.drop_last();
        assert forall|i: int| 0 <= i < d.len() && (#[trigger] d[i]) is Text implies d[i]->Text_0.len()
            > 0 by {
            assert(d[i] == toks[i]);
        }
        lemma_group_normal(d);
        let g = group(d);
        assert(toks[toks.len() - 1] == toks.last());
        match toks.last() {
            Tok::Text(t) => {
                if g.len() > 0 && g.last() is Literal {
                    let r = g.update(g.len() - 1, SegmentV::Literal(g.last()->Literal_0 + t));
                    assert(group(toks) == r);
                    assert forall|i: int| 0 <= i < r.len() && (#[trigger] r[i]) is Literal implies r[i]->Literal_0.len() > 0 by {
                        if i < r.len() - 1 {
                            assert(r[i] == g[i]);
                        }
                    }
                    assert forall|i: int| 0 <= i < r.len() - 1 implies !((#[trigger] r[i]) is Literal && r[i + 1] is Literal) by {
                        assert(r[i] == g[i]);
                        if i + 1 < r.len() - 1 {
                            assert(r[i + 1] == g[i + 1]);
                        }
                    }
                } else {
                    let r = g.push(SegmentV::Literal(t));
                    assert(group(toks) == r);
                    assert forall|i: int| 0 <= i < r.len() && (#[trigger] r[i]) is Literal implies r[i]->Literal_0.len() > 0 by {
                        if i < r.len() - 1 {
                            assert(r[i] == g[i]);
                        }
                    }
                    assert forall|i: int| 0 <= i < r.len() - 1 implies !((#[trigger] r[i]) is Literal && r[i + 1] is Literal) by {
                        assert(r[i] == g[i]);
                        if i + 1 < r.len() - 1 {
                            assert(r[i + 1] == g[i + 1]);
                        } else {
                            assert(g[i] == g.last());
                        }
                    }
                }
            },
            Tok::Var(n) => {
                let r = g.push(SegmentV::Var(n));
                assert(group(toks) == r);
                assert forall|i: int| 0 <= i < r.len() && (#[trigger] r[i]) is Literal implies r[i]->Literal_0.len() > 0 by {
                    if i < r.len() - 1 {
                        assert(r[i] == g[i]);
                    }
                }
                assert forall|i: int| 0 <= i < r.len() - 1 implies !((#[trigger] r[i]) is Literal && r[i + 1] is Literal) by {
                    assert(r[i] == g[i]);
                    if i + 1 < r.len() - 1 {
                        assert(r[i + 1] == g[i + 1]);
                    }
                }
            },
        }
    }
}

/// The segments of a template.
pub open spec fn spec_parse_template(s: Seq<char>) -> Seq<SegmentV> {
    group(scan(s))
}

/// The views of a list of segments.
pub open spec fn segs_view(v: Seq<Segment>) -> Seq<SegmentV> {
    Seq::new(v.len(), |i: int| v[i]@)
}

/// The parser's state: the emitted segments and the pending literal run.
pub open spec fn parse_state(segs: Seq<SegmentV>, lit: Seq<char>, toks: Seq<Tok>) -> bool {
    &&& (segs.len() == 0 || segs.last() is Var)
    &&& if lit.len() == 0 {
        group(toks) == segs
    } else {
        group(toks) == segs.push(SegmentV::Literal(lit))
    }
}

proof fn lemma_push_text(segs: Seq<SegmentV>, lit: Seq<char>, toks: Seq<Tok>, t: Seq<char>)
    requires
        parse_state(segs, lit, toks),
        t.len() > 0,
    ensures
        parse_state(segs, lit + t, toks.push(Tok::Text(t))),
{
    let t2 = toks.push(Tok::Text(t));
    assert(t2.drop_last() =~= toks);
    let g = group(toks);
    if lit.len() == 0 {
        assert(lit + t =~= t);
        assert(group(t2) == g.push(SegmentV::Literal(t)));
    } else {
        assert(g.last() == SegmentV::Literal(lit));
        assert(group(t2) == g.update(g.len() - 1, SegmentV::Literal(lit + t)));
        assert(g.update(g.len() - 1, SegmentV::Literal(lit + t)) =~= segs.push(
            SegmentV::Literal(lit + t),
        ));
    }
}

proof fn lemma_push_var(segs: Seq<SegmentV>, lit: Seq<char>, toks: Seq<Tok>, n: Seq<char>)
    requires
        parse_state(segs, lit, toks),
    ensures
        lit.len() == 0 ==> parse_state(segs.push(SegmentV::Var(n)), Seq::empty(), toks.push(Tok::Var(n))),
        lit.len() > 0 ==> parse_state(
            segs.push(SegmentV::Literal(lit)).push(SegmentV::Var(n)),
            Seq::empty(),
            toks.push(Tok::Var(n)),
        ),
{
    let t2 = toks.push(Tok::Var(n));
    assert(t2.drop_last() =~= toks);
}

/// Pushes the pending literal, if any, to the segments.
fn flush(segs: &mut Vec<Segment>, lit: &mut Vec<char>)
    ensures
        final(lit)@.len() == 0,
        old(lit)@.len() == 0 ==> segs_view(final(segs)@) == segs_view(old(segs)@),
        old(lit)@.len() > 0 ==> segs_view(final(segs)@) == segs_view(old(segs)@).push(
            SegmentV::Literal(old(lit)@),
        ),
{
    if lit.len() > 0 {
        let s = string_from_chars(lit);
        segs.push(Segment::Literal(s));
        *lit = Vec::new();
        assert(segs_view(segs@) =~= segs_view(old(segs)@).push(SegmentV::Literal(old(lit)@)));
    } else {
        assert(segs_view(segs@) =~= segs_view(old(segs)@));
    }
}

/// Parses a template string into segments (no environment access).
///
/// - `${VAR}` gives `Segment::Var("VAR")`
/// - `$$` gives a literal `$`
/// - an unclosed `${` or a bare `$` is literal text
/// - adjacent literal text is merged into one `Segment::Literal`
pub fn parse_template(s: &str) -> (segs: Vec<Segment>)
    ensures
        segs_view(segs@) == spec_parse_template(s@),
        segments_normal(segs_view(segs@)),
{
    proof {
        lemma_scan_texts_nonempty(s@);
        lemma_group_normal(scan(s@));
    }
    let v = chars_of(s);
    let n = v.len();
    let mut segs: Vec<Segment> = Vec::new();
    let mut lit: Vec<char> = Vec::new();
    let ghost mut toks: Seq<Tok> = Seq::empty();
    let close = vec!['}'];
    assert(close@ =~= seq!['}']);
    let mut i: usize = 0;
    assert(v@.skip(0) =~= v@);
    assert(segs_view(segs@) =~= Seq::<SegmentV>::empty());
    assert(toks + scan(v@) =~= scan(v@));
    while i < n
        invariant
            n == v.len(),
            i <= n,
            close@ == seq!['}'],
            toks + scan(v@.skip(i as int)) == scan(v@),
            parse_state(segs_view(segs@), lit@, toks),
        decreases n - i,
    {
        let ghost rest = v@.skip(i as int);
        let c = v[i];
        if c != '$' {
            proof {
                assert(rest.skip(1) =~= v@.skip(i + 1));
                assert(rest.len() > 0 && rest[0] == c);
                lemma_scan_char(rest);
                lemma_push_text(segs_view(segs@), lit@, toks, seq![c]);
                assert(lit@.push(c) =~= lit@ + seq![c]);
                assert(toks.push(Tok::Text(seq![c])) + scan(v@.skip(i + 1)) =~= toks + scan(rest));
                toks = toks.push(Tok::Text(seq![c]));
            }
            lit.push(c);
            i += 1;
        } else if i + 1 < n && v[i + 1] == '$' {
            proof {
                assert(rest.skip(2) =~= v@.skip(i + 2));
                assert(rest[0] == '$' && rest[1] == '$');
                lemma_scan_escape(rest);
                lemma_push_text(segs_view(segs@), lit@, toks, seq!['$']);
                assert(lit@.push('$') =~= lit@ + seq!['$']);
                assert(toks.push(Tok::Text(seq!['$'])) + scan(v@.skip(i + 2)) =~= toks + scan(rest));
                toks = toks.push(Tok::Text(seq!['$']));
            }
            lit.push('$');
            i += 2;
        } else if i + 1 < n && v[i + 1] == '{' {
            let ghost body = rest.skip(2);
            assert(body =~= v@.skip(i + 2));
            match find_from(&v, &close, i + 2) {
                Some(j) => {
                    proof {
                        lemma_find_matches(body, seq!['}']);
                    }
                    let name_chars = slice_chars(&v, i + 2, j);
                    let name = string_from_chars(&name_chars);
                    proof {
                        assert(body.take(j - i - 2) =~= v@.subrange(i + 2, j as int));
                        assert(body.skip(j - i - 2 + 1) =~= v@.skip(j + 1));
                        lemma_push_var(segs_view(segs@), lit@, toks, name@);
                        assert(toks.push(Tok::Var(name@)) + scan(v@.skip(j + 1)) =~= toks + scan(
                            rest,
                        ));
                        toks = toks.push(Tok::Var(name@));
                    }
                    let ghost sv0 = segs_view(segs@);
                    flush(&mut segs, &mut lit);
                    let ghost sv1 = segs_view(segs@);
                    segs.push(Segment::Var(name));
                    assert(segs_view(segs@) =~= sv1.push(SegmentV::Var(name@)));
                    i = j + 1;
                },
                None => {
                    let ghost lit0 = lit@;
                    let mut k = i;
                    assert(v@.subrange(i as int, k as int) =~= Seq::<char>::empty());
                    while k < n
                        invariant
                            n == v.len(),
                            i <= k <= n,
                            lit@ == lit0 + v@.subrange(i as int, k as int),
                        decreases n - k,
                    {
                        lit.push(v[k]);
                        k += 1;
                        assert(lit@ =~= lit0 + v@.subrange(i as int, k as int));
                    }
                    proof {
                        assert(v@.subrange(i as int, n as int) =~= rest);
                        assert(scan(rest) == seq![Tok::Text(rest)]);
                        lemma_push_text(segs_view(segs@), lit0, toks, rest);
                        toks = toks.push(Tok::Text(rest));
                        assert(v@.skip(n as int) =~= Seq::<char>::empty());
                        assert(toks + scan(v@.skip(n as int)) =~= toks);
                    }
                    i = n;
                },
            }
        } else {
            proof {
                assert(rest.skip(1) =~= v@.skip(i + 1));
                assert(rest[0] == '$');
                lemma_scan_dollar(rest);
                lemma_push_text(segs_view(segs@), lit@, toks, seq!['$']);
                assert(lit@.push('$') =~= lit@ + seq!['$']);
                assert(toks.push(Tok::Text(seq!['$'])) + scan(v@.skip(i + 1)) =~= toks + scan(rest));
                toks = toks.push(Tok::Text(seq!['$']));
            }
            lit.push('$');
            i += 1;
        }
    }
    proof {
        assert(v@.skip(n as int) =~= Seq::<char>::empty());
        assert(toks + scan(v@.skip(n as int)) =~= toks);
    }
    flush(&mut segs, &mut lit);
    segs
}

/// `v[from..to]` as a new vector.
fn slice_chars(v: &Vec<char>, from: usize, to: usize) -> (r: Vec<char>)
    requires
        from <= to <= v.len(),
    ensures
        r@ == v@.subrange(from as int, to as int),
{
    let mut r: Vec<char> = Vec::new();
    let mut k = from;
    while k < to
        invariant
            from <= k <= to <= v.len(),
            r@ == v@.subrange(from as int, k as int),
        decreases to - k,
    {
        r.push(v[k]);
        k += 1;
        assert(r@ =~= v@.subrange(from as int, k as int));
    }
    r
}


/// The text a segment renders to: literals as they are, known variables as
/// their value, unknown variables as `${NAME}`.
pub open spec fn render_seg(seg: SegmentV, env: Map<Seq<char>, Seq<char>>) -> Seq<char> {
    match seg {
        SegmentV::Literal(t) => t,
        SegmentV::Var(n) => if env.contains_key(n) {
            env[n]
        } else {
            seq!['$', '{'] + n + seq!['}']
        },
    }
}

/// The concatenated rendering of a list of segments.
pub open spec fn render(segs: Seq<SegmentV>, env: Map<Seq<char>, Seq<char>>) -> Seq<char>
    decreases segs.len(),
{
    if segs.len() == 0 {
        Seq::empty()
    } else {
        render(segs.drop_last(), env) + render_seg(segs.last(), env)
    }
}

/// Resolves a parsed template by substituting `Var` segments from `env`.
/// Unknown variables are rendered as `${VAR_NAME}`.
pub fn resolve_env(segments: &[Segment], env: &Env) -> (r: String)
    ensures
        r@ == render(segs_view(segments@), env@),
{
    let mut result = String::new();
    let mut i: usize = 0;
    while i < segments.len()
        invariant
            i <= segments.len(),
            result@ == render(segs_view(segments@).take(i as int), env@),
        decreases segments.len() - i,
    {
        let ghost before = segs_view(segments@).take(i as int);
        assert(segs_view(segments@).take(i + 1).drop_last() =~= before);
        match &segments[i] {
            Segment::Literal(s) => {
                result.append(s.as_str());
            },
            Segment::Var(name) => match env.get(name.as_str()) {
                Some(val) => {
                    result.append(val.as_str());
                },
                None => {
                    result.append("${");
                    result.append(name.as_str());
                    result.append("}");
                    proof {
                        reveal_strlit("${");
                        reveal_strlit("}");
                    }
                },
            },
        }
        i += 1;
    }
    assert(segs_view(segments@).take(segments.len() as int) =~= segs_view(segments@));
    result
}

/// Parses `s` and resolves it against `env` in one call.
pub fn resolve(s: &str, env: &Env) -> (r: String)
    ensures
        r@ == render(spec_parse_template(s@), env@),
{
    let segs = parse_template(s);
    resolve_env(segs.as_slice(), env)
}


/// The text a token stands for in the source, with variables written `${NAME}`.
pub open spec fn tok_text(t: Tok) -> Seq<char> {
    match t {
        Tok::Text(x) => x,
        Tok::Var(n) => seq!['$', '{'] + n + seq!['}'],
    }
}

/// The texts of a list of tokens, concatenated.
pub open spec fn flat(toks: Seq<Tok>) -> Seq<char>
    decreases toks.len(),
{
    if toks.len() == 0 {
        Seq::empty()
    } else {
        flat(toks.drop_last()) + tok_text(toks.last())
    }
}

/// The template uses no `$$` escape outside a variable name.
pub open spec fn escape_free(s: Seq<char>) -> bool
    decreases s.len(),
{
    if s.len() == 0 {
        true
    } else if s[0] != '$' {
        escape_free(s.skip(1))
    } else if s.len() >= 2 && s[1] == '$' {
        false
    } else if s.len() >= 2 && s[1] == '{' {
        let body = s.skip(2);
        match find(body, seq!['}']) {
            Some(j) => if 0 <= j < body.len() {
                escape_free(body.skip(j + 1))
            } else {
                true
            },
            None => true,
        }
    } else {
        escape_free(s.skip(1))
    }
}

proof fn lemma_flat_concat(a: Seq<Tok>, b: Seq<Tok>)
    ensures
        flat(a + b) == flat(a) + flat(b),
    decreases b.len(),
{
    if b.len() == 0 {
        assert(a + b =~= a);
        assert(flat(a) + flat(b) =~= flat(a));
    } else {
        assert((a + b).drop_last() =~= a + b.drop_last());
        assert((a + b).last() == b.last());
        lemma_flat_concat(a, b.drop_last());
        assert(flat(a) + flat(b.drop_last()) + tok_text(b.last()) =~= flat(a) + (flat(
            b.drop_last(),
        ) + tok_text(b.last())));
    }
}

proof fn lemma_render_group(toks: Seq<Tok>)
    ensures
        render(group(toks), Map::empty()) == flat(toks),
    decreases toks.len(),
{
    if toks.len() > 0 {
        let d = toks.drop_last();
        lemma_render_group(d);
        let g = group(d);
        let e = Map::<Seq<char>, Seq<char>>::empty();
        match toks.last() {
            Tok::Text(t) => {
                if g.len() > 0 && g.last() is Literal {
                    let l = g.last()->Literal_0;
                    let r = g.update(g.len() - 1, SegmentV::Literal(l + t));
                    assert(r.drop_last() =~= g.drop_last());
                    assert(render(g, e) == render(g.drop_last(), e) + l);
                    assert(render(r, e) == render(r.drop_last(), e) + (l + t));
                    assert(render(g.drop_last(), e) + (l + t) =~= render(g.drop_last(), e) + l + t);
                } else {
                    assert(g.push(SegmentV::Literal(t)).drop_last() =~= g);
                }
            },
            Tok::Var(n) => {
                assert(g.push(SegmentV::Var(n)).drop_last() =~= g);
            },
        }
    }
}

proof fn lemma_flat_one(t: Tok)
    ensures
        flat(seq![t]) == tok_text(t),
{
    let one = seq![t];
    assert(one.len() == 1);
    assert(one.last() == t);
    assert(one.drop_last() =~= Seq::<Tok>::empty());
    assert(flat(Seq::<Tok>::empty()) == Seq::<char>::empty());
    assert(flat(one) == flat(one.drop_last()) + tok_text(one.last()));
    assert(Seq::<char>::empty() + tok_text(t) =~= tok_text(t));
}

proof fn lemma_flat_scan(s: Seq<char>)
    requires
        escape_free(s),
    ensures
        flat(scan(s)) == s,
    decreases s.len(),
{
    if s.len() == 0 {
    } else if s[0] != '$' {
        lemma_flat_scan(s.skip(1));
        let t = seq![Tok::Text(seq![s[0]])];
        assert(scan(s) == t + scan(s.skip(1)));
        lemma_flat_concat(t, scan(s.skip(1)));
        lemma_flat_one(Tok::Text(seq![s[0]]));
        assert(seq![s[0]] + s.skip(1) =~= s);
    } else if s.len() >= 2 && s[1] == '$' {
    } else if s.len() >= 2 && s[1] == '{' {
        let body = s.skip(2);
        lemma_find_matches(body, seq!['}']);
        match find(body, seq!['}']) {
            Some(j) => if 0 <= j < body.len() {
                lemma_flat_scan(body.skip(j + 1));
                let v = seq![Tok::Var(body.take(j))];
                assert(scan(s) == v + scan(body.skip(j + 1)));
                lemma_flat_concat(v, scan(body.skip(j + 1)));
                lemma_flat_one(Tok::Var(body.take(j)));
                assert(body.subrange(j, j + 1) =~= seq!['}']);
                assert(body.subrange(j, j + 1)[0] == body[j]);
                assert(body[j] == '}');
                assert(body =~= body.take(j) + seq!['}'] + body.skip(j + 1));
                assert(s =~= seq!['$', '{'] + body);
                assert(seq!['$', '{'] + body.take(j) + seq!['}'] + body.skip(j + 1) =~= s);
            } else {
                assert(scan(s) == seq![Tok::Text(s)]);
                lemma_flat_one(Tok::Text(s));
            },
            None => {
                assert(scan(s) == seq![Tok::Text(s)]);
                lemma_flat_one(Tok::Text(s));
            },
        }
    } else {
        lemma_flat_scan(s.skip(1));
        let t = seq![Tok::Text(seq!['$'])];
        assert(scan(s) == t + scan(s.skip(1)));
        lemma_flat_concat(t, scan(s.skip(1)));
        lemma_flat_one(Tok::Text(seq!['$']));
        assert(seq!['$'] + s.skip(1) =~= s);
    }
}

/// Resolving a template against an empty environment gives the template
/// back, as long as it uses no `$$` escape: variables are written back as
/// `${NAME}`, and unclosed `${` and bare `$` are kept as they were.
pub proof fn law_resolve_without_env_is_identity(s: Seq<char>)
    requires
        escape_free(s),
    ensures
        render(spec_parse_template(s), Map::empty()) == s,
{
    lemma_render_group(scan(s));
    lemma_flat_scan(s);
}

/// A variable is replaced by its value: resolving `${NAME}` gives the value
/// of `NAME` when the environment has it, and `${NAME}` back when it does
/// not (for every name without a `}`).
pub proof fn law_variable_substitution(name: Seq<char>, env: Map<Seq<char>, Seq<char>>)
    requires
        forall|i: int| 0 <= i < name.len() ==> name[i] != '}',
    ensures
        render(spec_parse_template(seq!['$', '{'] + name + seq!['}']), env) == if env.contains_key(
            name,
        ) {
            env[name]
        } else {
            seq!['$', '{'] + name + seq!['}']
        },
{
    let s = seq!['$', '{'] + name + seq!['}'];
    let close = seq!['}'];
    let body = s.skip(2);
    assert(body =~= name + close);
    assert forall|j: int| 0 <= j < name.len() implies !matches_at(body, close, j) by {
        assert(body.subrange(j, j + 1)[0] == name[j]);
    }
    assert(body.subrange(name.len() as int, name.len() as int + 1) =~= close);
    lemma_find_first(body, close, name.len() as int);
    assert(body.take(name.len() as int) =~= name);
    assert(body.skip(name.len() as int + 1) =~= Seq::<char>::empty());
    assert(s[0] == '$' && s[1] == '{');
    assert(scan(Seq::<char>::empty()) =~= Seq::<Tok>::empty());
    assert(scan(s) =~= seq![Tok::Var(name)]);
    let toks = seq![Tok::Var(name)];
    assert(toks.drop_last() =~= Seq::<Tok>::empty());
    assert(group(Seq::<Tok>::empty()) =~= Seq::<SegmentV>::empty());
    assert(toks.last() == Tok::Var(name));
    assert(group(toks) =~= seq![SegmentV::Var(name)]);
    let segs = seq![SegmentV::Var(name)];
    assert(segs.drop_last() =~= Seq::<SegmentV>::empty());
    assert(spec_parse_template(s) == segs);
    assert(render(Seq::<SegmentV>::empty(), env) =~= Seq::<char>::empty());
    assert(segs.last() == SegmentV::Var(name));
    assert(render(segs, env) =~= render_seg(SegmentV::Var(name), env));
}

/// Literal text written so that it reads back as itself: each `$` doubled.
pub open spec fn escape_dollars(t: Seq<char>) -> Seq<char>
    decreases t.len(),
{
    if t.len() == 0 {
        Seq::empty()
    } else if t[0] == '$' {
        seq!['$', '$'] + escape_dollars(t.skip(1))
    } else {
        seq![t[0]] + escape_dollars(t.skip(1))
    }
}

/// The template text of one segment: its escaped literal, or `${NAME}`.
pub open spec fn segment_source(seg: SegmentV) -> Seq<char> {
    match seg {
        SegmentV::Literal(t) => escape_dollars(t),
        SegmentV::Var(n) => seq!['$', '{'] + n + seq!['}'],
    }
}

/// The template text of a list of segments.
pub open spec fn template_source(segs: Seq<SegmentV>) -> Seq<char>
    decreases segs.len(),
{
    if segs.len() == 0 {
        Seq::empty()
    } else {
        template_source(segs.drop_last()) + segment_source(segs.last())
    }
}

/// One text token per character.
pub open spec fn char_toks(t: Seq<char>) -> Seq<Tok> {
    Seq::new(t.len(), |i: int| Tok::Text(seq![t[i]]))
}

/// The tokens of one segment.
pub open spec fn segment_toks(seg: SegmentV) -> Seq<Tok> {
    match seg {
        SegmentV::Literal(t) => char_toks(t),
        SegmentV::Var(n) => seq![Tok::Var(n)],
    }
}

/// The tokens of a list of segments.
pub open spec fn segments_toks(segs: Seq<SegmentV>) -> Seq<Tok>
    decreases segs.len(),
{
    if segs.len() == 0 {
        Seq::empty()
    } else {
        segments_toks(segs.drop_last()) + segment_toks(segs.last())
    }
}

/// No variable name holds a closing brace.
pub open spec fn names_unbraced(segs: Seq<SegmentV>) -> bool {
    forall|i: int|
        0 <= i < segs.len() && (#[trigger] segs[i]) is Var ==> !segs[i]->Var_0.contains('}')
}

proof fn lemma_scan_escaped(t: Seq<char>, rest: Seq<char>)
    ensures
        scan(escape_dollars(t) + rest) == char_toks(t) + scan(rest),
    decreases t.len(),
{
    if t.len() == 0 {
        assert(escape_dollars(t) + rest =~= rest);
        assert(char_toks(t) + scan(rest) =~= scan(rest));
    } else {
        lemma_scan_escaped(t.skip(1), rest);
        let s = escape_dollars(t) + rest;
        let tail = escape_dollars(t.skip(1)) + rest;
        assert(char_toks(t) =~= seq![Tok::Text(seq![t[0]])] + char_toks(t.skip(1)));
        if t[0] == '$' {
            assert(s =~= seq!['$', '$'] + tail);
            assert(s.skip(2) =~= tail);
            lemma_scan_escape(s);
        } else {
            assert(s =~= seq![t[0]] + tail);
            assert(s.skip(1) =~= tail);
            lemma_scan_char(s);
        }
        assert(char_toks(t) + scan(rest) =~= seq![Tok::Text(seq![t[0]])] + (char_toks(t.skip(1))
            + scan(rest)));
    }
}

proof fn lemma_scan_var(n: Seq<char>, rest: Seq<char>)
    requires
        !n.contains('}'),
    ensures
        scan(seq!['$', '{'] + n + seq!['}'] + rest) == seq![Tok::Var(n)] + scan(rest),
{
    let s = seq!['$', '{'] + n + seq!['}'] + rest;
    let body = s.skip(2);
    assert(body =~= n + seq!['}'] + rest);
    let close = seq!['}'];
    assert(matches_at(body, close, n.len() as int)) by {
        assert(body.subrange(n.len() as int, n.len() + 1int) =~= close);
    }
    assert forall|j: int| 0 <= j < n.len() implies !matches_at(body, close, j) by {
        assert(body[j] == n[j]);
        if matches_at(body, close, j) {
            assert(body.subrange(j, j + 1)[0] == body[j]);
            assert(n.contains(n[j]));
        }
    }
    lemma_find_first(body, close, n.len() as int);
    assert(body.take(n.len() as int) =~= n);
    assert(body.skip(n.len() + 1int) =~= rest);
}

proof fn lemma_scan_source(segs: Seq<SegmentV>, rest: Seq<char>)
    requires
        names_unbraced(segs),
    ensures
        scan(template_source(segs) + rest) == segments_toks(segs) + scan(rest),
    decreases segs.len(),
{
    if segs.len() == 0 {
        assert(template_source(segs) + rest =~= rest);
        assert(segments_toks(segs) + scan(rest) =~= scan(rest));
    } else {
        let d = segs.drop_last();
        let last = segs.last();
        assert(segs[segs.len() - 1] == last);
        assert forall|i: int| 0 <= i < d.len() && (#[trigger] d[i]) is Var implies !d[i]->Var_0.contains('}') by {
            assert(d[i] == segs[i]);
        }
        let rest2 = segment_source(last) + rest;
        lemma_scan_source(d, rest2);
        assert(template_source(segs) + rest =~= template_source(d) + rest2);
        match last {
            SegmentV::Literal(t) => {
                lemma_scan_escaped(t, rest);
            },
            SegmentV::Var(n) => {
                assert(rest2 =~= seq!['$', '{'] + n + seq!['}'] + rest);
                lemma_scan_var(n, rest);
            },
        }
        assert(segments_toks(segs) + scan(rest) =~= segments_toks(d) + (segment_toks(last) + scan(
            rest,
        )));
    }
}

proof fn lemma_group_chars(p: Seq<Tok>, t: Seq<char>)
    requires
        t.len() > 0,
    ensures
        group(p + char_toks(t)) == (if group(p).len() > 0 && group(p).last() is Literal {
            group(p).update(
                group(p).len() - 1,
                SegmentV::Literal(group(p).last()->Literal_0 + t),
            )
        } else {
            group(p).push(SegmentV::Literal(t))
        }),
    decreases t.len(),
{
    let c = t.last();
    let d = t.drop_last();
    let toks = p + char_toks(t);
    assert(toks.drop_last() =~= p + char_toks(d));
    assert(toks.last() == Tok::Text(seq![c]));
    let g = group(p);
    if d.len() == 0 {
        assert(p + char_toks(d) =~= p);
        assert(t =~= seq![c]);
        if g.len() > 0 && g.last() is Literal {
            assert(g.last()->Literal_0 + seq![c] =~= g.last()->Literal_0 + t);
        }
    } else {
        lemma_group_chars(p, d);
        let h = group(p + char_toks(d));
        assert(h.len() > 0 && h.last() is Literal);
        if g.len() > 0 && g.last() is Literal {
            assert(h.last()->Literal_0 == g.last()->Literal_0 + d);
            assert(h.last()->Literal_0 + seq![c] =~= g.last()->Literal_0 + t);
            assert(h.update(h.len() - 1, SegmentV::Literal(h.last()->Literal_0 + seq![c])) =~= g.update(
                g.len() - 1,
                SegmentV::Literal(g.last()->Literal_0 + t),
            ));
        } else {
            assert(h.last()->Literal_0 == d);
            assert(d + seq![c] =~= t);
            assert(h.update(h.len() - 1, SegmentV::Literal(h.last()->Literal_0 + seq![c])) =~= g.push(
                SegmentV::Literal(t),
            ));
        }
    }
}

proof fn lemma_group_segments(segs: Seq<SegmentV>)
    requires
        segments_normal(segs),
    ensures
        group(segments_toks(segs)) == segs,
    decreases segs.len(),
{
    if segs.len() > 0 {
        let d = segs.drop_last();
        let last = segs.last();
        assert(segs[segs.len() - 1] == last);
        assert forall|i: int| 0 <= i < d.len() && (#[trigger] d[i]) is Literal implies d[i]->Literal_0.len() > 0 by {
            assert(d[i] == segs[i]);
        }
        assert forall|i: int| 0 <= i < d.len() - 1 implies !((#[trigger] d[i]) is Literal && d[i + 1] is Literal) by {
            assert(d[i] == segs[i]);
            assert(d[i + 1] == segs[i + 1]);
        }
        lemma_group_segments(d);
        let p = segments_toks(d);
        match last {
            SegmentV::Literal(t) => {
                if d.len() > 0 {
                    assert(d.last() == segs[segs.len() - 2]);
                }
                lemma_group_chars(p, t);
                assert(d.push(SegmentV::Literal(t)) =~= segs);
            },
            SegmentV::Var(n) => {
                let toks = p + seq![Tok::Var(n)];
                assert(toks.drop_last() =~= p);
                assert(toks.last() == Tok::Var(n));
                assert(d.push(SegmentV::Var(n)) =~= segs);
            },
        }
    }
}

/// Parsing gives back what was written: the template text of any segments
/// in normal form (no empty literal, no two literals in a row), with each
/// `$` of a literal doubled and no `}` in a variable name, parses to exactly
/// those segments.
pub proof fn law_parse_template_source(segs: Seq<SegmentV>)
    requires
        segments_normal(segs),
        names_unbraced(segs),
    ensures
        spec_parse_template(template_source(segs)) == segs,
{
    lemma_scan_source(segs, Seq::empty());
    assert(template_source(segs) + Seq::<char>::empty() =~= template_source(segs));
    assert(segments_toks(segs) + scan(Seq::<char>::empty()) =~= segments_toks(segs));
    lemma_group_segments(segs);
}

} // verus!
