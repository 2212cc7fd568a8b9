//! The grammar of a dependency specifier.

use vstd::prelude::*;
use crate::failure::Failure;
use crate::grammar::marker::either;
use crate::grammar::name::{name, ws};
use crate::grammar::url::url;
use crate::grammar::version::clauses;
use crate::model::{DependencyView, MarkerView, SpecView, VersionSpecView};
use crate::step::{accept, eof, tok, Step};

verus! {

/// How deep the groups of a marker may be nested.
pub const MAX_NESTING: usize = 128;

/// A name and the blanks after it.
pub open spec fn extra(s: Seq<char>, i: int, far: Failure) -> Step<Seq<char>> {
    let n = name(s, i, far);
    n.and(ws(s, n.end(), n.far)).put(n.val())
}

/// A comma, blanks, and an extra.
pub open spec fn next_extra(s: Seq<char>, i: int, far: Failure) -> Step<Seq<char>> {
    let c = tok(s, i, ',', far);
    let w = ws(s, i + 1, c.far);
    c.and(w).and(extra(s, w.end(), w.far))
}

/// As many further extras, each after its comma, as there are.
pub open spec fn more_extras(s: Seq<char>, i: int, far: Failure) -> Step<Seq<Seq<char>>>
    decreases s.len() - i,
{
    let m = next_extra(s, i, far);
    if m.ok() && i < m.end() <= s.len() {
        let r = more_extras(s, m.end(), m.far);
        accept(seq![m.val()] + r.val(), r.end(), r.far)
    } else {
        accept(Seq::empty(), i, m.far)
    }
}

/// The list of extras in its square brackets: one extra or more, with
/// commas between them.
pub open spec fn listed(s: Seq<char>, i: int, far: Failure) -> Step<Seq<Seq<char>>> {
    let o = tok(s, i, '[', far);
    let a = ws(s, i + 1, o.far);
    let e = extra(s, a.end(), a.far);
    let r = more_extras(s, e.end(), e.far);
    let c = tok(s, r.end(), ']', r.far);
    let b = ws(s, c.end(), c.far);
    o.and(a).and(e).and(r).and(c).and(b).put(seq![e.val()] + r.val())
}

/// The extras: those of the list, or none where no list stands here.
#[verifier::opaque]
pub open spec fn extras(s: Seq<char>, i: int, far: Failure) -> Step<Seq<Seq<char>>> {
    listed(s, i, far).or_put(Seq::empty(), i)
}

/// `@`, blanks, and a URL.
pub open spec fn direct(s: Seq<char>, i: int, far: Failure) -> Step<SpecView> {
    let a = tok(s, i, '@', far);
    let w = ws(s, i + 1, a.far);
    let u = url(s, w.end(), w.far);
    a.and(w).and(u).put(SpecView::Url(u.val()))
}

/// Version clauses in round brackets.
pub open spec fn bracketed(s: Seq<char>, i: int, far: Failure) -> Step<Seq<VersionSpecView>> {
    let o = tok(s, i, '(', far);
    let w = ws(s, i + 1, o.far);
    let l = clauses(s, w.end(), w.far);
    o.and(w).and(l).and(tok(s, l.end(), ')', l.far)).put(l.val())
}

/// Version clauses, in round brackets or else without.
pub open spec fn versions(s: Seq<char>, i: int, far: Failure) -> Step<SpecView> {
    let b = bracketed(s, i, far);
    let v = b.or(clauses(s, i, b.far));
    v.put(SpecView::Version(v.val()))
}

/// A URL after `@`, or else version clauses, and the blanks after them; or
/// nothing.
#[verifier::opaque]
pub open spec fn constraint(s: Seq<char>, i: int, far: Failure) -> Step<Option<SpecView>> {
    let d = direct(s, i, far);
    let c = d.or(versions(s, i, d.far));
    c.and(ws(s, c.end(), c.far)).put(c.val()).opt(i)
}

/// `;`, blanks, and a marker; or nothing.
#[verifier::opaque]
pub open spec fn condition(s: Seq<char>, i: int, far: Failure) -> Step<Option<MarkerView>> {
    let c = tok(s, i, ';', far);
    let w = ws(s, i + 1, c.far);
    c.and(w).and(either(s, w.end(), MAX_NESTING as nat, w.far)).opt(i)
}

/// A dependency specifier: a name, and then extras, a constraint and a
/// condition as far as they are there, with blanks around them.
#[verifier::opaque]
pub open spec fn dependency(s: Seq<char>, i: int, far: Failure) -> Step<DependencyView> {
    let a = ws(s, i, far);
    let n = name(s, a.end(), a.far);
    let b = ws(s, n.end(), n.far);
    let e = extras(s, b.end(), b.far);
    let c = constraint(s, e.end(), e.far);
    let m = condition(s, c.end(), c.far);
    let t = ws(s, m.end(), m.far);
    a.and(n).and(b).and(e).and(c).and(m).and(t).put(
        DependencyView { name: n.val(), extras: e.val(), spec: c.val(), marker: m.val() },
    )
}

/// A dependency specifier that is the whole of `s`.
pub open spec fn entire(s: Seq<char>) -> Step<DependencyView> {
    let d = dependency(s, 0, Failure::none());
    d.and(eof(s, d.end(), d.far)).put(d.val())
}

} // verus!
