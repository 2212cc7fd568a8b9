//! The grammar of version specifiers.

use vstd::prelude::*;
use crate::class::Class;
use crate::failure::Failure;
use crate::grammar::name::ws;
use crate::model::{Comparator, VersionSpecView};
use crate::step::{accept, lit, run1, tok, Step};

verus! {

/// A comparator. Of two that start alike the longer is tried first.
pub open spec fn comparator(s: Seq<char>, i: int, far: Failure) -> Step<Comparator> {
    let a = lit(s, i, "==="@, far);
    let b = lit(s, i, "<="@, a.far);
    let c = lit(s, i, "!="@, b.far);
    let d = lit(s, i, "=="@, c.far);
    let e = lit(s, i, ">="@, d.far);
    let f = lit(s, i, "~="@, e.far);
    let g = lit(s, i, "<"@, f.far);
    let h = lit(s, i, ">"@, g.far);
    a.put(Comparator::Ae).or(b.put(Comparator::Le)).or(c.put(Comparator::Ne)).or(
        d.put(Comparator::Eq),
    ).or(e.put(Comparator::Ge)).or(f.put(Comparator::Cp)).or(g.put(Comparator::Lt)).or(
        h.put(Comparator::Gt),
    )
}

/// A comparator and a version, with blanks after each.
pub open spec fn clause(s: Seq<char>, i: int, far: Failure) -> Step<VersionSpecView> {
    let c = comparator(s, i, far);
    let w = ws(s, c.end(), c.far);
    let v = run1(s, w.end(), Class::Version, w.far);
    let t = ws(s, v.end(), v.far);
    c.and(w).and(v).and(t).put(
        VersionSpecView { comparator: c.val(), version: s.subrange(w.end(), v.end()) },
    )
}

/// A comma, blanks, and a clause.
pub open spec fn more(s: Seq<char>, i: int, far: Failure) -> Step<VersionSpecView> {
    let c = tok(s, i, ',', far);
    let w = ws(s, i + 1, c.far);
    c.and(w).and(clause(s, w.end(), w.far))
}

/// As many further clauses, each after its comma, as there are.
pub open spec fn rest(s: Seq<char>, i: int, far: Failure) -> Step<Seq<VersionSpecView>>
    decreases s.len() - i,
{
    let m = more(s, i, far);
    if m.ok() && i < m.end() <= s.len() {
        let r = rest(s, m.end(), m.far);
        accept(seq![m.val()] + r.val(), r.end(), r.far)
    } else {
        accept(Seq::empty(), i, m.far)
    }
}

/// One clause or more, with commas between them.
pub open spec fn clauses(s: Seq<char>, i: int, far: Failure) -> Step<Seq<VersionSpecView>> {
    let c = clause(s, i, far);
    let r = rest(s, c.end(), c.far);
    c.and(r).put(seq![c.val()] + r.val())
}

} // verus!
