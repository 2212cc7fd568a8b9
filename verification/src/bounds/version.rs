//! The rules of version specifiers are within bounds.

use vstd::prelude::*;
use crate::class::Class;
use crate::failure::Failure;
use crate::grammar::name as blank;
use crate::grammar::version as rule;
use crate::step;
use crate::step::bounded;

verus! {

/// [`crate::grammar::version::comparator`] is within bounds.
pub proof fn comparator(s: Seq<char>, i: int, far: Failure)
    requires
        0 <= i <= s.len(),
    ensures
        bounded(rule::comparator(s, i, far), s, i, far),
{
    let a = step::lit(s, i, "==="@, far);
    super::lit(s, i, "==="@, far);
    let b = step::lit(s, i, "<="@, a.far);
    super::lit(s, i, "<="@, a.far);
    let c = step::lit(s, i, "!="@, b.far);
    super::lit(s, i, "!="@, b.far);
    let d = step::lit(s, i, "=="@, c.far);
    super::lit(s, i, "=="@, c.far);
    let e = step::lit(s, i, ">="@, d.far);
    super::lit(s, i, ">="@, d.far);
    let f = step::lit(s, i, "~="@, e.far);
    super::lit(s, i, "~="@, e.far);
    let g = step::lit(s, i, "<"@, f.far);
    super::lit(s, i, "<"@, f.far);
    super::lit(s, i, ">"@, g.far);
}

/// [`crate::grammar::version::clause`] is within bounds.
pub proof fn clause(s: Seq<char>, i: int, far: Failure)
    requires
        0 <= i <= s.len(),
    ensures
        bounded(rule::clause(s, i, far), s, i, far),
{
    let c = rule::comparator(s, i, far);
    comparator(s, i, far);
    if c.ok() {
        let w = blank::ws(s, c.end(), c.far);
        super::name::ws(s, c.end(), c.far);
        let v = step::run1(s, w.end(), Class::Version, w.far);
        super::run1(s, w.end(), Class::Version, w.far);
        if v.ok() {
            super::name::ws(s, v.end(), v.far);
        }
    }
}

/// [`crate::grammar::version::more`] is within bounds.
pub proof fn more(s: Seq<char>, i: int, far: Failure)
    requires
        0 <= i <= s.len(),
    ensures
        bounded(rule::more(s, i, far), s, i, far),
{
    let c = step::tok(s, i, ',', far);
    if c.ok() {
        let w = blank::ws(s, i + 1, c.far);
        super::name::ws(s, i + 1, c.far);
        clause(s, w.end(), w.far);
    }
}

/// [`crate::grammar::version::rest`] is within bounds.
pub proof fn rest(s: Seq<char>, i: int, far: Failure)
    requires
        0 <= i <= s.len(),
    ensures
        bounded(rule::rest(s, i, far), s, i, far),
        rule::rest(s, i, far).ok(),
    decreases s.len() - i,
{
    let m = rule::more(s, i, far);
    more(s, i, far);
    if m.ok() && i < m.end() <= s.len() {
        rest(s, m.end(), m.far);
    }
}

/// [`crate::grammar::version::clauses`] is within bounds.
pub proof fn clauses(s: Seq<char>, i: int, far: Failure)
    requires
        0 <= i <= s.len(),
    ensures
        bounded(rule::clauses(s, i, far), s, i, far),
{
    let c = rule::clause(s, i, far);
    clause(s, i, far);
    if c.ok() {
        rest(s, c.end(), c.far);
    }
}

} // verus!
