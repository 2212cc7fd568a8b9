//! The rules of a dependency specifier are within bounds.

use vstd::prelude::*;
use crate::failure::Failure;
use crate::grammar::dependency as rule;
use crate::grammar::dependency::MAX_NESTING;
use crate::grammar::name as blank;
use crate::grammar::name::name as name_rule;
use crate::step;
use crate::step::bounded;

verus! {

/// [`crate::grammar::dependency::extra`] is within bounds.
pub proof fn extra(s: Seq<char>, i: int, far: Failure)
    requires
        0 <= i <= s.len(),
    ensures
        bounded(rule::extra(s, i, far), s, i, far),
{
    let n = name_rule(s, i, far);
    super::name::name(s, i, far);
    if n.ok() {
        super::name::ws(s, n.end(), n.far);
    }
}

/// [`crate::grammar::dependency::next_extra`] is within bounds.
pub proof fn next_extra(s: Seq<char>, i: int, far: Failure)
    requires
        0 <= i <= s.len(),
    ensures
        bounded(rule::next_extra(s, i, far), s, i, far),
{
    let c = step::tok(s, i, ',', far);
    if c.ok() {
        let w = blank::ws(s, i + 1, c.far);
        super::name::ws(s, i + 1, c.far);
        extra(s, w.end(), w.far);
    }
}

/// [`crate::grammar::dependency::more_extras`] is within bounds.
pub proof fn more_extras(s: Seq<char>, i: int, far: Failure)
    requires
        0 <= i <= s.len(),
    ensures
        bounded(rule::more_extras(s, i, far), s, i, far),
        rule::more_extras(s, i, far).ok(),
    decreases s.len() - i,
{
    let m = rule::next_extra(s, i, far);
    next_extra(s, i, far);
    if m.ok() && i < m.end() <= s.len() {
        more_extras(s, m.end(), m.far);
    }
}

/// [`crate::grammar::dependency::listed`] is within bounds.
pub proof fn listed(s: Seq<char>, i: int, far: Failure)
    requires
        0 <= i <= s.len(),
    ensures
        bounded(rule::listed(s, i, far), s, i, far),
{
    let o = step::tok(s, i, '[', far);
    if o.ok() {
        let a = blank::ws(s, i + 1, o.far);
        super::name::ws(s, i + 1, o.far);
        let e = rule::extra(s, a.end(), a.far);
        extra(s, a.end(), a.far);
        if e.ok() {
            let r = rule::more_extras(s, e.end(), e.far);
            more_extras(s, e.end(), e.far);
            let c = step::tok(s, r.end(), ']', r.far);
            if c.ok() {
                super::name::ws(s, c.end(), c.far);
            }
        }
    }
}

/// [`crate::grammar::dependency::extras`] is within bounds.
pub proof fn extras(s: Seq<char>, i: int, far: Failure)
    requires
        0 <= i <= s.len(),
    ensures
        bounded(rule::extras(s, i, far), s, i, far),
        rule::extras(s, i, far).ok(),
{
    reveal(rule::extras);
    listed(s, i, far);
}

/// [`crate::grammar::dependency::direct`] is within bounds.
pub proof fn direct(s: Seq<char>, i: int, far: Failure)
    requires
        0 <= i <= s.len(),
    ensures
        bounded(rule::direct(s, i, far), s, i, far),
{
    let a = step::tok(s, i, '@', far);
    if a.ok() {
        let w = blank::ws(s, i + 1, a.far);
        super::name::ws(s, i + 1, a.far);
        super::url::url(s, w.end(), w.far);
    }
}

/// [`crate::grammar::dependency::bracketed`] is within bounds.
pub proof fn bracketed(s: Seq<char>, i: int, far: Failure)
    requires
        0 <= i <= s.len(),
    ensures
        bounded(rule::bracketed(s, i, far), s, i, far),
{
    let o = step::tok(s, i, '(', far);
    if o.ok() {
        let w = blank::ws(s, i + 1, o.far);
        super::name::ws(s, i + 1, o.far);
        super::version::clauses(s, w.end(), w.far);
    }
}

/// [`crate::grammar::dependency::versions`] is within bounds.
pub proof fn versions(s: Seq<char>, i: int, far: Failure)
    requires
        0 <= i <= s.len(),
    ensures
        bounded(rule::versions(s, i, far), s, i, far),
{
    let b = rule::bracketed(s, i, far);
    bracketed(s, i, far);
    super::version::clauses(s, i, b.far);
}

/// [`crate::grammar::dependency::constraint`] is within bounds.
pub proof fn constraint(s: Seq<char>, i: int, far: Failure)
    requires
        0 <= i <= s.len(),
    ensures
        bounded(rule::constraint(s, i, far), s, i, far),
        rule::constraint(s, i, far).ok(),
{
    reveal(rule::constraint);
    let d = rule::direct(s, i, far);
    direct(s, i, far);
    versions(s, i, d.far);
    let c = d.or(rule::versions(s, i, d.far));
    if c.ok() {
        super::name::ws(s, c.end(), c.far);
    }
}

/// [`crate::grammar::dependency::condition`] is within bounds.
pub proof fn condition(s: Seq<char>, i: int, far: Failure)
    requires
        0 <= i <= s.len(),
    ensures
        bounded(rule::condition(s, i, far), s, i, far),
        rule::condition(s, i, far).ok(),
{
    reveal(rule::condition);
    let c = step::tok(s, i, ';', far);
    if c.ok() {
        let w = blank::ws(s, i + 1, c.far);
        super::name::ws(s, i + 1, c.far);
        super::marker::either(s, w.end(), MAX_NESTING as nat, w.far);
    }
}

/// [`crate::grammar::dependency::dependency`] is within bounds.
pub proof fn dependency(s: Seq<char>, i: int, far: Failure)
    requires
        0 <= i <= s.len(),
    ensures
        bounded(rule::dependency(s, i, far), s, i, far),
{
    reveal(rule::dependency);
    let a = blank::ws(s, i, far);
    super::name::ws(s, i, far);
    let n = name_rule(s, a.end(), a.far);
    super::name::name(s, a.end(), a.far);
    if n.ok() {
        let b = blank::ws(s, n.end(), n.far);
        super::name::ws(s, n.end(), n.far);
        let e = rule::extras(s, b.end(), b.far);
        extras(s, b.end(), b.far);
        let c = rule::constraint(s, e.end(), e.far);
        constraint(s, e.end(), e.far);
        let m = rule::condition(s, c.end(), c.far);
        condition(s, c.end(), c.far);
        super::name::ws(s, m.end(), m.far);
    }
}

} // verus!
