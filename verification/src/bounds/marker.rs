//! The rules of markers are within bounds.

use vstd::prelude::*;
use crate::class::Class;
use crate::failure::Failure;
use crate::grammar::marker as rule;
use crate::grammar::name as blank;
use crate::grammar::version::comparator as comparator_rule;
use crate::step;
use crate::step::bounded;

verus! {

/// [`crate::grammar::marker::quoted`] is within bounds.
pub proof fn quoted(s: Seq<char>, i: int, q: char, class: Class, far: Failure)
    requires
        0 <= i <= s.len(),
    ensures
        bounded(rule::quoted(s, i, q, class, far), s, i, far),
{
    let o = step::tok(s, i, q, far);
    if o.ok() {
        super::run(s, i + 1, class, o.far);
    }
}

/// [`crate::grammar::marker::string`] is within bounds.
pub proof fn string(s: Seq<char>, i: int, far: Failure)
    requires
        0 <= i <= s.len(),
    ensures
        bounded(rule::string(s, i, far), s, i, far),
{
    let a = rule::quoted(s, i, '\'', Class::InSingle, far);
    quoted(s, i, '\'', Class::InSingle, far);
    quoted(s, i, '"', Class::InDouble, a.far);
}

/// [`crate::grammar::marker::environment`] is within bounds.
pub proof fn environment(s: Seq<char>, i: int, far: Failure)
    requires
        0 <= i <= s.len(),
    ensures
        bounded(rule::environment(s, i, far), s, i, far),
{
    let a = step::lit(s, i, "python_version"@, far);
    super::lit(s, i, "python_version"@, far);
    let b = step::lit(s, i, "python_full_version"@, a.far);
    super::lit(s, i, "python_full_version"@, a.far);
    let c = step::lit(s, i, "os_name"@, b.far);
    super::lit(s, i, "os_name"@, b.far);
    let d = step::lit(s, i, "sys_platform"@, c.far);
    super::lit(s, i, "sys_platform"@, c.far);
    let e = step::lit(s, i, "platform_release"@, d.far);
    super::lit(s, i, "platform_release"@, d.far);
    let f = step::lit(s, i, "platform_system"@, e.far);
    super::lit(s, i, "platform_system"@, e.far);
    let g = step::lit(s, i, "platform_version"@, f.far);
    super::lit(s, i, "platform_version"@, f.far);
    let h = step::lit(s, i, "platform_machine"@, g.far);
    super::lit(s, i, "platform_machine"@, g.far);
    let k = step::lit(s, i, "platform_python_implementation"@, h.far);
    super::lit(s, i, "platform_python_implementation"@, h.far);
    let l = step::lit(s, i, "implementation_name"@, k.far);
    super::lit(s, i, "implementation_name"@, k.far);
    let m = step::lit(s, i, "implementation_version"@, l.far);
    super::lit(s, i, "implementation_version"@, l.far);
    super::lit(s, i, "extra"@, m.far);
}

/// [`crate::grammar::marker::variable`] is within bounds.
pub proof fn variable(s: Seq<char>, i: int, far: Failure)
    requires
        0 <= i <= s.len(),
    ensures
        bounded(rule::variable(s, i, far), s, i, far),
{
    reveal(rule::variable);
    let q = rule::string(s, i, far);
    string(s, i, far);
    environment(s, i, q.far);
}

/// [`crate::grammar::marker::not_in`] is within bounds.
pub proof fn not_in(s: Seq<char>, i: int, far: Failure)
    requires
        0 <= i <= s.len(),
    ensures
        bounded(rule::not_in(s, i, far), s, i, far),
{
    let n = step::lit(s, i, "not"@, far);
    super::lit(s, i, "not"@, far);
    if n.ok() {
        let w = step::run1(s, n.end(), Class::Blank, n.far);
        super::run1(s, n.end(), Class::Blank, n.far);
        if w.ok() {
            super::lit(s, w.end(), "in"@, w.far);
        }
    }
}

/// [`crate::grammar::marker::operator`] is within bounds.
pub proof fn operator(s: Seq<char>, i: int, far: Failure)
    requires
        0 <= i <= s.len(),
    ensures
        bounded(rule::operator(s, i, far), s, i, far),
{
    reveal(rule::operator);
    let c = comparator_rule(s, i, far);
    super::version::comparator(s, i, far);
    let n = step::lit(s, i, "in"@, c.far);
    super::lit(s, i, "in"@, c.far);
    not_in(s, i, n.far);
}

/// [`crate::grammar::marker::comparison`] is within bounds.
pub proof fn comparison(s: Seq<char>, i: int, far: Failure)
    requires
        0 <= i <= s.len(),
    ensures
        bounded(rule::comparison(s, i, far), s, i, far),
{
    reveal(rule::comparison);
    let l = rule::variable(s, i, far);
    variable(s, i, far);
    if l.ok() {
        let a = blank::ws(s, l.end(), l.far);
        super::name::ws(s, l.end(), l.far);
        let o = rule::operator(s, a.end(), a.far);
        operator(s, a.end(), a.far);
        if o.ok() {
            let b = blank::ws(s, o.end(), o.far);
            super::name::ws(s, o.end(), o.far);
            variable(s, b.end(), b.far);
        }
    }
}

/// [`crate::grammar::marker::group`] is within bounds.
pub proof fn group(s: Seq<char>, i: int, depth: nat, far: Failure)
    requires
        0 <= i <= s.len(),
    ensures
        bounded(rule::group(s, i, depth, far), s, i, far),
    decreases depth, 3nat,
{
    let o = step::tok(s, i, '(', far);
    if o.ok() {
        let a = blank::ws(s, i + 1, o.far);
        super::name::ws(s, i + 1, o.far);
        let m = rule::either(s, a.end(), depth, a.far);
        either(s, a.end(), depth, a.far);
        if m.ok() {
            super::name::ws(s, m.end(), m.far);
        }
    }
}

/// [`crate::grammar::marker::atom`] is within bounds.
pub proof fn atom(s: Seq<char>, i: int, depth: nat, far: Failure)
    requires
        0 <= i <= s.len(),
    ensures
        bounded(rule::atom(s, i, depth, far), s, i, far),
    decreases depth, 0nat,
{
    let c = rule::comparison(s, i, far);
    comparison(s, i, far);
    if depth > 0 {
        group(s, i, (depth - 1) as nat, c.far);
    }
}

/// [`crate::grammar::marker::both`] is within bounds.
pub proof fn both(s: Seq<char>, i: int, depth: nat, far: Failure)
    requires
        0 <= i <= s.len(),
    ensures
        bounded(rule::both(s, i, depth, far), s, i, far),
    decreases depth, 1nat,
{
    let l = rule::atom(s, i, depth, far);
    atom(s, i, depth, far);
    if l.ok() {
        let a = blank::ws(s, l.end(), l.far);
        super::name::ws(s, l.end(), l.far);
        let k = step::lit(s, a.end(), "and"@, a.far);
        super::lit(s, a.end(), "and"@, a.far);
        if k.ok() {
            let b = blank::ws(s, k.end(), k.far);
            super::name::ws(s, k.end(), k.far);
            atom(s, b.end(), depth, b.far);
        }
    }
}

/// [`crate::grammar::marker::either`] is within bounds.
pub proof fn either(s: Seq<char>, i: int, depth: nat, far: Failure)
    requires
        0 <= i <= s.len(),
    ensures
        bounded(rule::either(s, i, depth, far), s, i, far),
    decreases depth, 2nat,
{
    let l = rule::both(s, i, depth, far);
    both(s, i, depth, far);
    if l.ok() {
        let a = blank::ws(s, l.end(), l.far);
        super::name::ws(s, l.end(), l.far);
        let k = step::lit(s, a.end(), "or"@, a.far);
        super::lit(s, a.end(), "or"@, a.far);
        if k.ok() {
            let b = blank::ws(s, k.end(), k.far);
            super::name::ws(s, k.end(), k.far);
            both(s, b.end(), depth, b.far);
        }
    }
}

} // verus!
