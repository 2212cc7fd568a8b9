//! The rules of blanks and names are within bounds.

use vstd::prelude::*;
use crate::class::Class;
use crate::failure::Failure;
use crate::grammar::name as rule;
use crate::step;
use crate::step::bounded;

verus! {

/// [`crate::grammar::name::ws`] is within bounds.
pub proof fn ws(s: Seq<char>, i: int, far: Failure)
    requires
        0 <= i <= s.len(),
    ensures
        bounded(rule::ws(s, i, far), s, i, far),
        rule::ws(s, i, far).ok(),
{
    super::run(s, i, Class::Blank, far);
}

/// [`crate::grammar::name::link`] is within bounds.
pub proof fn link(s: Seq<char>, i: int, far: Failure)
    requires
        0 <= i <= s.len(),
    ensures
        bounded(rule::link(s, i, far), s, i, far),
{
}

/// [`crate::grammar::name::links`] is within bounds.
pub proof fn links(s: Seq<char>, i: int, far: Failure)
    requires
        0 <= i <= s.len(),
    ensures
        bounded(rule::links(s, i, far), s, i, far),
        rule::links(s, i, far).ok(),
    decreases s.len() - i,
{
    let l = rule::link(s, i, far);
    link(s, i, far);
    if l.ok() && i < l.end() <= s.len() {
        links(s, l.end(), l.far);
    }
}

/// [`crate::grammar::name::name`] is within bounds.
pub proof fn name(s: Seq<char>, i: int, far: Failure)
    requires
        0 <= i <= s.len(),
    ensures
        bounded(rule::name(s, i, far), s, i, far),
{
    let a = step::one(s, i, Class::Alnum, far);
    if a.ok() {
        links(s, i + 1, a.far);
    }
}

} // verus!
