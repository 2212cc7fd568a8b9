//! Every step of the grammar is within bounds: it ends within the input and
//! not before it started, and the furthest failure neither goes back nor
//! leaves the input. There is one lemma for each rule of the grammar, under
//! the name of the rule.

use vstd::prelude::*;
use crate::class::Class;
use crate::failure::Failure;
use crate::step;
use crate::step::{bounded, lemma_skip};

pub mod dependency;
pub mod marker;
pub mod name;
pub mod url;
pub mod version;

verus! {

/// A run is within bounds.
pub proof fn run(s: Seq<char>, i: int, class: Class, far: Failure)
    requires
        0 <= i <= s.len(),
    ensures
        bounded(step::run(s, i, class, far), s, i, far),
{
    lemma_skip(s, i, class);
}

/// A run of at least one character is within bounds.
pub proof fn run1(s: Seq<char>, i: int, class: Class, far: Failure)
    requires
        0 <= i <= s.len(),
    ensures
        bounded(step::run1(s, i, class, far), s, i, far),
{
    let a = step::one(s, i, class, far);
    if a.ok() {
        run(s, i + 1, class, a.far);
    }
}

/// As far as `w` agrees with the input, it lies within the input.
pub proof fn agree(s: Seq<char>, i: int, w: Seq<char>, k: int)
    requires
        0 <= i,
        0 <= k <= w.len(),
        i + k <= s.len(),
    ensures
        k <= step::agree(s, i, w, k) <= w.len(),
        i + step::agree(s, i, w, k) <= s.len(),
    decreases w.len() - k,
{
    if k < w.len() && i + k < s.len() && s[i + k] == w[k] {
        agree(s, i, w, k + 1);
    }
}

/// A literal is within bounds.
pub proof fn lit(s: Seq<char>, i: int, w: Seq<char>, far: Failure)
    requires
        0 <= i <= s.len(),
    ensures
        bounded(step::lit(s, i, w, far), s, i, far),
{
    agree(s, i, w, 0);
}

} // verus!
