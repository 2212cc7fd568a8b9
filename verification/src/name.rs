//! Blanks and names.

use vstd::prelude::*;
use crate::class::Class;
use crate::failure::SyntaxError;
use crate::grammar::name as rule;
use crate::model::is_name;
use crate::scan::{one, run};
use crate::source::Source;
use crate::step::{ended, got, ran, ready, stays};

verus! {

/// Skips spaces and tabs.
pub fn ws(src: &Source, i: usize, far: &mut SyntaxError) -> (j: usize)
    requires
        ready(src@, i, *old(far)),
    ensures
        ran(rule::ws(src@, i as int, old(far)@), Some(j), *final(far)),
        stays(src@, i, Some(j), *final(far)),
{
    run(src, i, Class::Blank, far)
}

/// A letter or digit, with one of `-`, `_` and `.` before it or without.
pub fn link(src: &Source, i: usize, far: &mut SyntaxError) -> (r: Option<usize>)
    requires
        ready(src@, i, *old(far)),
    ensures
        ran(rule::link(src@, i as int, old(far)@), r, *final(far)),
        stays(src@, i, r, *final(far)),
        r matches Some(j) ==> i < j,
{
    let j = match one(src, i, Class::Joiner, far) {
        None => i,
        Some(j) => j,
    };
    one(src, j, Class::Alnum, far)
}

/// As many links as there are.
pub fn links(src: &Source, i: usize, far: &mut SyntaxError) -> (j: usize)
    requires
        ready(src@, i, *old(far)),
    ensures
        ran(rule::links(src@, i as int, old(far)@), Some(j), *final(far)),
        stays(src@, i, Some(j), *final(far)),
{
    let mut j = i;
    loop
        invariant
            far.wf(),
            stays(src@, i, Some(j), *far),
            rule::links(src@, j as int, far@) == rule::links(src@, i as int, old(far)@),
        decreases src@.len() - j,
    {
        match link(src, j, far) {
            None => {
                return j;
            },
            Some(k) => {
                j = k;
            },
        }
    }
}

/// A name; its text and the offset after it.
pub fn name(src: &Source, i: usize, far: &mut SyntaxError) -> (r: Option<(String, usize)>)
    requires
        ready(src@, i, *old(far)),
    ensures
        got(rule::name(src@, i as int, old(far)@), r, *final(far)),
        stays(src@, i, ended(r), *final(far)),
        r matches Some((t, _)) ==> is_name(t@),
{
    proof {
        if rule::name(src@, i as int, old(far)@).ok() {
            rule::lemma_name(src@, i as int, old(far)@);
        }
    }
    let j = one(src, i, Class::Alnum, far)?;
    let j = links(src, j, far);
    Some((src.slice(i, j), j))
}

} // verus!
