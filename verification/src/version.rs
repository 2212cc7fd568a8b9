//! Version specifiers.

use vstd::prelude::*;
use crate::class::Class;
use crate::failure::SyntaxError;
use crate::grammar::version as rule;
use crate::model::{are_clauses, views, Comparator, VersionSpec};
use crate::name::ws;
use crate::scan::{run1, tok, word};
use crate::source::Source;
use crate::step::{ended, got, lemma_all_of_part, ran, ready, stays};

verus! {

/// A comparator; which one it is and the offset after it.
pub fn comparator(src: &Source, i: usize, far: &mut SyntaxError) -> (r: Option<
    (Comparator, usize),
>)
    requires
        ready(src@, i, *old(far)),
    ensures
        got(rule::comparator(src@, i as int, old(far)@), r, *final(far)),
        stays(src@, i, ended(r), *final(far)),
{
    if let Some(j) = word(src, i, "===", far) {
        return Some((Comparator::Ae, j));
    }
    if let Some(j) = word(src, i, "<=", far) {
        return Some((Comparator::Le, j));
    }
    if let Some(j) = word(src, i, "!=", far) {
        return Some((Comparator::Ne, j));
    }
    if let Some(j) = word(src, i, "==", far) {
        return Some((Comparator::Eq, j));
    }
    if let Some(j) = word(src, i, ">=", far) {
        return Some((Comparator::Ge, j));
    }
    if let Some(j) = word(src, i, "~=", far) {
        return Some((Comparator::Cp, j));
    }
    if let Some(j) = word(src, i, "<", far) {
        return Some((Comparator::Lt, j));
    }
    if let Some(j) = word(src, i, ">", far) {
        return Some((Comparator::Gt, j));
    }
    None
}

/// A comparator and a version, with blanks after each.
pub fn clause(src: &Source, i: usize, far: &mut SyntaxError) -> (r: Option<(VersionSpec, usize)>)
    requires
        ready(src@, i, *old(far)),
    ensures
        got(rule::clause(src@, i as int, old(far)@), r, *final(far)),
        stays(src@, i, ended(r), *final(far)),
        r matches Some((v, _)) ==> v@.wf(),
{
    let (comparator, j) = comparator(src, i, far)?;
    let j = ws(src, j, far);
    let k = run1(src, j, Class::Version, far)?;
    proof {
        lemma_all_of_part(src@, j as int, k as int, Class::Version);
    }
    let version = src.slice(j, k);
    let k = ws(src, k, far);
    Some((VersionSpec { comparator, version }, k))
}

/// A comma, blanks, and a clause.
pub fn more(src: &Source, i: usize, far: &mut SyntaxError) -> (r: Option<(VersionSpec, usize)>)
    requires
        ready(src@, i, *old(far)),
    ensures
        got(rule::more(src@, i as int, old(far)@), r, *final(far)),
        stays(src@, i, ended(r), *final(far)),
        r matches Some((v, _)) ==> v@.wf(),
        r matches Some((_, j)) ==> i < j,
{
    let j = tok(src, i, ',', far)?;
    let j = ws(src, j, far);
    clause(src, j, far)
}

/// One clause or more, with commas between them; the clauses in their
/// order and the offset after them.
pub fn clauses(src: &Source, i: usize, far: &mut SyntaxError) -> (r: Option<
    (Vec<VersionSpec>, usize),
>)
    requires
        ready(src@, i, *old(far)),
    ensures
        ran(rule::clauses(src@, i as int, old(far)@), ended(r), *final(far)),
        stays(src@, i, ended(r), *final(far)),
        r matches Some((v, _)) ==> views(v@) == rule::clauses(src@, i as int, old(far)@).val(),
        r matches Some((v, _)) ==> are_clauses(views(v@)),
{
    let ghost goal = rule::clauses(src@, i as int, old(far)@);
    let (first, j) = clause(src, i, far)?;
    let mut out: Vec<VersionSpec> = Vec::new();
    out.push(first);
    let mut j = j;
    assert(views(out@) =~= seq![first@]);
    loop
        invariant
            far.wf(),
            far.offset <= src@.len(),
            i <= j <= src@.len(),
            goal.ok(),
            goal.end() == rule::rest(src@, j as int, far@).end(),
            goal.far == rule::rest(src@, j as int, far@).far,
            goal.val() == views(out@) + rule::rest(src@, j as int, far@).val(),
            goal == rule::clauses(src@, i as int, old(far)@),
            are_clauses(views(out@)),
        decreases src@.len() - j,
    {
        let ghost before = out@;
        match more(src, j, far) {
            None => {
                assert(views(out@) + Seq::empty() =~= views(out@));
                return Some((out, j));
            },
            Some((next, k)) => {
                out.push(next);
                assert(views(out@) =~= views(before).push(next@));
                assert(views(before) + (seq![next@] + rule::rest(src@, k as int, far@).val())
                    =~= views(out@) + rule::rest(src@, k as int, far@).val());
                j = k;
            },
        }
    }
}

} // verus!
