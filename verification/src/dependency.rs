//! Dependency specifiers.

use vstd::prelude::*;
use crate::failure::{Failure, SyntaxError};
use crate::grammar::dependency as rule;
use crate::grammar::dependency::MAX_NESTING;
use crate::marker::either;
use crate::model::{are_clauses, are_names, is_name, views, Dependency, Marker, Spec, VersionSpec};
use crate::name::{name, ws};
use crate::scan::{eof, tok};
use crate::source::Source;
use crate::step::{ended, got, ran, ready, stays};
use crate::url::url;
use crate::version::clauses;

verus! {

/// A name and the blanks after it.
pub fn extra(src: &Source, i: usize, far: &mut SyntaxError) -> (r: Option<(String, usize)>)
    requires
        ready(src@, i, *old(far)),
    ensures
        got(rule::extra(src@, i as int, old(far)@), r, *final(far)),
        stays(src@, i, ended(r), *final(far)),
        r matches Some((t, _)) ==> is_name(t@),
{
    let (n, j) = name(src, i, far)?;
    let j = ws(src, j, far);
    Some((n, j))
}

/// A comma, blanks, and an extra.
pub fn next_extra(src: &Source, i: usize, far: &mut SyntaxError) -> (r: Option<(String, usize)>)
    requires
        ready(src@, i, *old(far)),
    ensures
        got(rule::next_extra(src@, i as int, old(far)@), r, *final(far)),
        stays(src@, i, ended(r), *final(far)),
        r matches Some((t, _)) ==> is_name(t@),
        r matches Some((_, j)) ==> i < j,
{
    let j = tok(src, i, ',', far)?;
    let j = ws(src, j, far);
    extra(src, j, far)
}

/// The list of extras in its square brackets; the extras in their order
/// and the offset after the blanks that follow the list.
pub fn listed(src: &Source, i: usize, far: &mut SyntaxError) -> (r: Option<(Vec<String>, usize)>)
    requires
        ready(src@, i, *old(far)),
    ensures
        ran(rule::listed(src@, i as int, old(far)@), ended(r), *final(far)),
        stays(src@, i, ended(r), *final(far)),
        r matches Some((v, _)) ==> views(v@) == rule::listed(src@, i as int, old(far)@).val(),
        r matches Some((v, _)) ==> are_names(views(v@)),
{
    let j = tok(src, i, '[', far)?;
    let j = ws(src, j, far);
    let (first, j) = extra(src, j, far)?;
    let ghost start = j;
    let ghost mid = far@;
    let mut out: Vec<String> = Vec::new();
    out.push(first);
    let mut j = j;
    assert(views(out@) =~= seq![first@]);
    loop
        invariant_except_break
            rule::more_extras(src@, j as int, far@).end() == rule::more_extras(
                src@,
                start as int,
                mid,
            ).end(),
            rule::more_extras(src@, j as int, far@).far == rule::more_extras(
                src@,
                start as int,
                mid,
            ).far,
            seq![first@] + rule::more_extras(src@, start as int, mid).val() == views(out@)
                + rule::more_extras(src@, j as int, far@).val(),
        invariant
            far.wf(),
            far.offset <= src@.len(),
            i <= j <= src@.len(),
            are_names(views(out@)),
        ensures
            rule::more_extras(src@, start as int, mid).end() == j,
            rule::more_extras(src@, start as int, mid).far == far@,
            seq![first@] + rule::more_extras(src@, start as int, mid).val() == views(out@),
        decreases src@.len() - j,
    {
        let ghost before = out@;
        match next_extra(src, j, far) {
            None => {
                assert(views(out@) + Seq::empty() =~= views(out@));
                break ;
            },
            Some((next, k)) => {
                out.push(next);
                assert(views(out@) =~= views(before).push(next@));
                assert(views(before) + (seq![next@] + rule::more_extras(
                    src@,
                    k as int,
                    far@,
                ).val()) =~= views(out@) + rule::more_extras(src@, k as int, far@).val());
                j = k;
            },
        }
    }
    let j = tok(src, j, ']', far)?;
    let j = ws(src, j, far);
    Some((out, j))
}

/// The extras: those of the list, or none where no list stands here.
pub fn extras(src: &Source, i: usize, far: &mut SyntaxError) -> (r: (Vec<String>, usize))
    requires
        ready(src@, i, *old(far)),
    ensures
        ran(rule::extras(src@, i as int, old(far)@), Some(r.1), *final(far)),
        stays(src@, i, Some(r.1), *final(far)),
        views(r.0@) == rule::extras(src@, i as int, old(far)@).val(),
        are_names(views(r.0@)),
{
    proof {
        reveal(rule::extras);
    }
    match listed(src, i, far) {
        Some(r) => r,
        None => {
            let none: Vec<String> = Vec::new();
            assert(views(none@) =~= Seq::empty());
            (none, i)
        },
    }
}

/// `@`, blanks, and a URL.
pub fn direct(src: &Source, i: usize, far: &mut SyntaxError) -> (r: Option<(Spec, usize)>)
    requires
        ready(src@, i, *old(far)),
    ensures
        got(rule::direct(src@, i as int, old(far)@), r, *final(far)),
        stays(src@, i, ended(r), *final(far)),
        r matches Some((c, _)) ==> c@.wf(),
{
    let j = tok(src, i, '@', far)?;
    let j = ws(src, j, far);
    let (u, j) = url(src, j, far)?;
    Some((Spec::Url(u), j))
}

/// Version clauses in round brackets.
pub fn bracketed(src: &Source, i: usize, far: &mut SyntaxError) -> (r: Option<
    (Vec<VersionSpec>, usize),
>)
    requires
        ready(src@, i, *old(far)),
    ensures
        ran(rule::bracketed(src@, i as int, old(far)@), ended(r), *final(far)),
        stays(src@, i, ended(r), *final(far)),
        r matches Some((v, _)) ==> views(v@) == rule::bracketed(src@, i as int, old(far)@).val(),
        r matches Some((v, _)) ==> are_clauses(views(v@)),
{
    let j = tok(src, i, '(', far)?;
    let j = ws(src, j, far);
    let (v, j) = clauses(src, j, far)?;
    let j = tok(src, j, ')', far)?;
    Some((v, j))
}

/// Version clauses, in round brackets or else without.
pub fn versions(src: &Source, i: usize, far: &mut SyntaxError) -> (r: Option<(Spec, usize)>)
    requires
        ready(src@, i, *old(far)),
    ensures
        got(rule::versions(src@, i as int, old(far)@), r, *final(far)),
        stays(src@, i, ended(r), *final(far)),
        r matches Some((c, _)) ==> c@.wf(),
{
    if let Some((v, j)) = bracketed(src, i, far) {
        return Some((Spec::Version(v), j));
    }
    let (v, j) = clauses(src, i, far)?;
    Some((Spec::Version(v), j))
}

/// A URL after `@`, or else version clauses, and the blanks after them; or
/// nothing.
pub fn constraint(src: &Source, i: usize, far: &mut SyntaxError) -> (r: (Option<Spec>, usize))
    requires
        ready(src@, i, *old(far)),
    ensures
        ran(rule::constraint(src@, i as int, old(far)@), Some(r.1), *final(far)),
        stays(src@, i, Some(r.1), *final(far)),
        match r.0 {
            Some(c) => rule::constraint(src@, i as int, old(far)@).val() == Some(c@) && c@.wf(),
            None => rule::constraint(src@, i as int, old(far)@).val() is None,
        },
{
    proof {
        reveal(rule::constraint);
    }
    let found = match direct(src, i, far) {
        Some(f) => Some(f),
        None => versions(src, i, far),
    };
    match found {
        Some((c, j)) => {
            let j = ws(src, j, far);
            (Some(c), j)
        },
        None => (None, i),
    }
}

/// `;`, blanks, and a marker; or nothing.
pub fn condition(src: &Source, i: usize, far: &mut SyntaxError) -> (r: (Option<Marker>, usize))
    requires
        ready(src@, i, *old(far)),
    ensures
        ran(rule::condition(src@, i as int, old(far)@), Some(r.1), *final(far)),
        stays(src@, i, Some(r.1), *final(far)),
        match r.0 {
            Some(m) => rule::condition(src@, i as int, old(far)@).val() == Some(m@) && m@.wf(),
            None => rule::condition(src@, i as int, old(far)@).val() is None,
        },
{
    proof {
        reveal(rule::condition);
    }
    let j = match tok(src, i, ';', far) {
        None => {
            return (None, i);
        },
        Some(j) => j,
    };
    let j = ws(src, j, far);
    match either(src, j, MAX_NESTING, far) {
        None => (None, i),
        Some((m, j)) => (Some(m), j),
    }
}

/// A dependency specifier; what it says and the offset after it.
pub fn dependency(src: &Source, i: usize, far: &mut SyntaxError) -> (r: Option<(Dependency, usize)>)
    requires
        ready(src@, i, *old(far)),
    ensures
        got(rule::dependency(src@, i as int, old(far)@), r, *final(far)),
        stays(src@, i, ended(r), *final(far)),
        r matches Some((d, _)) ==> d@.wf(),
{
    proof {
        reveal(rule::dependency);
    }
    let j = ws(src, i, far);
    let (name, j) = name(src, j, far)?;
    let j = ws(src, j, far);
    let (extras, j) = extras(src, j, far);
    let (spec, j) = constraint(src, j, far);
    let (marker, j) = condition(src, j, far);
    let j = ws(src, j, far);
    Some((Dependency { name, extras, spec, marker }, j))
}

/// Takes a dependency specifier from the start of `text`, as far as it
/// goes, and says how many characters it took. What follows them in `text`
/// is not looked at.
///
/// It fails where no dependency specifier starts `text`, with the furthest
/// failure of the attempt for its one error.
pub fn parser(text: &str) -> (r: Result<(Dependency, usize), Vec<SyntaxError>>)
    ensures
        match r {
            Ok((d, n)) => {
                let g = rule::dependency(text@, 0, Failure::none());
                g.ok() && d@ == g.val() && d@.wf() && n == g.end() && n <= text@.len()
            },
            Err(e) => {
                let g = rule::dependency(text@, 0, Failure::none());
                !g.ok() && e@.len() == 1 && e[0].wf() && e[0]@ == g.far && e[0].offset
                    <= text@.len()
            },
        },
{
    let src = Source::new(text);
    let mut far = SyntaxError::new();
    match dependency(&src, 0, &mut far) {
        Some(found) => Ok(found),
        None => Err(vec![far]),
    }
}

/// Parses `text` as a dependency specifier.
///
/// It fails where `text` is none from its first character to its last:
/// what follows a dependency specifier in `text` makes the whole of it
/// fail. The one error is the furthest failure of the attempt.
pub fn parse(text: &str) -> (r: Result<Dependency, Vec<SyntaxError>>)
    ensures
        match r {
            Ok(d) => rule::entire(text@).ok() && d@ == rule::entire(text@).val() && d@.wf()
                && rule::dependency(text@, 0, Failure::none()).end() == text@.len(),
            Err(e) => !rule::entire(text@).ok() && e@.len() == 1 && e[0].wf() && e[0]@
                == rule::entire(text@).far && e[0].offset <= text@.len(),
        },
{
    let src = Source::new(text);
    let mut far = SyntaxError::new();
    match dependency(&src, 0, &mut far) {
        Some((d, j)) => match eof(&src, j, &mut far) {
            Some(_) => Ok(d),
            None => Err(vec![far]),
        },
        None => Err(vec![far]),
    }
}

} // verus!
