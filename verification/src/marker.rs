//! Markers.

use vstd::prelude::*;
use crate::class::Class;
use crate::failure::SyntaxError;
use crate::grammar::marker as rule;
use crate::model::{Marker, Operator, Variable};
use crate::name::ws;
use crate::scan::{run, run1, tok, word};
use crate::source::Source;
use crate::step::{all_of, ended, got, lemma_all_of_part, ready, stays};
use crate::version::comparator;

verus! {

/// A string between two quotes `q`, of characters of `class`; what stands
/// between the quotes and the offset after the second.
pub fn quoted(src: &Source, i: usize, q: char, class: Class, far: &mut SyntaxError) -> (r: Option<
    (String, usize),
>)
    requires
        ready(src@, i, *old(far)),
    ensures
        got(rule::quoted(src@, i as int, q, class, old(far)@), r, *final(far)),
        stays(src@, i, ended(r), *final(far)),
        r matches Some((t, _)) ==> all_of(t@, 0, t@.len() as int, class),
{
    let j = tok(src, i, q, far)?;
    let k = run(src, j, class, far);
    let l = tok(src, k, q, far)?;
    proof {
        lemma_all_of_part(src@, j as int, k as int, class);
    }
    Some((src.slice(j, k), l))
}

/// A string in single quotes, or else one in double quotes.
pub fn string(src: &Source, i: usize, far: &mut SyntaxError) -> (r: Option<(Variable, usize)>)
    requires
        ready(src@, i, *old(far)),
    ensures
        got(rule::string(src@, i as int, old(far)@), r, *final(far)),
        stays(src@, i, ended(r), *final(far)),
        r matches Some((v, _)) ==> v@.wf(),
{
    if let Some((t, j)) = quoted(src, i, '\'', Class::InSingle, far) {
        return Some((Variable::String(t), j));
    }
    let (t, j) = quoted(src, i, '"', Class::InDouble, far)?;
    Some((Variable::String(t), j))
}

/// A name of the environment.
pub fn environment(src: &Source, i: usize, far: &mut SyntaxError) -> (r: Option<(Variable, usize)>)
    requires
        ready(src@, i, *old(far)),
    ensures
        got(rule::environment(src@, i as int, old(far)@), r, *final(far)),
        stays(src@, i, ended(r), *final(far)),
        r matches Some((v, _)) ==> v@.wf(),
{
    if let Some(j) = word(src, i, "python_version", far) {
        return Some((Variable::PythonVersion, j));
    }
    if let Some(j) = word(src, i, "python_full_version", far) {
        return Some((Variable::PythonFullVersion, j));
    }
    if let Some(j) = word(src, i, "os_name", far) {
        return Some((Variable::OsName, j));
    }
    if let Some(j) = word(src, i, "sys_platform", far) {
        return Some((Variable::SysPlatform, j));
    }
    if let Some(j) = word(src, i, "platform_release", far) {
        return Some((Variable::PlatformRelease, j));
    }
    if let Some(j) = word(src, i, "platform_system", far) {
        return Some((Variable::PlatformSystem, j));
    }
    if let Some(j) = word(src, i, "platform_version", far) {
        return Some((Variable::PlatformVersion, j));
    }
    if let Some(j) = word(src, i, "platform_machine", far) {
        return Some((Variable::PlatformMachine, j));
    }
    if let Some(j) = word(src, i, "platform_python_implementation", far) {
        return Some((Variable::PlatformPythonImplementation, j));
    }
    if let Some(j) = word(src, i, "implementation_name", far) {
        return Some((Variable::ImplementationName, j));
    }
    if let Some(j) = word(src, i, "implementation_version", far) {
        return Some((Variable::ImplementationVersion, j));
    }
    if let Some(j) = word(src, i, "extra", far) {
        return Some((Variable::Extra, j));
    }
    None
}

/// One side of a comparison.
pub fn variable(src: &Source, i: usize, far: &mut SyntaxError) -> (r: Option<(Variable, usize)>)
    requires
        ready(src@, i, *old(far)),
    ensures
        got(rule::variable(src@, i as int, old(far)@), r, *final(far)),
        stays(src@, i, ended(r), *final(far)),
        r matches Some((v, _)) ==> v@.wf(),
{
    proof {
        reveal(rule::variable);
    }
    if let Some(v) = string(src, i, far) {
        return Some(v);
    }
    environment(src, i, far)
}

/// `not`, at least one blank, and `in`.
pub fn not_in(src: &Source, i: usize, far: &mut SyntaxError) -> (r: Option<(Operator, usize)>)
    requires
        ready(src@, i, *old(far)),
    ensures
        got(rule::not_in(src@, i as int, old(far)@), r, *final(far)),
        stays(src@, i, ended(r), *final(far)),
{
    let j = word(src, i, "not", far)?;
    let j = run1(src, j, Class::Blank, far)?;
    let j = word(src, j, "in", far)?;
    Some((Operator::NotIn, j))
}

/// A comparator, or else `in`, or else `not in`.
pub fn operator(src: &Source, i: usize, far: &mut SyntaxError) -> (r: Option<(Operator, usize)>)
    requires
        ready(src@, i, *old(far)),
    ensures
        got(rule::operator(src@, i as int, old(far)@), r, *final(far)),
        stays(src@, i, ended(r), *final(far)),
{
    proof {
        reveal(rule::operator);
    }
    if let Some((c, j)) = comparator(src, i, far) {
        return Some((Operator::Comparator(c), j));
    }
    if let Some(j) = word(src, i, "in", far) {
        return Some((Operator::In, j));
    }
    not_in(src, i, far)
}

/// A variable, an operator and a variable.
pub fn comparison(src: &Source, i: usize, far: &mut SyntaxError) -> (r: Option<(Marker, usize)>)
    requires
        ready(src@, i, *old(far)),
    ensures
        got(rule::comparison(src@, i as int, old(far)@), r, *final(far)),
        stays(src@, i, ended(r), *final(far)),
        r matches Some((v, _)) ==> v@.wf(),
{
    proof {
        reveal(rule::comparison);
    }
    let (l, j) = variable(src, i, far)?;
    let j = ws(src, j, far);
    let (o, j) = operator(src, j, far)?;
    let j = ws(src, j, far);
    let (r, j) = variable(src, j, far)?;
    Some((Marker::Operator(l, o, r), j))
}

/// A marker in round brackets, with groups nested at most `depth` deep
/// inside it.
pub fn group(src: &Source, i: usize, depth: usize, far: &mut SyntaxError) -> (r: Option<
    (Marker, usize),
>)
    requires
        ready(src@, i, *old(far)),
    ensures
        got(rule::group(src@, i as int, depth as nat, old(far)@), r, *final(far)),
        stays(src@, i, ended(r), *final(far)),
        r matches Some((v, _)) ==> v@.wf(),
    decreases depth, 3nat,
{
    let j = tok(src, i, '(', far)?;
    let j = ws(src, j, far);
    let (m, j) = either(src, j, depth, far)?;
    let j = ws(src, j, far);
    let j = tok(src, j, ')', far)?;
    Some((m, j))
}

/// A comparison, or else, where `depth` is not zero, a group.
pub fn atom(src: &Source, i: usize, depth: usize, far: &mut SyntaxError) -> (r: Option<
    (Marker, usize),
>)
    requires
        ready(src@, i, *old(far)),
    ensures
        got(rule::atom(src@, i as int, depth as nat, old(far)@), r, *final(far)),
        stays(src@, i, ended(r), *final(far)),
        r matches Some((v, _)) ==> v@.wf(),
    decreases depth, 0nat,
{
    if let Some(c) = comparison(src, i, far) {
        return Some(c);
    }
    if depth == 0 {
        return None;
    }
    group(src, i, depth - 1, far)
}

/// An atom, and where `and` and a second atom follow, both together.
pub fn both(src: &Source, i: usize, depth: usize, far: &mut SyntaxError) -> (r: Option<
    (Marker, usize),
>)
    requires
        ready(src@, i, *old(far)),
    ensures
        got(rule::both(src@, i as int, depth as nat, old(far)@), r, *final(far)),
        stays(src@, i, ended(r), *final(far)),
        r matches Some((v, _)) ==> v@.wf(),
    decreases depth, 1nat,
{
    let (l, j) = atom(src, i, depth, far)?;
    let k = ws(src, j, far);
    let k = match word(src, k, "and", far) {
        None => {
            return Some((l, j));
        },
        Some(k) => k,
    };
    let k = ws(src, k, far);
    match atom(src, k, depth, far) {
        None => Some((l, j)),
        Some((r, k)) => Some((Marker::And(Box::new(l), Box::new(r)), k)),
    }
}

/// A conjunction, and where `or` and a second conjunction follow, either
/// of them.
pub fn either(src: &Source, i: usize, depth: usize, far: &mut SyntaxError) -> (r: Option<
    (Marker, usize),
>)
    requires
        ready(src@, i, *old(far)),
    ensures
        got(rule::either(src@, i as int, depth as nat, old(far)@), r, *final(far)),
        stays(src@, i, ended(r), *final(far)),
        r matches Some((v, _)) ==> v@.wf(),
    decreases depth, 2nat,
{
    let (l, j) = both(src, i, depth, far)?;
    let k = ws(src, j, far);
    let k = match word(src, k, "or", far) {
        None => {
            return Some((l, j));
        },
        Some(k) => k,
    };
    let k = ws(src, k, far);
    match both(src, k, depth, far) {
        None => Some((l, j)),
        Some((r, k)) => Some((Marker::Or(Box::new(l), Box::new(r)), k)),
    }
}

} // verus!
