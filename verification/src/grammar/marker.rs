//! The grammar of markers.
//!
//! `or` binds loosest and `and` tighter; a comparison or a group in round
//! brackets binds tightest. Each connective joins two operands and no more:
//! a third needs brackets. Groups may be nested `depth` deep.

use vstd::prelude::*;
use crate::class::Class;
use crate::failure::Failure;
use crate::grammar::name::ws;
use crate::grammar::version::comparator;
use crate::model::{MarkerView, Operator, VariableView};
use crate::step::{lit, run, run1, tok, Step};

verus! {

/// A string between two quotes `q`, of characters of `class`. Its value is
/// what stands between the quotes.
pub open spec fn quoted(s: Seq<char>, i: int, q: char, class: Class, far: Failure) -> Step<
    Seq<char>,
> {
    let o = tok(s, i, q, far);
    let r = run(s, i + 1, class, o.far);
    let c = tok(s, r.end(), q, r.far);
    o.and(r).and(c).put(s.subrange(i + 1, r.end()))
}

/// A string in single quotes, or else one in double quotes.
pub open spec fn string(s: Seq<char>, i: int, far: Failure) -> Step<VariableView> {
    let a = quoted(s, i, '\'', Class::InSingle, far);
    let q = a.or(quoted(s, i, '"', Class::InDouble, a.far));
    q.put(VariableView::String(q.val()))
}

/// A name of the environment.
pub open spec fn environment(s: Seq<char>, i: int, far: Failure) -> Step<VariableView> {
    let a = lit(s, i, "python_version"@, far);
    let b = lit(s, i, "python_full_version"@, a.far);
    let c = lit(s, i, "os_name"@, b.far);
    let d = lit(s, i, "sys_platform"@, c.far);
    let e = lit(s, i, "platform_release"@, d.far);
    let f = lit(s, i, "platform_system"@, e.far);
    let g = lit(s, i, "platform_version"@, f.far);
    let h = lit(s, i, "platform_machine"@, g.far);
    let k = lit(s, i, "platform_python_implementation"@, h.far);
    let l = lit(s, i, "implementation_name"@, k.far);
    let m = lit(s, i, "implementation_version"@, l.far);
    let n = lit(s, i, "extra"@, m.far);
    a.put(VariableView::PythonVersion).or(b.put(VariableView::PythonFullVersion)).or(
        c.put(VariableView::OsName),
    ).or(d.put(VariableView::SysPlatform)).or(e.put(VariableView::PlatformRelease)).or(
        f.put(VariableView::PlatformSystem),
    ).or(g.put(VariableView::PlatformVersion)).or(h.put(VariableView::PlatformMachine)).or(
        k.put(VariableView::PlatformPythonImplementation),
    ).or(l.put(VariableView::ImplementationName)).or(
        m.put(VariableView::ImplementationVersion),
    ).or(n.put(VariableView::Extra))
}

/// One side of a comparison: a quoted string, or else a name of the
/// environment.
#[verifier::opaque]
pub open spec fn variable(s: Seq<char>, i: int, far: Failure) -> Step<VariableView> {
    let q = string(s, i, far);
    q.or(environment(s, i, q.far))
}

/// `not`, at least one blank, and `in`.
pub open spec fn not_in(s: Seq<char>, i: int, far: Failure) -> Step<Operator> {
    let n = lit(s, i, "not"@, far);
    let w = run1(s, n.end(), Class::Blank, n.far);
    n.and(w).and(lit(s, w.end(), "in"@, w.far)).put(Operator::NotIn)
}

/// A comparator, or else `in`, or else `not in`.
#[verifier::opaque]
pub open spec fn operator(s: Seq<char>, i: int, far: Failure) -> Step<Operator> {
    let c = comparator(s, i, far);
    let n = lit(s, i, "in"@, c.far);
    c.put(Operator::Comparator(c.val())).or(n.put(Operator::In)).or(not_in(s, i, n.far))
}

/// A variable, an operator and a variable, with blanks between them or
/// without.
#[verifier::opaque]
pub open spec fn comparison(s: Seq<char>, i: int, far: Failure) -> Step<MarkerView> {
    let l = variable(s, i, far);
    let a = ws(s, l.end(), l.far);
    let o = operator(s, a.end(), a.far);
    let b = ws(s, o.end(), o.far);
    let r = variable(s, b.end(), b.far);
    l.and(a).and(o).and(b).and(r).put(MarkerView::Operator(l.val(), o.val(), r.val()))
}

/// A marker in round brackets, with groups nested at most `depth` deep
/// inside it.
pub open spec fn group(s: Seq<char>, i: int, depth: nat, far: Failure) -> Step<MarkerView>
    decreases depth, 3nat,
{
    let o = tok(s, i, '(', far);
    let a = ws(s, i + 1, o.far);
    let m = either(s, a.end(), depth, a.far);
    let b = ws(s, m.end(), m.far);
    let c = tok(s, b.end(), ')', b.far);
    o.and(a).and(m).and(b).and(c).put(m.val())
}

/// A comparison, or else, where `depth` is not zero, a group with one
/// level less to go.
pub open spec fn atom(s: Seq<char>, i: int, depth: nat, far: Failure) -> Step<MarkerView>
    decreases depth, 0nat,
{
    let c = comparison(s, i, far);
    if depth == 0 {
        c
    } else {
        c.or(group(s, i, (depth - 1) as nat, c.far))
    }
}

/// An atom, and where `and` and a second atom follow, both together.
pub open spec fn both(s: Seq<char>, i: int, depth: nat, far: Failure) -> Step<MarkerView>
    decreases depth, 1nat,
{
    let l = atom(s, i, depth, far);
    let a = ws(s, l.end(), l.far);
    let k = lit(s, a.end(), "and"@, a.far);
    let b = ws(s, k.end(), k.far);
    let r = atom(s, b.end(), depth, b.far);
    let t = a.and(k).and(b).and(r);
    l.and(t.put(MarkerView::And(Box::new(l.val()), Box::new(r.val()))).or_put(l.val(), l.end()))
}

/// A conjunction, and where `or` and a second conjunction follow, either
/// of them.
pub open spec fn either(s: Seq<char>, i: int, depth: nat, far: Failure) -> Step<MarkerView>
    decreases depth, 2nat,
{
    let l = both(s, i, depth, far);
    let a = ws(s, l.end(), l.far);
    let k = lit(s, a.end(), "or"@, a.far);
    let b = ws(s, k.end(), k.far);
    let r = both(s, b.end(), depth, b.far);
    let t = a.and(k).and(b).and(r);
    l.and(t.put(MarkerView::Or(Box::new(l.val()), Box::new(r.val()))).or_put(l.val(), l.end()))
}

} // verus!
