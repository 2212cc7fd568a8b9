//! The rules of a URI reference are within bounds.

use vstd::prelude::*;
use crate::class::Class;
use crate::failure::Failure;
use crate::grammar::url as rule;
use crate::step;
use crate::step::bounded;

verus! {

/// [`crate::grammar::url::percent`] is within bounds.
pub proof fn percent(s: Seq<char>, i: int, far: Failure)
    requires
        0 <= i <= s.len(),
    ensures
        bounded(rule::percent(s, i, far), s, i, far),
{
}

/// [`crate::grammar::url::unit`] is within bounds.
pub proof fn unit(s: Seq<char>, i: int, class: Class, far: Failure)
    requires
        0 <= i <= s.len(),
    ensures
        bounded(rule::unit(s, i, class, far), s, i, far),
{
}

/// [`crate::grammar::url::units`] is within bounds.
pub proof fn units(s: Seq<char>, i: int, class: Class, far: Failure)
    requires
        0 <= i <= s.len(),
    ensures
        bounded(rule::units(s, i, class, far), s, i, far),
        rule::units(s, i, class, far).ok(),
    decreases s.len() - i,
{
    let u = rule::unit(s, i, class, far);
    unit(s, i, class, far);
    if u.ok() && 0 <= i < s.len() {
        units(s, i + 1, class, u.far);
    }
}

/// [`crate::grammar::url::units1`] is within bounds.
pub proof fn units1(s: Seq<char>, i: int, class: Class, far: Failure)
    requires
        0 <= i <= s.len(),
    ensures
        bounded(rule::units1(s, i, class, far), s, i, far),
        rule::units1(s, i, class, far).ok() ==> i < rule::units1(s, i, class, far).end(),
{
    let u = rule::unit(s, i, class, far);
    unit(s, i, class, far);
    if u.ok() {
        units(s, i + 1, class, u.far);
    }
}

/// [`crate::grammar::url::octet`] is within bounds.
pub proof fn octet(s: Seq<char>, i: int, far: Failure)
    requires
        0 <= i <= s.len(),
    ensures
        bounded(rule::octet(s, i, far), s, i, far),
{
}

/// [`crate::grammar::url::ipv4`] is within bounds.
pub proof fn ipv4(s: Seq<char>, i: int, far: Failure)
    requires
        0 <= i <= s.len(),
    ensures
        bounded(rule::ipv4(s, i, far), s, i, far),
{
    let a = rule::octet(s, i, far);
    octet(s, i, far);
    if a.ok() {
        let p = step::tok(s, a.end(), '.', a.far);
        if p.ok() {
            let b = rule::octet(s, p.end(), p.far);
            octet(s, p.end(), p.far);
            if b.ok() {
                let q = step::tok(s, b.end(), '.', b.far);
                if q.ok() {
                    let c = rule::octet(s, q.end(), q.far);
                    octet(s, q.end(), q.far);
                    if c.ok() {
                        let r = step::tok(s, c.end(), '.', c.far);
                        if r.ok() {
                            octet(s, r.end(), r.far);
                        }
                    }
                }
            }
        }
    }
}

/// [`crate::grammar::url::most`] is within bounds.
pub proof fn most(s: Seq<char>, i: int, class: Class, n: int, far: Failure)
    requires
        0 <= i <= s.len(),
    ensures
        bounded(rule::most(s, i, class, n, far), s, i, far),
        rule::most(s, i, class, n, far).ok(),
    decreases n,
{
    if n > 0 {
        let a = step::one(s, i, class, far);
        if a.ok() {
            most(s, i + 1, class, n - 1, a.far);
        }
    }
}

/// [`crate::grammar::url::h16`] is within bounds.
pub proof fn h16(s: Seq<char>, i: int, far: Failure)
    requires
        0 <= i <= s.len(),
    ensures
        bounded(rule::h16(s, i, far), s, i, far),
{
    let a = step::one(s, i, Class::Hex, far);
    if a.ok() {
        most(s, i + 1, Class::Hex, 3, a.far);
    }
}

/// [`crate::grammar::url::group`] is within bounds.
pub proof fn group(s: Seq<char>, i: int, far: Failure)
    requires
        0 <= i <= s.len(),
    ensures
        bounded(rule::group(s, i, far), s, i, far),
{
    h16(s, i, far);
}

/// [`crate::grammar::url::groups`] is within bounds.
pub proof fn groups(s: Seq<char>, i: int, n: int, far: Failure)
    requires
        0 <= i <= s.len(),
    ensures
        bounded(rule::groups(s, i, n, far), s, i, far),
    decreases n,
{
    if n > 0 {
        let g = rule::group(s, i, far);
        group(s, i, far);
        if g.ok() {
            groups(s, g.end(), n - 1, g.far);
        }
    }
}

/// [`crate::grammar::url::tail`] is within bounds.
pub proof fn tail(s: Seq<char>, i: int, far: Failure)
    requires
        0 <= i <= s.len(),
    ensures
        bounded(rule::tail(s, i, far), s, i, far),
{
    let c = step::tok(s, i, ':', far);
    if c.ok() {
        h16(s, i + 1, c.far);
    }
}

/// [`crate::grammar::url::tails`] is within bounds.
pub proof fn tails(s: Seq<char>, i: int, n: int, far: Failure)
    requires
        0 <= i <= s.len(),
    ensures
        bounded(rule::tails(s, i, n, far), s, i, far),
        rule::tails(s, i, n, far).ok(),
    decreases n,
{
    if n > 0 {
        let t = rule::tail(s, i, far);
        tail(s, i, far);
        if t.ok() {
            tails(s, t.end(), n - 1, t.far);
        }
    }
}

/// [`crate::grammar::url::ls32`] is within bounds.
pub proof fn ls32(s: Seq<char>, i: int, far: Failure)
    requires
        0 <= i <= s.len(),
    ensures
        bounded(rule::ls32(s, i, far), s, i, far),
{
    let g = rule::group(s, i, far);
    group(s, i, far);
    if g.ok() {
        h16(s, g.end(), g.far);
    }
    let two = g.and(rule::h16(s, g.end(), g.far));
    ipv4(s, i, two.far);
}

/// [`crate::grammar::url::wide`] is within bounds.
pub proof fn wide(s: Seq<char>, i: int, n: int, far: Failure)
    requires
        0 <= i <= s.len(),
    ensures
        bounded(rule::wide(s, i, n, far), s, i, far),
        rule::wide(s, i, n, far).ok(),
{
    let h = rule::h16(s, i, far);
    h16(s, i, far);
    if h.ok() {
        tails(s, h.end(), n, h.far);
    }
}

/// [`crate::grammar::url::pair`] is within bounds.
pub proof fn pair(s: Seq<char>, i: int, far: Failure)
    requires
        0 <= i <= s.len(),
    ensures
        bounded(rule::pair(s, i, far), s, i, far),
        rule::pair(s, i, far).ok(),
{
    group(s, i, far);
    let g = rule::group(s, i, far).or_put((), i);
    h16(s, g.end(), g.far);
}

/// [`crate::grammar::url::lead`] is within bounds.
pub proof fn lead(s: Seq<char>, i: int, k: int, far: Failure)
    requires
        0 <= i <= s.len(),
    ensures
        bounded(rule::lead(s, i, k, far), s, i, far),
        rule::lead(s, i, k, far).ok(),
{
    if k >= 5 {
    } else if k == 4 {
        h16(s, i, far);
    } else if k == 3 {
        pair(s, i, far);
    } else {
        wide(s, i, 4 - k, far);
    }
}

/// [`crate::grammar::url::gap`] is within bounds.
pub proof fn gap(s: Seq<char>, i: int, far: Failure)
    requires
        0 <= i <= s.len(),
    ensures
        bounded(rule::gap(s, i, far), s, i, far),
{
}

/// [`crate::grammar::url::squeezed`] is within bounds.
pub proof fn squeezed(s: Seq<char>, i: int, k: int, far: Failure)
    requires
        0 <= i <= s.len(),
    ensures
        bounded(rule::squeezed(s, i, k, far), s, i, far),
{
    let l = rule::lead(s, i, k, far);
    lead(s, i, k, far);
    let c = rule::gap(s, l.end(), l.far);
    gap(s, l.end(), l.far);
    if c.ok() {
        let g = rule::groups(s, c.end(), k, c.far);
        groups(s, c.end(), k, c.far);
        if g.ok() {
            ls32(s, g.end(), g.far);
        }
    }
}

/// [`crate::grammar::url::one_after`] is within bounds.
pub proof fn one_after(s: Seq<char>, i: int, far: Failure)
    requires
        0 <= i <= s.len(),
    ensures
        bounded(rule::one_after(s, i, far), s, i, far),
{
    let l = rule::wide(s, i, 5, far);
    wide(s, i, 5, far);
    let c = rule::gap(s, l.end(), l.far);
    gap(s, l.end(), l.far);
    if c.ok() {
        h16(s, c.end(), c.far);
    }
}

/// [`crate::grammar::url::none_after`] is within bounds.
pub proof fn none_after(s: Seq<char>, i: int, far: Failure)
    requires
        0 <= i <= s.len(),
    ensures
        bounded(rule::none_after(s, i, far), s, i, far),
{
    let l = rule::wide(s, i, 6, far);
    wide(s, i, 6, far);
    gap(s, l.end(), l.far);
}

/// [`crate::grammar::url::full`] is within bounds.
pub proof fn full(s: Seq<char>, i: int, far: Failure)
    requires
        0 <= i <= s.len(),
    ensures
        bounded(rule::full(s, i, far), s, i, far),
{
    let g = rule::groups(s, i, 6, far);
    groups(s, i, 6, far);
    if g.ok() {
        ls32(s, g.end(), g.far);
    }
}

/// [`crate::grammar::url::ipv6`] is within bounds.
pub proof fn ipv6(s: Seq<char>, i: int, far: Failure)
    requires
        0 <= i <= s.len(),
    ensures
        bounded(rule::ipv6(s, i, far), s, i, far),
{
    reveal(rule::ipv6);
    let a = rule::full(s, i, far);
    full(s, i, far);
    let b = rule::squeezed(s, i, 5, a.far);
    squeezed(s, i, 5, a.far);
    let c = rule::squeezed(s, i, 4, b.far);
    squeezed(s, i, 4, b.far);
    let d = rule::squeezed(s, i, 3, c.far);
    squeezed(s, i, 3, c.far);
    let e = rule::squeezed(s, i, 2, d.far);
    squeezed(s, i, 2, d.far);
    let f = rule::squeezed(s, i, 1, e.far);
    squeezed(s, i, 1, e.far);
    let g = rule::squeezed(s, i, 0, f.far);
    squeezed(s, i, 0, f.far);
    let h = rule::one_after(s, i, g.far);
    one_after(s, i, g.far);
    none_after(s, i, h.far);
}

/// [`crate::grammar::url::ipvfuture`] is within bounds.
pub proof fn ipvfuture(s: Seq<char>, i: int, far: Failure)
    requires
        0 <= i <= s.len(),
    ensures
        bounded(rule::ipvfuture(s, i, far), s, i, far),
{
    let v = step::tok(s, i, 'v', far);
    if v.ok() {
        let h = step::run1(s, i + 1, Class::Hex, v.far);
        super::run1(s, i + 1, Class::Hex, v.far);
        if h.ok() {
            let d = step::tok(s, h.end(), '.', h.far);
            if d.ok() {
                super::run1(s, d.end(), Class::PlainColon, d.far);
            }
        }
    }
}

/// [`crate::grammar::url::literal`] is within bounds.
pub proof fn literal(s: Seq<char>, i: int, far: Failure)
    requires
        0 <= i <= s.len(),
    ensures
        bounded(rule::literal(s, i, far), s, i, far),
{
    let o = step::tok(s, i, '[', far);
    if o.ok() {
        let v = rule::ipvfuture(s, i + 1, o.far);
        ipvfuture(s, i + 1, o.far);
        ipv6(s, i + 1, v.far);
    }
}

/// [`crate::grammar::url::host`] is within bounds.
pub proof fn host(s: Seq<char>, i: int, far: Failure)
    requires
        0 <= i <= s.len(),
    ensures
        bounded(rule::host(s, i, far), s, i, far),
        rule::host(s, i, far).ok(),
{
    let l = rule::literal(s, i, far);
    literal(s, i, far);
    let a = rule::ipv4(s, i, l.far);
    ipv4(s, i, l.far);
    units(s, i, Class::Plain, a.far);
}

/// [`crate::grammar::url::userinfo`] is within bounds.
pub proof fn userinfo(s: Seq<char>, i: int, far: Failure)
    requires
        0 <= i <= s.len(),
    ensures
        bounded(rule::userinfo(s, i, far), s, i, far),
        rule::userinfo(s, i, far).ok(),
{
    units(s, i, Class::PlainColon, far);
}

/// [`crate::grammar::url::port`] is within bounds.
pub proof fn port(s: Seq<char>, i: int, far: Failure)
    requires
        0 <= i <= s.len(),
    ensures
        bounded(rule::port(s, i, far), s, i, far),
        rule::port(s, i, far).ok(),
{
    let c = step::tok(s, i, ':', far);
    if c.ok() {
        super::run(s, i + 1, Class::Digit, c.far);
    }
}

/// [`crate::grammar::url::segment`] is within bounds.
pub proof fn segment(s: Seq<char>, i: int, far: Failure)
    requires
        0 <= i <= s.len(),
    ensures
        bounded(rule::segment(s, i, far), s, i, far),
{
    let c = step::tok(s, i, '/', far);
    if c.ok() {
        units(s, i + 1, Class::Segment, c.far);
    }
}

/// [`crate::grammar::url::segments`] is within bounds.
pub proof fn segments(s: Seq<char>, i: int, far: Failure)
    requires
        0 <= i <= s.len(),
    ensures
        bounded(rule::segments(s, i, far), s, i, far),
        rule::segments(s, i, far).ok(),
    decreases s.len() - i,
{
    let g = rule::segment(s, i, far);
    segment(s, i, far);
    if g.ok() && i < g.end() <= s.len() {
        segments(s, g.end(), g.far);
    }
}

/// [`crate::grammar::url::authority`] is within bounds.
pub proof fn authority(s: Seq<char>, i: int, far: Failure)
    requires
        0 <= i <= s.len(),
    ensures
        bounded(rule::authority(s, i, far), s, i, far),
{
    let c = step::tok(s, i, '/', far);
    if c.ok() {
        let u = rule::userinfo(s, i + 1, c.far);
        userinfo(s, i + 1, c.far);
        let h = rule::host(s, u.end(), u.far);
        host(s, u.end(), u.far);
        let p = rule::port(s, h.end(), h.far);
        port(s, h.end(), h.far);
        segments(s, p.end(), p.far);
    }
}

/// [`crate::grammar::url::rootless`] is within bounds.
pub proof fn rootless(s: Seq<char>, i: int, class: Class, far: Failure)
    requires
        0 <= i <= s.len(),
    ensures
        bounded(rule::rootless(s, i, class, far), s, i, far),
        rule::rootless(s, i, class, far).ok() ==> i < rule::rootless(s, i, class, far).end(),
{
    let f = rule::units1(s, i, class, far);
    units1(s, i, class, far);
    if f.ok() {
        segments(s, f.end(), f.far);
    }
}

/// [`crate::grammar::url::slashed`] is within bounds.
pub proof fn slashed(s: Seq<char>, i: int, far: Failure)
    requires
        0 <= i <= s.len(),
    ensures
        bounded(rule::slashed(s, i, far), s, i, far),
        rule::slashed(s, i, far).ok() ==> i < rule::slashed(s, i, far).end(),
{
    let c = step::tok(s, i, '/', far);
    if c.ok() {
        let a = rule::authority(s, i + 1, c.far);
        authority(s, i + 1, c.far);
        rootless(s, i + 1, Class::Segment, a.far);
    }
}

/// [`crate::grammar::url::absolute`] is within bounds.
pub proof fn absolute(s: Seq<char>, i: int, far: Failure)
    requires
        0 <= i <= s.len(),
    ensures
        bounded(rule::absolute(s, i, far), s, i, far),
        rule::absolute(s, i, far).ok() ==> i < rule::absolute(s, i, far).end(),
{
    let a = step::one(s, i, Class::Alpha, far);
    if a.ok() {
        let n = step::run(s, i + 1, Class::Scheme, a.far);
        super::run(s, i + 1, Class::Scheme, a.far);
        let c = step::tok(s, n.end(), ':', n.far);
        if c.ok() {
            let p = rule::slashed(s, c.end(), c.far);
            slashed(s, c.end(), c.far);
            rootless(s, c.end(), Class::Segment, p.far);
        }
    }
}

/// [`crate::grammar::url::query`] is within bounds.
pub proof fn query(s: Seq<char>, i: int, far: Failure)
    requires
        0 <= i <= s.len(),
    ensures
        bounded(rule::query(s, i, far), s, i, far),
        rule::query(s, i, far).ok(),
{
    let c = step::tok(s, i, '?', far);
    if c.ok() {
        units(s, i + 1, Class::Query, c.far);
    }
}

/// [`crate::grammar::url::fragment`] is within bounds.
pub proof fn fragment(s: Seq<char>, i: int, far: Failure)
    requires
        0 <= i <= s.len(),
    ensures
        bounded(rule::fragment(s, i, far), s, i, far),
        rule::fragment(s, i, far).ok(),
{
    let c = step::tok(s, i, '#', far);
    if c.ok() {
        units(s, i + 1, Class::Query, c.far);
    }
}

/// [`crate::grammar::url::reference`] is within bounds.
pub proof fn reference(s: Seq<char>, i: int, far: Failure)
    requires
        0 <= i <= s.len(),
    ensures
        bounded(rule::reference(s, i, far), s, i, far),
        rule::reference(s, i, far).ok() ==> i < rule::reference(s, i, far).end(),
{
    reveal(rule::reference);
    let a = rule::absolute(s, i, far);
    absolute(s, i, far);
    let b = rule::slashed(s, i, a.far);
    slashed(s, i, a.far);
    rootless(s, i, Class::PlainAt, b.far);
    let h = a.or(b).or(rule::rootless(s, i, Class::PlainAt, b.far));
    if h.ok() {
        let q = rule::query(s, h.end(), h.far);
        query(s, h.end(), h.far);
        fragment(s, q.end(), q.far);
    }
}

/// [`crate::grammar::url::url`] is within bounds.
pub proof fn url(s: Seq<char>, i: int, far: Failure)
    requires
        0 <= i <= s.len(),
    ensures
        bounded(rule::url(s, i, far), s, i, far),
        rule::url(s, i, far).ok() ==> i < rule::url(s, i, far).end() && rule::url(
            s,
            i,
            far,
        ).val().len() > 0,
{
    reference(s, i, far);
}

} // verus!
