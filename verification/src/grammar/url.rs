//! The grammar of a URI reference.
//!
//! A percent-encoded octet is a `%` that two hexadecimal digits follow. The
//! step for it consumes the `%` alone, and the digits are then consumed as
//! ordinary characters: every class that may hold such an octet holds the
//! digits too.

use vstd::prelude::*;
use crate::class::Class;
use crate::failure::Failure;
use crate::step::{accept, eof, one, run, run1, tok, Step};

verus! {

/// A `%` with two hexadecimal digits after it, of which only the `%` is
/// consumed.
pub open spec fn percent(s: Seq<char>, i: int, far: Failure) -> Step<()> {
    let p = tok(s, i, '%', far);
    let h = one(s, i + 1, Class::Hex, p.far);
    let l = one(s, i + 2, Class::Hex, h.far);
    p.and(h.and(l).peek(i + 1))
}

/// A `%` that starts a percent-encoded octet, or one character of `class`.
pub open spec fn unit(s: Seq<char>, i: int, class: Class, far: Failure) -> Step<()> {
    let p = percent(s, i, far);
    p.or(one(s, i, class, p.far))
}

/// As many units as there are.
pub open spec fn units(s: Seq<char>, i: int, class: Class, far: Failure) -> Step<()>
    decreases s.len() - i,
{
    let u = unit(s, i, class, far);
    if u.ok() && 0 <= i < s.len() {
        units(s, i + 1, class, u.far)
    } else {
        accept((), i, u.far)
    }
}

/// At least one unit.
pub open spec fn units1(s: Seq<char>, i: int, class: Class, far: Failure) -> Step<()> {
    let u = unit(s, i, class, far);
    u.and(units(s, i + 1, class, u.far))
}

/// `1` and two digits.
pub open spec fn hundred(s: Seq<char>, i: int, far: Failure) -> Step<()> {
    let a = tok(s, i, '1', far);
    let b = one(s, i + 1, Class::Digit, a.far);
    a.and(b).and(one(s, i + 2, Class::Digit, b.far))
}

/// `2` and two digits that make a number up to 255 with it: one up to `4`
/// and any one, or else `5` and one up to `5`.
pub open spec fn two_hundred(s: Seq<char>, i: int, far: Failure) -> Step<()> {
    let a = tok(s, i, '2', far);
    let b = one(s, i + 1, Class::UpToFour, a.far);
    let low = b.and(one(s, i + 2, Class::Digit, b.far));
    let c = tok(s, i + 1, '5', low.far);
    a.and(low.or(c.and(one(s, i + 2, Class::UpToFive, c.far))))
}

/// A digit other than `0`, and a digit.
pub open spec fn two_digits(s: Seq<char>, i: int, far: Failure) -> Step<()> {
    let a = one(s, i, Class::NonZero, far);
    a.and(one(s, i + 1, Class::Digit, a.far))
}

/// A decimal number from 0 to 255 without a leading zero. The forms of
/// three digits are tried first, then that of two, then the single digit.
pub open spec fn octet(s: Seq<char>, i: int, far: Failure) -> Step<()> {
    let a = hundred(s, i, far);
    let b = two_hundred(s, i, a.far);
    let c = two_digits(s, i, b.far);
    a.or(b).or(c).or(one(s, i, Class::Digit, c.far))
}

/// Four octets with dots between them.
pub open spec fn ipv4(s: Seq<char>, i: int, far: Failure) -> Step<()> {
    let a = octet(s, i, far);
    let p = tok(s, a.end(), '.', a.far);
    let b = octet(s, p.end(), p.far);
    let q = tok(s, b.end(), '.', b.far);
    let c = octet(s, q.end(), q.far);
    let r = tok(s, c.end(), '.', c.far);
    a.and(p).and(b).and(q).and(c).and(r).and(octet(s, r.end(), r.far))
}

/// At most `n` characters of `class`, as many as there are.
pub open spec fn most(s: Seq<char>, i: int, class: Class, n: int, far: Failure) -> Step<()>
    decreases n,
{
    if n <= 0 {
        accept((), i, far)
    } else {
        let a = one(s, i, class, far);
        a.and(most(s, i + 1, class, n - 1, a.far)).or_put((), i)
    }
}

/// One to four hexadecimal digits.
pub open spec fn h16(s: Seq<char>, i: int, far: Failure) -> Step<()> {
    let a = one(s, i, Class::Hex, far);
    a.and(most(s, i + 1, Class::Hex, 3, a.far))
}

/// A group of hexadecimal digits and the colon after it.
pub open spec fn group(s: Seq<char>, i: int, far: Failure) -> Step<()> {
    let h = h16(s, i, far);
    h.and(tok(s, h.end(), ':', h.far))
}

/// Exactly `n` groups, each with its colon.
pub open spec fn groups(s: Seq<char>, i: int, n: int, far: Failure) -> Step<()>
    decreases n,
{
    if n <= 0 {
        accept((), i, far)
    } else {
        let g = group(s, i, far);
        g.and(groups(s, g.end(), n - 1, g.far))
    }
}

/// A colon and the group of hexadecimal digits after it.
pub open spec fn tail(s: Seq<char>, i: int, far: Failure) -> Step<()> {
    let c = tok(s, i, ':', far);
    c.and(h16(s, i + 1, c.far))
}

/// At most `n` groups, each after its colon, as many as there are.
pub open spec fn tails(s: Seq<char>, i: int, n: int, far: Failure) -> Step<()>
    decreases n,
{
    if n <= 0 {
        accept((), i, far)
    } else {
        let t = tail(s, i, far);
        t.and(tails(s, t.end(), n - 1, t.far)).or_put((), i)
    }
}

/// The last 32 bits of an IPv6 address: two groups with a colon between
/// them, or else an IPv4 address.
pub open spec fn ls32(s: Seq<char>, i: int, far: Failure) -> Step<()> {
    let g = group(s, i, far);
    let two = g.and(h16(s, g.end(), g.far));
    two.or(ipv4(s, i, two.far))
}

/// Nothing, or a group and at most `n` more, each after its colon.
pub open spec fn wide(s: Seq<char>, i: int, n: int, far: Failure) -> Step<()> {
    let h = h16(s, i, far);
    h.and(tails(s, h.end(), n, h.far)).or_put((), i)
}

/// A group with its colon if it is there, and one more group; or nothing.
pub open spec fn pair(s: Seq<char>, i: int, far: Failure) -> Step<()> {
    let g = group(s, i, far).or_put((), i);
    g.and(h16(s, g.end(), g.far)).or_put((), i)
}

/// What may stand before the `::` of an address in which `k` groups and
/// the last 32 bits follow it. With five groups to follow there is room
/// for nothing, with four for one group, with three for a pair; with
/// fewer, for a group and as many more as make seven in all.
pub open spec fn lead(s: Seq<char>, i: int, k: int, far: Failure) -> Step<()> {
    if k >= 5 {
        accept((), i, far)
    } else if k == 4 {
        h16(s, i, far).or_put((), i)
    } else if k == 3 {
        pair(s, i, far)
    } else {
        wide(s, i, 4 - k, far)
    }
}

/// The two colons that stand for the groups left out.
pub open spec fn gap(s: Seq<char>, i: int, far: Failure) -> Step<()> {
    let c = tok(s, i, ':', far);
    c.and(tok(s, i + 1, ':', c.far))
}

/// An IPv6 address with `::` in it, `k` groups after that, and the last 32
/// bits.
pub open spec fn squeezed(s: Seq<char>, i: int, k: int, far: Failure) -> Step<()> {
    let l = lead(s, i, k, far);
    let c = gap(s, l.end(), l.far);
    let g = groups(s, c.end(), k, c.far);
    l.and(c).and(g).and(ls32(s, g.end(), g.far))
}

/// An IPv6 address that ends in `::` and one group.
pub open spec fn one_after(s: Seq<char>, i: int, far: Failure) -> Step<()> {
    let l = wide(s, i, 5, far);
    let c = gap(s, l.end(), l.far);
    l.and(c).and(h16(s, c.end(), c.far))
}

/// An IPv6 address that ends in `::`.
pub open spec fn none_after(s: Seq<char>, i: int, far: Failure) -> Step<()> {
    let l = wide(s, i, 6, far);
    l.and(gap(s, l.end(), l.far))
}

/// Eight groups, the last two of which may be an IPv4 address instead.
pub open spec fn full(s: Seq<char>, i: int, far: Failure) -> Step<()> {
    let g = groups(s, i, 6, far);
    g.and(ls32(s, g.end(), g.far))
}

/// An IPv6 address: the full form, or else one of the forms with `::`,
/// from that with the most groups after it to that with none.
#[verifier::opaque]
pub open spec fn ipv6(s: Seq<char>, i: int, far: Failure) -> Step<()> {
    let a = full(s, i, far);
    let b = squeezed(s, i, 5, a.far);
    let c = squeezed(s, i, 4, b.far);
    let d = squeezed(s, i, 3, c.far);
    let e = squeezed(s, i, 2, d.far);
    let f = squeezed(s, i, 1, e.far);
    let g = squeezed(s, i, 0, f.far);
    let h = one_after(s, i, g.far);
    a.or(b).or(c).or(d).or(e).or(f).or(g).or(h).or(none_after(s, i, h.far))
}

/// An address of a later version of IP: `v`, hexadecimal digits, a dot, and
/// plain characters or colons.
pub open spec fn ipvfuture(s: Seq<char>, i: int, far: Failure) -> Step<()> {
    let v = tok(s, i, 'v', far);
    let h = run1(s, i + 1, Class::Hex, v.far);
    let d = tok(s, h.end(), '.', h.far);
    v.and(h).and(d).and(run1(s, d.end(), Class::PlainColon, d.far))
}

/// An IP literal in square brackets. The later version is tried first.
pub open spec fn literal(s: Seq<char>, i: int, far: Failure) -> Step<()> {
    let o = tok(s, i, '[', far);
    let v = ipvfuture(s, i + 1, o.far);
    let a = v.or(ipv6(s, i + 1, v.far));
    o.and(a).and(tok(s, a.end(), ']', a.far))
}

/// A host: an IP literal, or else an IPv4 address, or else a registered
/// name, which may be empty.
pub open spec fn host(s: Seq<char>, i: int, far: Failure) -> Step<()> {
    let l = literal(s, i, far);
    let a = ipv4(s, i, l.far);
    l.or(a).or(units(s, i, Class::Plain, a.far))
}

/// User information and the `@` after it, or nothing.
pub open spec fn userinfo(s: Seq<char>, i: int, far: Failure) -> Step<()> {
    let u = units(s, i, Class::PlainColon, far);
    u.and(tok(s, u.end(), '@', u.far)).or_put((), i)
}

/// A colon and the digits of a port, of which there may be none; or nothing.
pub open spec fn port(s: Seq<char>, i: int, far: Failure) -> Step<()> {
    let c = tok(s, i, ':', far);
    c.and(run(s, i + 1, Class::Digit, c.far)).or_put((), i)
}

/// A slash and the segment after it, which may be empty.
pub open spec fn segment(s: Seq<char>, i: int, far: Failure) -> Step<()> {
    let c = tok(s, i, '/', far);
    c.and(units(s, i + 1, Class::Segment, c.far))
}

/// As many segments, each after its slash, as there are.
pub open spec fn segments(s: Seq<char>, i: int, far: Failure) -> Step<()>
    decreases s.len() - i,
{
    let g = segment(s, i, far);
    if g.ok() && i < g.end() <= s.len() {
        segments(s, g.end(), g.far)
    } else {
        accept((), i, g.far)
    }
}

/// A slash, an authority, and segments. It stands after a first slash.
pub open spec fn authority(s: Seq<char>, i: int, far: Failure) -> Step<()> {
    let c = tok(s, i, '/', far);
    let u = userinfo(s, i + 1, c.far);
    let h = host(s, u.end(), u.far);
    let p = port(s, h.end(), h.far);
    c.and(u).and(h).and(p).and(segments(s, p.end(), p.far))
}

/// A segment that is not empty, of units of `class`, and segments after it.
pub open spec fn rootless(s: Seq<char>, i: int, class: Class, far: Failure) -> Step<()> {
    let f = units1(s, i, class, far);
    f.and(segments(s, f.end(), f.far))
}

/// A slash, and then an authority after a second slash, or else a path, or
/// else nothing more.
pub open spec fn slashed(s: Seq<char>, i: int, far: Failure) -> Step<()> {
    let c = tok(s, i, '/', far);
    let a = authority(s, i + 1, c.far);
    c.and(a.or(rootless(s, i + 1, Class::Segment, a.far).or_put((), i + 1)))
}

/// A scheme and its colon, and then what starts with a slash or else a
/// path that does not.
pub open spec fn absolute(s: Seq<char>, i: int, far: Failure) -> Step<()> {
    let a = one(s, i, Class::Alpha, far);
    let n = run(s, i + 1, Class::Scheme, a.far);
    let c = tok(s, n.end(), ':', n.far);
    let p = slashed(s, c.end(), c.far);
    a.and(n).and(c).and(p.or(rootless(s, c.end(), Class::Segment, p.far)))
}

/// A `?` and a query, or nothing.
pub open spec fn query(s: Seq<char>, i: int, far: Failure) -> Step<()> {
    let c = tok(s, i, '?', far);
    c.and(units(s, i + 1, Class::Query, c.far)).or_put((), i)
}

/// A `#` and a fragment, or nothing.
pub open spec fn fragment(s: Seq<char>, i: int, far: Failure) -> Step<()> {
    let c = tok(s, i, '#', far);
    c.and(units(s, i + 1, Class::Query, c.far)).or_put((), i)
}

/// A URI reference: a URI with its scheme, or else what starts with a
/// slash, or else a path whose first segment is not empty and holds no
/// colon; then a query and a fragment, each of which may be absent.
#[verifier::opaque]
pub open spec fn reference(s: Seq<char>, i: int, far: Failure) -> Step<()> {
    let a = absolute(s, i, far);
    let b = slashed(s, i, a.far);
    let h = a.or(b).or(rootless(s, i, Class::PlainAt, b.far));
    let q = query(s, h.end(), h.far);
    h.and(q).and(fragment(s, q.end(), q.far))
}

/// A URI reference, with the text it consumed for a value.
pub open spec fn url(s: Seq<char>, i: int, far: Failure) -> Step<Seq<char>> {
    let r = reference(s, i, far);
    r.put(s.subrange(i, r.end()))
}

/// A URI reference that is the whole of `s`.
pub open spec fn entire(s: Seq<char>) -> Step<Seq<char>> {
    let u = url(s, 0, Failure::none());
    u.and(eof(s, u.end(), u.far)).put(u.val())
}

} // verus!
