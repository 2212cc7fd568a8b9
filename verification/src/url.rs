//! Recognition of a URI reference.
//!
//! Each function takes one step of [`crate::grammar::url`] at an offset of
//! the source. It returns the offset after what it consumed, or `None`, and
//! leaves in `far` the furthest failure met so far.

use vstd::prelude::*;
use crate::class::Class;
use crate::failure::{Failure, SyntaxError};
use crate::grammar::url as rule;
use crate::scan::{eof, one, run, run1, tok};
use crate::source::Source;
use crate::step::{ended, ran, ready, stays};

verus! {

/// A `%` that two hexadecimal digits follow; the offset after the `%`.
pub fn percent(src: &Source, i: usize, far: &mut SyntaxError) -> (r: Option<usize>)
    requires
        ready(src@, i, *old(far)),
    ensures
        ran(rule::percent(src@, i as int, old(far)@), r, *final(far)),
        stays(src@, i, r, *final(far)),
{
    let j = tok(src, i, '%', far)?;
    let k = one(src, j, Class::Hex, far)?;
    one(src, k, Class::Hex, far)?;
    Some(j)
}

/// A `%` that starts a percent-encoded octet, or one character of `class`.
pub fn unit(src: &Source, i: usize, class: Class, far: &mut SyntaxError) -> (r: Option<usize>)
    requires
        ready(src@, i, *old(far)),
    ensures
        ran(rule::unit(src@, i as int, class, old(far)@), r, *final(far)),
        stays(src@, i, r, *final(far)),
        r matches Some(j) ==> j == i + 1,
{
    if let Some(j) = percent(src, i, far) {
        return Some(j);
    }
    one(src, i, class, far)
}

/// As many units as there are.
pub fn units(src: &Source, i: usize, class: Class, far: &mut SyntaxError) -> (j: usize)
    requires
        ready(src@, i, *old(far)),
    ensures
        ran(rule::units(src@, i as int, class, old(far)@), Some(j), *final(far)),
        stays(src@, i, Some(j), *final(far)),
{
    let mut j = i;
    loop
        invariant
            far.wf(),
            stays(src@, i, Some(j), *far),
            rule::units(src@, j as int, class, far@) == rule::units(
                src@,
                i as int,
                class,
                old(far)@,
            ),
        decreases src@.len() - j,
    {
        match unit(src, j, class, far) {
            None => {
                return j;
            },
            Some(k) => {
                j = k;
            },
        }
    }
}

/// At least one unit.
pub fn units1(src: &Source, i: usize, class: Class, far: &mut SyntaxError) -> (r: Option<usize>)
    requires
        ready(src@, i, *old(far)),
    ensures
        ran(rule::units1(src@, i as int, class, old(far)@), r, *final(far)),
        stays(src@, i, r, *final(far)),
        r matches Some(j) ==> i < j,
{
    let j = unit(src, i, class, far)?;
    Some(units(src, j, class, far))
}

/// `1` and two digits.
fn hundred(src: &Source, i: usize, far: &mut SyntaxError) -> (r: Option<usize>)
    requires
        ready(src@, i, *old(far)),
    ensures
        ran(rule::hundred(src@, i as int, old(far)@), r, *final(far)),
        stays(src@, i, r, *final(far)),
{
    let j = tok(src, i, '1', far)?;
    let j = one(src, j, Class::Digit, far)?;
    one(src, j, Class::Digit, far)
}

/// `2` and two digits that make a number up to 255 with it.
fn two_hundred(src: &Source, i: usize, far: &mut SyntaxError) -> (r: Option<usize>)
    requires
        ready(src@, i, *old(far)),
    ensures
        ran(rule::two_hundred(src@, i as int, old(far)@), r, *final(far)),
        stays(src@, i, r, *final(far)),
{
    let j = tok(src, i, '2', far)?;
    if let Some(k) = one(src, j, Class::UpToFour, far) {
        if let Some(l) = one(src, k, Class::Digit, far) {
            return Some(l);
        }
    }
    let k = tok(src, j, '5', far)?;
    one(src, k, Class::UpToFive, far)
}

/// A digit other than `0`, and a digit.
fn two_digits(src: &Source, i: usize, far: &mut SyntaxError) -> (r: Option<usize>)
    requires
        ready(src@, i, *old(far)),
    ensures
        ran(rule::two_digits(src@, i as int, old(far)@), r, *final(far)),
        stays(src@, i, r, *final(far)),
{
    let j = one(src, i, Class::NonZero, far)?;
    one(src, j, Class::Digit, far)
}

/// A decimal number from 0 to 255 without a leading zero.
pub fn octet(src: &Source, i: usize, far: &mut SyntaxError) -> (r: Option<usize>)
    requires
        ready(src@, i, *old(far)),
    ensures
        ran(rule::octet(src@, i as int, old(far)@), r, *final(far)),
        stays(src@, i, r, *final(far)),
{
    if let Some(j) = hundred(src, i, far) {
        return Some(j);
    }
    if let Some(j) = two_hundred(src, i, far) {
        return Some(j);
    }
    if let Some(j) = two_digits(src, i, far) {
        return Some(j);
    }
    one(src, i, Class::Digit, far)
}

/// Four octets with dots between them.
pub fn ipv4(src: &Source, i: usize, far: &mut SyntaxError) -> (r: Option<usize>)
    requires
        ready(src@, i, *old(far)),
    ensures
        ran(rule::ipv4(src@, i as int, old(far)@), r, *final(far)),
        stays(src@, i, r, *final(far)),
{
    let j = octet(src, i, far)?;
    let j = tok(src, j, '.', far)?;
    let j = octet(src, j, far)?;
    let j = tok(src, j, '.', far)?;
    let j = octet(src, j, far)?;
    let j = tok(src, j, '.', far)?;
    octet(src, j, far)
}

/// At most `n` characters of `class`, as many as there are.
pub fn most(src: &Source, i: usize, class: Class, n: usize, far: &mut SyntaxError) -> (j: usize)
    requires
        ready(src@, i, *old(far)),
    ensures
        ran(rule::most(src@, i as int, class, n as int, old(far)@), Some(j), *final(far)),
        stays(src@, i, Some(j), *final(far)),
    decreases n,
{
    if n == 0 {
        return i;
    }
    match one(src, i, class, far) {
        None => i,
        Some(j) => most(src, j, class, n - 1, far),
    }
}

/// One to four hexadecimal digits.
pub fn h16(src: &Source, i: usize, far: &mut SyntaxError) -> (r: Option<usize>)
    requires
        ready(src@, i, *old(far)),
    ensures
        ran(rule::h16(src@, i as int, old(far)@), r, *final(far)),
        stays(src@, i, r, *final(far)),
{
    let j = one(src, i, Class::Hex, far)?;
    Some(most(src, j, Class::Hex, 3, far))
}

/// A group of hexadecimal digits and the colon after it.
pub fn group(src: &Source, i: usize, far: &mut SyntaxError) -> (r: Option<usize>)
    requires
        ready(src@, i, *old(far)),
    ensures
        ran(rule::group(src@, i as int, old(far)@), r, *final(far)),
        stays(src@, i, r, *final(far)),
{
    let j = h16(src, i, far)?;
    tok(src, j, ':', far)
}

/// Exactly `n` groups, each with its colon.
pub fn groups(src: &Source, i: usize, n: usize, far: &mut SyntaxError) -> (r: Option<usize>)
    requires
        ready(src@, i, *old(far)),
    ensures
        ran(rule::groups(src@, i as int, n as int, old(far)@), r, *final(far)),
        stays(src@, i, r, *final(far)),
    decreases n,
{
    if n == 0 {
        return Some(i);
    }
    let j = group(src, i, far)?;
    groups(src, j, n - 1, far)
}

/// A colon and the group of hexadecimal digits after it.
pub fn tail(src: &Source, i: usize, far: &mut SyntaxError) -> (r: Option<usize>)
    requires
        ready(src@, i, *old(far)),
    ensures
        ran(rule::tail(src@, i as int, old(far)@), r, *final(far)),
        stays(src@, i, r, *final(far)),
{
    let j = tok(src, i, ':', far)?;
    h16(src, j, far)
}

/// At most `n` groups, each after its colon, as many as there are.
pub fn tails(src: &Source, i: usize, n: usize, far: &mut SyntaxError) -> (j: usize)
    requires
        ready(src@, i, *old(far)),
    ensures
        ran(rule::tails(src@, i as int, n as int, old(far)@), Some(j), *final(far)),
        stays(src@, i, Some(j), *final(far)),
    decreases n,
{
    if n == 0 {
        return i;
    }
    match tail(src, i, far) {
        None => i,
        Some(j) => tails(src, j, n - 1, far),
    }
}

/// The last 32 bits of an IPv6 address.
pub fn ls32(src: &Source, i: usize, far: &mut SyntaxError) -> (r: Option<usize>)
    requires
        ready(src@, i, *old(far)),
    ensures
        ran(rule::ls32(src@, i as int, old(far)@), r, *final(far)),
        stays(src@, i, r, *final(far)),
{
    if let Some(j) = group(src, i, far) {
        if let Some(k) = h16(src, j, far) {
            return Some(k);
        }
    }
    ipv4(src, i, far)
}

/// Nothing, or a group and at most `n` more, each after its colon.
pub fn wide(src: &Source, i: usize, n: usize, far: &mut SyntaxError) -> (j: usize)
    requires
        ready(src@, i, *old(far)),
    ensures
        ran(rule::wide(src@, i as int, n as int, old(far)@), Some(j), *final(far)),
        stays(src@, i, Some(j), *final(far)),
{
    match h16(src, i, far) {
        None => i,
        Some(j) => tails(src, j, n, far),
    }
}

/// A group with its colon if it is there, and one more group; or nothing.
pub fn pair(src: &Source, i: usize, far: &mut SyntaxError) -> (j: usize)
    requires
        ready(src@, i, *old(far)),
    ensures
        ran(rule::pair(src@, i as int, old(far)@), Some(j), *final(far)),
        stays(src@, i, Some(j), *final(far)),
{
    let j = match group(src, i, far) {
        None => i,
        Some(j) => j,
    };
    match h16(src, j, far) {
        None => i,
        Some(k) => k,
    }
}

/// What may stand before the `::` of an address in which `k` groups and
/// the last 32 bits follow it.
pub fn lead(src: &Source, i: usize, k: usize, far: &mut SyntaxError) -> (j: usize)
    requires
        ready(src@, i, *old(far)),
    ensures
        ran(rule::lead(src@, i as int, k as int, old(far)@), Some(j), *final(far)),
        stays(src@, i, Some(j), *final(far)),
{
    if k >= 5 {
        i
    } else if k == 4 {
        match h16(src, i, far) {
            None => i,
            Some(j) => j,
        }
    } else if k == 3 {
        pair(src, i, far)
    } else {
        wide(src, i, 4 - k, far)
    }
}

/// The two colons that stand for the groups left out.
pub fn gap(src: &Source, i: usize, far: &mut SyntaxError) -> (r: Option<usize>)
    requires
        ready(src@, i, *old(far)),
    ensures
        ran(rule::gap(src@, i as int, old(far)@), r, *final(far)),
        stays(src@, i, r, *final(far)),
{
    let j = tok(src, i, ':', far)?;
    tok(src, j, ':', far)
}

/// An IPv6 address with `::` in it, `k` groups after that, and the last 32
/// bits.
pub fn squeezed(src: &Source, i: usize, k: usize, far: &mut SyntaxError) -> (r: Option<usize>)
    requires
        ready(src@, i, *old(far)),
    ensures
        ran(rule::squeezed(src@, i as int, k as int, old(far)@), r, *final(far)),
        stays(src@, i, r, *final(far)),
{
    let j = lead(src, i, k, far);
    let j = gap(src, j, far)?;
    let j = groups(src, j, k, far)?;
    ls32(src, j, far)
}

/// An IPv6 address that ends in `::` and one group.
pub fn one_after(src: &Source, i: usize, far: &mut SyntaxError) -> (r: Option<usize>)
    requires
        ready(src@, i, *old(far)),
    ensures
        ran(rule::one_after(src@, i as int, old(far)@), r, *final(far)),
        stays(src@, i, r, *final(far)),
{
    let j = wide(src, i, 5, far);
    let j = gap(src, j, far)?;
    h16(src, j, far)
}

/// An IPv6 address that ends in `::`.
pub fn none_after(src: &Source, i: usize, far: &mut SyntaxError) -> (r: Option<usize>)
    requires
        ready(src@, i, *old(far)),
    ensures
        ran(rule::none_after(src@, i as int, old(far)@), r, *final(far)),
        stays(src@, i, r, *final(far)),
{
    let j = wide(src, i, 6, far);
    gap(src, j, far)
}

/// Eight groups, the last two of which may be an IPv4 address instead.
pub fn full(src: &Source, i: usize, far: &mut SyntaxError) -> (r: Option<usize>)
    requires
        ready(src@, i, *old(far)),
    ensures
        ran(rule::full(src@, i as int, old(far)@), r, *final(far)),
        stays(src@, i, r, *final(far)),
{
    let j = groups(src, i, 6, far)?;
    ls32(src, j, far)
}

/// An IPv6 address.
pub fn ipv6(src: &Source, i: usize, far: &mut SyntaxError) -> (r: Option<usize>)
    requires
        ready(src@, i, *old(far)),
    ensures
        ran(rule::ipv6(src@, i as int, old(far)@), r, *final(far)),
        stays(src@, i, r, *final(far)),
{
    proof {
        reveal(rule::ipv6);
    }
    if let Some(j) = full(src, i, far) {
        return Some(j);
    }
    if let Some(j) = squeezed(src, i, 5, far) {
        return Some(j);
    }
    if let Some(j) = squeezed(src, i, 4, far) {
        return Some(j);
    }
    if let Some(j) = squeezed(src, i, 3, far) {
        return Some(j);
    }
    if let Some(j) = squeezed(src, i, 2, far) {
        return Some(j);
    }
    if let Some(j) = squeezed(src, i, 1, far) {
        return Some(j);
    }
    if let Some(j) = squeezed(src, i, 0, far) {
        return Some(j);
    }
    if let Some(j) = one_after(src, i, far) {
        return Some(j);
    }
    none_after(src, i, far)
}

/// An address of a later version of IP.
pub fn ipvfuture(src: &Source, i: usize, far: &mut SyntaxError) -> (r: Option<usize>)
    requires
        ready(src@, i, *old(far)),
    ensures
        ran(rule::ipvfuture(src@, i as int, old(far)@), r, *final(far)),
        stays(src@, i, r, *final(far)),
{
    let j = tok(src, i, 'v', far)?;
    let j = run1(src, j, Class::Hex, far)?;
    let j = tok(src, j, '.', far)?;
    run1(src, j, Class::PlainColon, far)
}

/// An IP literal in square brackets.
pub fn literal(src: &Source, i: usize, far: &mut SyntaxError) -> (r: Option<usize>)
    requires
        ready(src@, i, *old(far)),
    ensures
        ran(rule::literal(src@, i as int, old(far)@), r, *final(far)),
        stays(src@, i, r, *final(far)),
{
    let j = tok(src, i, '[', far)?;
    let k = match ipvfuture(src, j, far) {
        Some(k) => k,
        None => ipv6(src, j, far)?,
    };
    tok(src, k, ']', far)
}

/// A host: an IP literal, or else an IPv4 address, or else a registered
/// name, which may be empty.
pub fn host(src: &Source, i: usize, far: &mut SyntaxError) -> (j: usize)
    requires
        ready(src@, i, *old(far)),
    ensures
        ran(rule::host(src@, i as int, old(far)@), Some(j), *final(far)),
        stays(src@, i, Some(j), *final(far)),
{
    if let Some(j) = literal(src, i, far) {
        return j;
    }
    if let Some(j) = ipv4(src, i, far) {
        return j;
    }
    units(src, i, Class::Plain, far)
}

/// User information and the `@` after it, or nothing.
pub fn userinfo(src: &Source, i: usize, far: &mut SyntaxError) -> (j: usize)
    requires
        ready(src@, i, *old(far)),
    ensures
        ran(rule::userinfo(src@, i as int, old(far)@), Some(j), *final(far)),
        stays(src@, i, Some(j), *final(far)),
{
    let j = units(src, i, Class::PlainColon, far);
    match tok(src, j, '@', far) {
        None => i,
        Some(k) => k,
    }
}

/// A colon and the digits of a port, or nothing.
pub fn port(src: &Source, i: usize, far: &mut SyntaxError) -> (j: usize)
    requires
        ready(src@, i, *old(far)),
    ensures
        ran(rule::port(src@, i as int, old(far)@), Some(j), *final(far)),
        stays(src@, i, Some(j), *final(far)),
{
    match tok(src, i, ':', far) {
        None => i,
        Some(j) => run(src, j, Class::Digit, far),
    }
}

/// A slash and the segment after it, which may be empty.
pub fn segment(src: &Source, i: usize, far: &mut SyntaxError) -> (r: Option<usize>)
    requires
        ready(src@, i, *old(far)),
    ensures
        ran(rule::segment(src@, i as int, old(far)@), r, *final(far)),
        stays(src@, i, r, *final(far)),
        r matches Some(j) ==> i < j,
{
    let j = tok(src, i, '/', far)?;
    Some(units(src, j, Class::Segment, far))
}

/// As many segments, each after its slash, as there are.
pub fn segments(src: &Source, i: usize, far: &mut SyntaxError) -> (j: usize)
    requires
        ready(src@, i, *old(far)),
    ensures
        ran(rule::segments(src@, i as int, old(far)@), Some(j), *final(far)),
        stays(src@, i, Some(j), *final(far)),
{
    let mut j = i;
    loop
        invariant
            far.wf(),
            stays(src@, i, Some(j), *far),
            rule::segments(src@, j as int, far@) == rule::segments(src@, i as int, old(far)@),
        decreases src@.len() - j,
    {
        match segment(src, j, far) {
            None => {
                return j;
            },
            Some(k) => {
                j = k;
            },
        }
    }
}

/// A slash, an authority, and segments.
pub fn authority(src: &Source, i: usize, far: &mut SyntaxError) -> (r: Option<usize>)
    requires
        ready(src@, i, *old(far)),
    ensures
        ran(rule::authority(src@, i as int, old(far)@), r, *final(far)),
        stays(src@, i, r, *final(far)),
{
    let j = tok(src, i, '/', far)?;
    let j = userinfo(src, j, far);
    let j = host(src, j, far);
    let j = port(src, j, far);
    Some(segments(src, j, far))
}

/// A segment that is not empty, of units of `class`, and segments after it.
pub fn rootless(src: &Source, i: usize, class: Class, far: &mut SyntaxError) -> (r: Option<usize>)
    requires
        ready(src@, i, *old(far)),
    ensures
        ran(rule::rootless(src@, i as int, class, old(far)@), r, *final(far)),
        stays(src@, i, r, *final(far)),
        r matches Some(j) ==> i < j,
{
    let j = units1(src, i, class, far)?;
    Some(segments(src, j, far))
}

/// A slash, and then an authority after a second slash, or else a path, or
/// else nothing more.
pub fn slashed(src: &Source, i: usize, far: &mut SyntaxError) -> (r: Option<usize>)
    requires
        ready(src@, i, *old(far)),
    ensures
        ran(rule::slashed(src@, i as int, old(far)@), r, *final(far)),
        stays(src@, i, r, *final(far)),
        r matches Some(j) ==> i < j,
{
    let j = tok(src, i, '/', far)?;
    if let Some(k) = authority(src, j, far) {
        return Some(k);
    }
    match rootless(src, j, Class::Segment, far) {
        None => Some(j),
        Some(k) => Some(k),
    }
}

/// A scheme and its colon, and then what starts with a slash or else a
/// path that does not.
pub fn absolute(src: &Source, i: usize, far: &mut SyntaxError) -> (r: Option<usize>)
    requires
        ready(src@, i, *old(far)),
    ensures
        ran(rule::absolute(src@, i as int, old(far)@), r, *final(far)),
        stays(src@, i, r, *final(far)),
        r matches Some(j) ==> i < j,
{
    let j = one(src, i, Class::Alpha, far)?;
    let j = run(src, j, Class::Scheme, far);
    let j = tok(src, j, ':', far)?;
    if let Some(k) = slashed(src, j, far) {
        return Some(k);
    }
    rootless(src, j, Class::Segment, far)
}

/// A `?` and a query, or nothing.
pub fn query(src: &Source, i: usize, far: &mut SyntaxError) -> (j: usize)
    requires
        ready(src@, i, *old(far)),
    ensures
        ran(rule::query(src@, i as int, old(far)@), Some(j), *final(far)),
        stays(src@, i, Some(j), *final(far)),
{
    match tok(src, i, '?', far) {
        None => i,
        Some(j) => units(src, j, Class::Query, far),
    }
}

/// A `#` and a fragment, or nothing.
pub fn fragment(src: &Source, i: usize, far: &mut SyntaxError) -> (j: usize)
    requires
        ready(src@, i, *old(far)),
    ensures
        ran(rule::fragment(src@, i as int, old(far)@), Some(j), *final(far)),
        stays(src@, i, Some(j), *final(far)),
{
    match tok(src, i, '#', far) {
        None => i,
        Some(j) => units(src, j, Class::Query, far),
    }
}

/// A URI reference; the offset after it.
pub fn reference(src: &Source, i: usize, far: &mut SyntaxError) -> (r: Option<usize>)
    requires
        ready(src@, i, *old(far)),
    ensures
        ran(rule::reference(src@, i as int, old(far)@), r, *final(far)),
        stays(src@, i, r, *final(far)),
        r matches Some(j) ==> i < j,
{
    proof {
        reveal(rule::reference);
    }
    let j = match absolute(src, i, far) {
        Some(j) => j,
        None => match slashed(src, i, far) {
            Some(j) => j,
            None => rootless(src, i, Class::PlainAt, far)?,
        },
    };
    let j = query(src, j, far);
    Some(fragment(src, j, far))
}

/// A URI reference; its text, unchanged, and the offset after it.
pub fn url(src: &Source, i: usize, far: &mut SyntaxError) -> (r: Option<(String, usize)>)
    requires
        ready(src@, i, *old(far)),
    ensures
        ran(rule::url(src@, i as int, old(far)@), ended(r), *final(far)),
        stays(src@, i, ended(r), *final(far)),
        r matches Some((t, j)) ==> t@ == rule::url(src@, i as int, old(far)@).val(),
        r matches Some((t, j)) ==> i < j && t@.len() > 0,
{
    let j = reference(src, i, far)?;
    Some((src.slice(i, j), j))
}

/// Takes a URI reference from the start of `text`, as far as it goes, and
/// returns it unchanged, with the number of characters it took: the result
/// is a prefix of `text`. What follows it in `text` is not looked at.
///
/// It fails where no URI reference starts `text`, with the furthest
/// failure of the attempt for its one error.
pub fn parser(text: &str) -> (r: Result<(String, usize), Vec<SyntaxError>>)
    ensures
        match r {
            Ok((t, n)) => {
                let u = rule::url(text@, 0, Failure::none());
                u.ok() && t@ == u.val() && n == u.end() && 0 < n <= text@.len() && t@
                    == text@.subrange(0, n as int)
            },
            Err(e) => {
                let u = rule::url(text@, 0, Failure::none());
                !u.ok() && e@.len() == 1 && e[0].wf() && e[0]@ == u.far && e[0].offset
                    <= text@.len()
            },
        },
{
    let src = Source::new(text);
    let mut far = SyntaxError::new();
    match url(&src, 0, &mut far) {
        Some(found) => Ok(found),
        None => Err(vec![far]),
    }
}

/// Recognizes `text` as a URI reference and returns it unchanged.
///
/// It fails where `text` is none from its first character to its last,
/// with the furthest failure of the attempt for its one error.
pub fn parse(text: &str) -> (r: Result<String, Vec<SyntaxError>>)
    ensures
        match r {
            Ok(t) => rule::entire(text@).ok() && t@ == text@,
            Err(e) => !rule::entire(text@).ok() && e@.len() == 1 && e[0].wf() && e[0]@
                == rule::entire(text@).far && e[0].offset <= text@.len(),
        },
{
    let src = Source::new(text);
    let mut far = SyntaxError::new();
    match url(&src, 0, &mut far) {
        Some((t, j)) => match eof(&src, j, &mut far) {
            Some(_) => {
                assert(text@.subrange(0, text@.len() as int) =~= text@);
                Ok(t)
            },
            None => Err(vec![far]),
        },
        None => Err(vec![far]),
    }
}

} // verus!
