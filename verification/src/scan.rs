//! The elementary steps of the grammar, executable.

use vstd::prelude::*;
use crate::class::Class;
use crate::failure::{Expected, SyntaxError};
use crate::source::Source;
use crate::step;
use crate::step::{ran, ready, stays};

verus! {

/// Matches the character `c` at offset `i`.
pub fn tok(src: &Source, i: usize, c: char, far: &mut SyntaxError) -> (r: Option<usize>)
    requires
        ready(src@, i, *old(far)),
    ensures
        ran(step::tok(src@, i as int, c, old(far)@), r, *final(far)),
        stays(src@, i, r, *final(far)),
{
    let hit = match src.peek(i) {
        Some(d) => d == c,
        None => false,
    };
    if hit {
        Some(i + 1)
    } else {
        far.want(i, Expected::Char(c));
        None
    }
}

/// Matches one character of `class` at offset `i`.
pub fn one(src: &Source, i: usize, class: Class, far: &mut SyntaxError) -> (r: Option<usize>)
    requires
        ready(src@, i, *old(far)),
    ensures
        ran(step::one(src@, i as int, class, old(far)@), r, *final(far)),
        stays(src@, i, r, *final(far)),
{
    let hit = match src.peek(i) {
        Some(d) => class.test(d),
        None => false,
    };
    if hit {
        Some(i + 1)
    } else {
        far.miss(i);
        None
    }
}

/// Skips the longest run of characters of `class` from offset `i` on.
pub fn run(src: &Source, i: usize, class: Class, far: &mut SyntaxError) -> (j: usize)
    requires
        ready(src@, i, *old(far)),
    ensures
        ran(step::run(src@, i as int, class, old(far)@), Some(j), *final(far)),
        stays(src@, i, Some(j), *final(far)),
        step::all_of(src@, i as int, j as int, class),
{
    proof {
        step::lemma_skip(src@, i as int, class);
    }
    let mut j = i;
    loop
        invariant
            i <= j <= src@.len(),
            step::skip(src@, j as int, class) == step::skip(src@, i as int, class),
            *far == *old(far),
        ensures
            j == step::skip(src@, i as int, class),
        decreases src@.len() - j,
    {
        let hit = match src.peek(j) {
            Some(d) => class.test(d),
            None => false,
        };
        if !hit {
            break ;
        }
        j += 1;
    }
    far.miss(j);
    j
}

/// Matches at least one character of `class` from offset `i` on, and then
/// as many as there are.
pub fn run1(src: &Source, i: usize, class: Class, far: &mut SyntaxError) -> (r: Option<usize>)
    requires
        ready(src@, i, *old(far)),
    ensures
        ran(step::run1(src@, i as int, class, old(far)@), r, *final(far)),
        stays(src@, i, r, *final(far)),
        r matches Some(j) ==> i < j && step::all_of(src@, i as int, j as int, class),
{
    match one(src, i, class, far) {
        None => None,
        Some(j) => Some(run(src, j, class, far)),
    }
}

/// Matches the characters of `w`, one after the other, from offset `i` on.
pub fn word(src: &Source, i: usize, w: &str, far: &mut SyntaxError) -> (r: Option<usize>)
    requires
        ready(src@, i, *old(far)),
    ensures
        ran(step::lit(src@, i as int, w@, old(far)@), r, *final(far)),
        stays(src@, i, r, *final(far)),
{
    let len = src.len();
    let n = w.unicode_len();
    let mut k: usize = 0;
    while k < n
        invariant
            len == src@.len(),
            n == w@.len(),
            k <= n,
            i + k <= len,
            step::agree(src@, i as int, w@, k as int) == step::agree(src@, i as int, w@, 0),
            *far == *old(far),
            far.wf(),
            far.offset <= len,
        decreases n - k,
    {
        let c = w.get_char(k);
        let hit = match src.peek(i + k) {
            Some(d) => d == c,
            None => false,
        };
        if !hit {
            far.want(i + k, Expected::Char(c));
            return None;
        }
        k += 1;
    }
    Some(i + n)
}

/// Matches the end of the input at offset `i`.
pub fn eof(src: &Source, i: usize, far: &mut SyntaxError) -> (r: Option<usize>)
    requires
        ready(src@, i, *old(far)),
    ensures
        ran(step::eof(src@, i as int, old(far)@), r, *final(far)),
        stays(src@, i, r, *final(far)),
{
    if i >= src.len() {
        Some(i)
    } else {
        far.want(i, Expected::End);
        None
    }
}

} // verus!
