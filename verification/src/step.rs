//! The outcome of one step of the grammar, and the ways in which steps
//! combine. Everything here is mathematics: the executable counterparts of
//! the elementary steps are in [`crate::scan`].
//!
//! A step is taken at a position of the input. It either succeeds, with a
//! value and the position after what it consumed, or fails. Either way it
//! may have tried things that failed: an alternative that was given up
//! still tells where the input stopped making sense. So every step is
//! given the furthest failure met before it, and its outcome holds the
//! furthest failure met up to its end.

use vstd::prelude::*;
use crate::class::Class;
use crate::failure::{Expected, Failure, SyntaxError};

verus! {

/// The outcome of a step.
pub struct Step<T> {
    /// The value and the end position, where the step succeeded.
    pub out: Option<(T, int)>,
    /// The furthest failure met so far, this step included.
    pub far: Failure,
}

/// The outcome of a step that succeeds with `val` and ends at `end`.
pub open spec fn accept<T>(val: T, end: int, far: Failure) -> Step<T> {
    Step { out: Some((val, end)), far }
}

/// The outcome of a step that fails.
pub open spec fn reject<T>(far: Failure) -> Step<T> {
    Step { out: None, far }
}

impl<T> Step<T> {
    /// Whether the step succeeded.
    pub open spec fn ok(self) -> bool {
        self.out is Some
    }

    /// The value of a step that succeeded.
    pub open spec fn val(self) -> T {
        (self.out->0).0
    }

    /// The position after a step that succeeded.
    pub open spec fn end(self) -> int {
        (self.out->0).1
    }

    /// Sequence: this step, and then `next`, which was taken where this
    /// one ended.
    pub open spec fn and<U>(self, next: Step<U>) -> Step<U> {
        if self.ok() {
            next
        } else {
            reject(self.far)
        }
    }

    /// The same outcome with another value.
    pub open spec fn put<U>(self, val: U) -> Step<U> {
        Step {
            out: if self.ok() {
                Some((val, self.end()))
            } else {
                None
            },
            far: self.far,
        }
    }

    /// Ordered choice: this step, or else `other`, which was taken where
    /// this one was.
    pub open spec fn or(self, other: Step<T>) -> Step<T> {
        if self.ok() {
            self
        } else {
            other
        }
    }

    /// This step, or else nothing consumed at `at` and `val` for a value.
    pub open spec fn or_put(self, val: T, at: int) -> Step<T> {
        if self.ok() {
            self
        } else {
            accept(val, at, self.far)
        }
    }

    /// This step if it succeeds, or else nothing consumed at `at`.
    pub open spec fn opt(self, at: int) -> Step<Option<T>> {
        if self.ok() {
            accept(Some(self.val()), self.end(), self.far)
        } else {
            accept(None, at, self.far)
        }
    }

    /// Lookahead: this step, ending at `at` when it succeeds.
    pub open spec fn peek(self, at: int) -> Step<T> {
        if self.ok() {
            accept(self.val(), at, self.far)
        } else {
            self
        }
    }
}

/// The character `c` at position `i`.
pub open spec fn tok(s: Seq<char>, i: int, c: char, far: Failure) -> Step<()> {
    if 0 <= i < s.len() && s[i] == c {
        accept((), i + 1, far)
    } else {
        reject(far.want(i, Expected::Char(c)))
    }
}

/// One character of `class` at position `i`.
pub open spec fn one(s: Seq<char>, i: int, class: Class, far: Failure) -> Step<()> {
    if 0 <= i < s.len() && class.has(s[i]) {
        accept((), i + 1, far)
    } else {
        reject(far.miss(i))
    }
}

/// The first position from `i` on that holds no character of `class`.
pub open spec fn skip(s: Seq<char>, i: int, class: Class) -> int
    decreases s.len() - i,
{
    if 0 <= i < s.len() && class.has(s[i]) {
        skip(s, i + 1, class)
    } else {
        i
    }
}

/// Whether every character of `s` from position `i` up to, not including,
/// position `j` is of `class`.
pub open spec fn all_of(s: Seq<char>, i: int, j: int, class: Class) -> bool {
    forall|k: int| i <= k < j ==> class.has(#[trigger] s[k])
}

/// [`skip`] stops at the first character from `i` on that is not of the
/// class, or at the end of the input.
pub proof fn lemma_skip(s: Seq<char>, i: int, class: Class)
    requires
        0 <= i <= s.len(),
    ensures
        i <= skip(s, i, class) <= s.len(),
        all_of(s, i, skip(s, i, class), class),
        skip(s, i, class) < s.len() ==> !class.has(s[skip(s, i, class)]),
    decreases s.len() - i,
{
    if i < s.len() && class.has(s[i]) {
        lemma_skip(s, i + 1, class);
    }
}

/// A part of the input holds the characters that the input holds there.
pub proof fn lemma_all_of_part(s: Seq<char>, i: int, j: int, class: Class)
    requires
        0 <= i <= j <= s.len(),
        all_of(s, i, j, class),
    ensures
        all_of(s.subrange(i, j), 0, j - i, class),
{
    assert forall|k: int| 0 <= k < j - i implies class.has(#[trigger] s.subrange(i, j)[k]) by {
        assert(s.subrange(i, j)[k] == s[i + k]);
    }
}

/// The longest run of characters of `class` from position `i` on. It may be
/// empty, so the step always succeeds; what ended it is recorded as a miss.
pub open spec fn run(s: Seq<char>, i: int, class: Class, far: Failure) -> Step<()> {
    accept((), skip(s, i, class), far.miss(skip(s, i, class)))
}

/// A run of at least one character of `class`.
pub open spec fn run1(s: Seq<char>, i: int, class: Class, far: Failure) -> Step<()> {
    let a = one(s, i, class, far);
    a.and(run(s, i + 1, class, a.far))
}

/// How many characters of `w`, from its `k`-th on, are matched one for one
/// by `s` from position `i + k` on, plus `k`.
pub open spec fn agree(s: Seq<char>, i: int, w: Seq<char>, k: int) -> int
    decreases w.len() - k,
{
    if 0 <= k < w.len() && 0 <= i + k < s.len() && s[i + k] == w[k] {
        agree(s, i, w, k + 1)
    } else {
        k
    }
}

/// The characters of `w`, one after the other, from position `i` on. The
/// failure is at the first character that differs.
pub open spec fn lit(s: Seq<char>, i: int, w: Seq<char>, far: Failure) -> Step<()> {
    let k = agree(s, i, w, 0);
    if k >= w.len() {
        accept((), i + w.len(), far)
    } else {
        reject(far.want(i + k, Expected::Char(w[k])))
    }
}

/// The end of the input at position `i`.
pub open spec fn eof(s: Seq<char>, i: int, far: Failure) -> Step<()> {
    if i >= s.len() {
        accept((), i, far)
    } else {
        reject(far.want(i, Expected::End))
    }
}

/// Whether the outcome `step` of a step taken at position `i` with the
/// failure `before` is within bounds: the failure has not gone back, it has
/// not left the input unless it was outside before, and the step, where it
/// succeeded, ends between `i` and the end of the input.
pub open spec fn bounded<T>(step: Step<T>, s: Seq<char>, i: int, before: Failure) -> bool {
    &&& before.at <= step.far.at
    &&& step.far.at <= before.at || step.far.at <= s.len()
    &&& step.ok() ==> i <= step.end() <= s.len()
}

/// What an executable step owes to the step `step` of the grammar: it
/// succeeds exactly when `step` does and ends where `step` ends, and it
/// leaves the error under construction at the furthest failure of `step`.
pub open spec fn ran<T>(step: Step<T>, r: Option<usize>, after: SyntaxError) -> bool {
    &&& after.wf()
    &&& after@ == step.far
    &&& match r {
        Some(j) => step.ok() && step.end() == j,
        None => !step.ok(),
    }
}

/// The offset at which an executable step with a value ended.
pub open spec fn ended<T>(r: Option<(T, usize)>) -> Option<usize> {
    match r {
        Some((_, j)) => Some(j),
        None => None,
    }
}

/// What an executable step with a value owes to the step `step` of the
/// grammar: what [`ran`] says, and a value whose view is that of `step`.
pub open spec fn got<T: View>(step: Step<T::V>, r: Option<(T, usize)>, after: SyntaxError) -> bool {
    &&& ran(step, ended(r), after)
    &&& r matches Some((v, _)) ==> v@ == step.val()
}

/// What an executable step asks for: an offset within the input, and an
/// error under construction that is well formed and lies within it too.
pub open spec fn ready(s: Seq<char>, i: usize, before: SyntaxError) -> bool {
    &&& before.wf()
    &&& before.offset <= s.len()
    &&& i <= s.len()
}

/// What an executable step owes about positions: it does not go back, and
/// neither it nor the error leaves the input.
pub open spec fn stays(s: Seq<char>, i: usize, r: Option<usize>, after: SyntaxError) -> bool {
    &&& after.offset <= s.len()
    &&& r matches Some(j) ==> i <= j <= s.len()
}

} // verus!
