//! Syntax errors, and how failures add up to the one that is reported.

use vstd::prelude::*;

verus! {

/// Something the grammar would have accepted at the position of an error.
#[derive(Clone, Copy, Debug, PartialEq, Eq, Structural)]
pub enum Expected {
    /// This very character.
    Char(char),
    /// The end of the input.
    End,
}

/// The mathematical content of a syntax error: how far into the input some
/// attempt got before it failed, and what would have let it go on from
/// there, in the order in which it was looked for.
///
/// Of all that fails while an input is parsed, the furthest failure is
/// kept. Failures short of it are dropped, and those at the same position
/// add their expectations to it.
pub struct Failure {
    pub at: int,
    pub expected: Seq<Expected>,
}

impl Failure {
    /// No failure yet.
    pub open spec fn none() -> Failure {
        Failure { at: 0, expected: Seq::empty() }
    }

    /// This failure after a character class did not match at `at`. Nothing
    /// names what was expected there.
    pub open spec fn miss(self, at: int) -> Failure {
        if at > self.at {
            Failure { at, expected: Seq::empty() }
        } else {
            self
        }
    }

    /// This failure after `what` was looked for at `at` and not found.
    pub open spec fn want(self, at: int, what: Expected) -> Failure {
        if at > self.at {
            Failure { at, expected: seq![what] }
        } else if at == self.at && !self.expected.contains(what) {
            Failure { at, expected: self.expected.push(what) }
        } else {
            self
        }
    }

    /// The position is none before the input, and no expectation is listed
    /// twice.
    pub open spec fn wf(self) -> bool {
        self.at >= 0 && self.expected.no_duplicates()
    }
}

/// A miss keeps a failure well formed and moves it to the further of the
/// two positions.
pub proof fn lemma_miss(far: Failure, at: int)
    requires
        far.wf(),
    ensures
        far.miss(at).wf(),
        far.miss(at).at == if at > far.at {
            at
        } else {
            far.at
        },
        at <= far.at ==> far.miss(at) == far,
{
}

/// An expectation that was not met keeps a failure well formed and moves it
/// to the further of the two positions. Where that is the position of the
/// expectation, the expectation is listed; where it is the old position,
/// what was listed still is, in its order.
pub proof fn lemma_want(far: Failure, at: int, what: Expected)
    requires
        far.wf(),
    ensures
        far.want(at, what).wf(),
        far.want(at, what).at == if at > far.at {
            at
        } else {
            far.at
        },
        at >= far.at ==> far.want(at, what).expected.contains(what),
        at <= far.at ==> far.expected.is_prefix_of(far.want(at, what).expected),
        at < far.at ==> far.want(at, what) == far,
{
    if at > far.at {
        assert(seq![what][0] == what);
    } else if at == far.at {
        if !far.expected.contains(what) {
            assert(far.expected.push(what)[far.expected.len() as int] == what);
        }
    }
}

/// A syntax error: the offset, counted in characters, of the furthest point
/// at which any attempted alternative failed, and the expectations that
/// were open there, each listed once, in the order in which they were
/// looked for.
#[derive(Debug, PartialEq, Eq)]
pub struct SyntaxError {
    pub offset: usize,
    pub expected: Vec<Expected>,
}

impl View for SyntaxError {
    type V = Failure;

    open spec fn view(&self) -> Failure {
        Failure { at: self.offset as int, expected: self.expected@ }
    }
}

impl Clone for SyntaxError {
    fn clone(&self) -> (r: SyntaxError)
        ensures
            r@ == self@,
    {
        let expected = self.expected.clone();
        assert(expected@ =~= self.expected@);
        SyntaxError { offset: self.offset, expected }
    }
}

impl SyntaxError {
    /// No expectation is listed twice.
    pub open spec fn wf(&self) -> bool {
        self@.wf()
    }

    /// An error that stands for no failure yet.
    pub fn new() -> (e: SyntaxError)
        ensures
            e.wf(),
            e@ == Failure::none(),
    {
        SyntaxError { offset: 0, expected: Vec::new() }
    }

    /// Whether `what` is among the expectations.
    pub fn expects(&self, what: Expected) -> (b: bool)
        ensures
            b == self@.expected.contains(what),
    {
        let mut k: usize = 0;
        while k < self.expected.len()
            invariant
                k <= self.expected.len(),
                forall|j: int| 0 <= j < k ==> self.expected@[j] != what,
            decreases self.expected.len() - k,
        {
            if self.expected[k] == what {
                return true;
            }
            k += 1;
        }
        false
    }

    /// Records that a character class did not match at `at`.
    pub fn miss(&mut self, at: usize)
        requires
            old(self).wf(),
        ensures
            final(self).wf(),
            final(self)@ == old(self)@.miss(at as int),
    {
        if at > self.offset {
            self.offset = at;
            self.expected = Vec::new();
        }
    }

    /// Records that `what` was looked for at `at` and not found.
    pub fn want(&mut self, at: usize, what: Expected)
        requires
            old(self).wf(),
        ensures
            final(self).wf(),
            final(self)@ == old(self)@.want(at as int, what),
    {
        proof {
            lemma_want(old(self)@, at as int, what);
        }
        if at > self.offset {
            self.offset = at;
            self.expected = Vec::new();
            self.expected.push(what);
            assert(self.expected@ =~= seq![what]);
        } else if at == self.offset {
            if !self.expects(what) {
                self.expected.push(what);
            }
        }
    }
}

} // verus!
