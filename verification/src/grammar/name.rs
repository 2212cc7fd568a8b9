//! The grammar of blanks and of names.

use vstd::prelude::*;
use crate::class::Class;
use crate::failure::Failure;
use crate::model::is_name;
use crate::step::{accept, one, run, Step};

verus! {

/// Spaces and tabs, as many as there are.
pub open spec fn ws(s: Seq<char>, i: int, far: Failure) -> Step<()> {
    run(s, i, Class::Blank, far)
}

/// A letter or digit, with one of `-`, `_` and `.` before it or without.
pub open spec fn link(s: Seq<char>, i: int, far: Failure) -> Step<()> {
    let j = one(s, i, Class::Joiner, far).or_put((), i);
    j.and(one(s, j.end(), Class::Alnum, j.far))
}

/// As many links as there are.
pub open spec fn links(s: Seq<char>, i: int, far: Failure) -> Step<()>
    decreases s.len() - i,
{
    let l = link(s, i, far);
    if l.ok() && i < l.end() <= s.len() {
        links(s, l.end(), l.far)
    } else {
        accept((), i, l.far)
    }
}

/// A name: letters and digits, with single characters of `-`, `_` and `.`
/// between them only. Its value is its text.
pub open spec fn name(s: Seq<char>, i: int, far: Failure) -> Step<Seq<char>> {
    let a = one(s, i, Class::Alnum, far);
    let r = a.and(links(s, i + 1, a.far));
    r.put(s.subrange(i, r.end()))
}

/// Whether from position `i` up to position `j` of `s` there are letters,
/// digits and characters of `-_.` only, with a letter or digit before `j`
/// after each of the latter.
pub open spec fn linked(s: Seq<char>, i: int, j: int) -> bool {
    &&& forall|k: int| i <= k < j ==> Class::Alnum.has(#[trigger] s[k]) || Class::Joiner.has(s[k])
    &&& forall|k: int|
        i <= k < j && Class::Joiner.has(#[trigger] s[k]) ==> k + 1 < j && Class::Alnum.has(
            s[k + 1],
        )
}

/// What [`links`] takes is linked, and it stays within the input.
pub proof fn lemma_links(s: Seq<char>, i: int, far: Failure)
    requires
        0 <= i <= s.len(),
    ensures
        links(s, i, far).ok(),
        i <= links(s, i, far).end() <= s.len(),
        linked(s, i, links(s, i, far).end()),
    decreases s.len() - i,
{
    let l = link(s, i, far);
    if l.ok() && i < l.end() <= s.len() {
        lemma_links(s, l.end(), l.far);
    }
}

/// What the grammar takes for a name is a name.
pub proof fn lemma_name(s: Seq<char>, i: int, far: Failure)
    requires
        0 <= i <= s.len(),
        name(s, i, far).ok(),
    ensures
        i < name(s, i, far).end() <= s.len(),
        is_name(name(s, i, far).val()),
{
    lemma_links(s, i + 1, one(s, i, Class::Alnum, far).far);
    let e = name(s, i, far).end();
    let t = s.subrange(i, e);
    assert forall|k: int| 0 <= k < t.len() implies #[trigger] t[k] == s[i + k] by {}
    assert forall|k: int| 0 < k < t.len() implies Class::Alnum.has(#[trigger] t[k])
        || Class::Joiner.has(t[k]) by {
        assert(t[k] == s[i + k]);
    }
    assert forall|k: int| 0 < k < t.len() && Class::Joiner.has(#[trigger] t[k]) implies k + 1
        < t.len() && Class::Alnum.has(t[k + 1]) by {
        assert(t[k] == s[i + k]);
        assert(Class::Joiner.has(s[i + k]));
        assert(t[k + 1] == s[i + k + 1]);
    }
}

} // verus!
