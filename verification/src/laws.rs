//! What holds of the grammar whatever the input.

use vstd::prelude::*;
use crate::bounds;
use crate::class::Class;
use crate::failure::Failure;
use crate::grammar::dependency::{dependency, entire, extras};
use crate::grammar::url;
use crate::grammar::version::comparator;
use crate::model::Comparator;
use crate::step::{agree, skip};

verus! {

/// A URI reference that is recognized is given back as it was written,
/// character for character.
pub proof fn lemma_url_round_trip(s: Seq<char>)
    requires
        url::entire(s).ok(),
    ensures
        url::entire(s).val() == s,
{
    bounds::url::url(s, 0, Failure::none());
    assert(s.subrange(0, s.len() as int) =~= s);
}

/// The text of a URI reference taken at any position is what was consumed
/// there, and it is not empty.
pub proof fn lemma_url_is_echoed(s: Seq<char>, i: int, far: Failure)
    requires
        0 <= i <= s.len(),
        url::url(s, i, far).ok(),
    ensures
        i < url::url(s, i, far).end() <= s.len(),
        url::url(s, i, far).val() == s.subrange(i, url::url(s, i, far).end()),
{
    bounds::url::url(s, i, far);
}

/// A URI reference has to be the whole of the input: the input is one
/// exactly when a reference can be taken from its start and ends where the
/// input ends. What follows a reference makes the whole fail.
pub proof fn lemma_url_input_is_consumed(s: Seq<char>)
    ensures
        url::entire(s).ok() <==> url::url(s, 0, Failure::none()).ok() && url::url(
            s,
            0,
            Failure::none(),
        ).end() == s.len(),
        url::url(s, 0, Failure::none()).ok() && url::url(s, 0, Failure::none()).end() < s.len()
            ==> !url::entire(s).ok(),
{
    bounds::url::url(s, 0, Failure::none());
}

/// A dependency specifier has to be the whole of the input: the input is
/// one exactly when a specifier can be taken from its start and ends where
/// the input ends. So whatever follows a specifier makes the whole fail,
/// with an error that is no nearer to the start than what follows.
pub proof fn lemma_input_is_consumed(s: Seq<char>)
    ensures
        entire(s).ok() <==> dependency(s, 0, Failure::none()).ok() && dependency(
            s,
            0,
            Failure::none(),
        ).end() == s.len(),
        entire(s).ok() ==> entire(s).val() == dependency(s, 0, Failure::none()).val(),
        dependency(s, 0, Failure::none()).ok() && dependency(s, 0, Failure::none()).end()
            < s.len() ==> !entire(s).ok() && entire(s).far.at >= dependency(
            s,
            0,
            Failure::none(),
        ).end(),
{
    bounds::dependency::dependency(s, 0, Failure::none());
}

/// The error of an input that is no dependency specifier lies within the
/// input, its end included; and so does that of one that is no URI
/// reference.
pub proof fn lemma_error_lies_in_input(s: Seq<char>)
    ensures
        0 <= entire(s).far.at <= s.len(),
        0 <= url::entire(s).far.at <= s.len(),
{
    bounds::dependency::dependency(s, 0, Failure::none());
    bounds::url::url(s, 0, Failure::none());
}

/// A specifier starts with a name. Where the input holds no letter or digit
/// after the blanks at its start, be it empty, it is no specifier, and the
/// error is at that place, with nothing to name that was expected there.
pub proof fn lemma_name_is_required(s: Seq<char>)
    requires
        !(skip(s, 0, Class::Blank) < s.len() && Class::Alnum.has(s[skip(s, 0, Class::Blank)])),
    ensures
        !entire(s).ok(),
        entire(s).far == (Failure { at: skip(s, 0, Class::Blank), expected: Seq::empty() }),
{
    reveal(dependency);
    crate::step::lemma_skip(s, 0, Class::Blank);
}

/// Extras are optional: where no `[` stands at `i`, there are none, nothing
/// is consumed, and that is no failure.
pub proof fn lemma_extras_are_optional(s: Seq<char>, i: int, far: Failure)
    requires
        !(0 <= i < s.len() && s[i] == '['),
    ensures
        extras(s, i, far).ok(),
        extras(s, i, far).end() == i,
        extras(s, i, far).val() == Seq::<Seq<char>>::empty(),
{
    reveal(extras);
}

/// Whether the characters of `w` stand in `s` from position `i` on.
pub open spec fn stands(s: Seq<char>, i: int, w: Seq<char>) -> bool {
    agree(s, i, w, 0) >= w.len()
}

/// Of two comparators that start alike, the longer one is taken where it
/// stands: `<=` and `>=` are never read as `<` and `>`, and `===` is never
/// read as `==`.
pub proof fn lemma_longest_comparator(s: Seq<char>, i: int, far: Failure)
    ensures
        stands(s, i, "==="@) ==> comparator(s, i, far).val() == Comparator::Ae && comparator(
            s,
            i,
            far,
        ).end() == i + 3,
        stands(s, i, "<="@) ==> comparator(s, i, far).val() == Comparator::Le && comparator(
            s,
            i,
            far,
        ).end() == i + 2,
        stands(s, i, ">="@) ==> comparator(s, i, far).val() == Comparator::Ge && comparator(
            s,
            i,
            far,
        ).end() == i + 2,
        stands(s, i, "=="@) && !stands(s, i, "==="@) ==> comparator(s, i, far).val()
            == Comparator::Eq && comparator(s, i, far).end() == i + 2,
{
    reveal_strlit("===");
    reveal_strlit("<=");
    reveal_strlit("!=");
    reveal_strlit("==");
    reveal_strlit(">=");
    reveal_strlit("~=");
    reveal_strlit("<");
    reveal_strlit(">");
    reveal_with_fuel(agree, 4);
}

} // verus!
