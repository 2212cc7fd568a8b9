//! The input of a parse: a text together with its characters, so that a
//! character can be read by its offset in constant time.

use vstd::prelude::*;

verus! {

/// A text that has been split into its characters.
pub struct Source<'a> {
    text: &'a str,
    chars: Vec<char>,
}

impl<'a> View for Source<'a> {
    type V = Seq<char>;

    closed spec fn view(&self) -> Seq<char> {
        self.chars@
    }
}

impl<'a> Source<'a> {
    #[verifier::type_invariant]
    spec fn agrees(&self) -> bool {
        self.text@ == self.chars@
    }

    /// Splits `text` into its characters.
    pub fn new(text: &'a str) -> (src: Source<'a>)
        ensures
            src@ == text@,
    {
        broadcast use vstd::string::axiom_spec_iter;

        let mut chars: Vec<char> = Vec::new();
        let all = text.chars();
        for c in it: all
            invariant
                it.seq() == text@,
                chars@ == it.seq().take(it.index()),
        {
            chars.push(c);
        }
        assert(text@.take(text@.len() as int) =~= text@);
        Source { text, chars }
    }

    /// The number of characters.
    pub fn len(&self) -> (n: usize)
        ensures
            n == self@.len(),
    {
        self.chars.len()
    }

    /// The character at offset `i`, if there is one.
    pub fn peek(&self, i: usize) -> (c: Option<char>)
        ensures
            c == (if i < self@.len() {
                Some(self@[i as int])
            } else {
                None
            }),
            self@.len() <= usize::MAX,
    {
        if i < self.chars.len() {
            Some(self.chars[i])
        } else {
            None
        }
    }

    /// The characters from offset `from` up to, not including, offset `to`.
    pub fn slice(&self, from: usize, to: usize) -> (s: String)
        requires
            from <= to <= self@.len(),
        ensures
            s@ == self@.subrange(from as int, to as int),
    {
        proof {
            use_type_invariant(self);
        }
        self.text.substring_char(from, to).to_owned()
    }
}

} // verus!
