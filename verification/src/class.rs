//! The character classes of the grammar.

use vstd::prelude::*;

verus! {

/// An ASCII letter.
pub open spec fn is_alpha(c: char) -> bool {
    ('a' <= c && c <= 'z') || ('A' <= c && c <= 'Z')
}

/// An ASCII decimal digit.
pub open spec fn is_digit(c: char) -> bool {
    '0' <= c && c <= '9'
}

/// An ASCII letter or decimal digit.
pub open spec fn is_alnum(c: char) -> bool {
    is_alpha(c) || is_digit(c)
}

/// An ASCII hexadecimal digit, of either case.
pub open spec fn is_hex(c: char) -> bool {
    is_digit(c) || ('a' <= c && c <= 'f') || ('A' <= c && c <= 'F')
}

/// An unreserved character or a sub-delimiter of a URI.
pub open spec fn is_plain(c: char) -> bool {
    is_alnum(c) || c == '-' || c == '.' || c == '_' || c == '~' || c == '!' || c == '$' || c == '&'
        || c == '\'' || c == '(' || c == ')' || c == '*' || c == '+' || c == ',' || c == ';' || c
        == '='
}

/// A character that may stand inside a quoted marker string, whichever quote
/// encloses it. Neither quote is among them.
pub open spec fn is_quotable(c: char) -> bool {
    is_alnum(c) || c == ' ' || c == '\t' || c == '(' || c == ')' || c == '.' || c == '{' || c
        == '}' || c == '-' || c == '_' || c == '*' || c == '#' || c == ':' || c == ';' || c == ','
        || c == '/' || c == '?' || c == '[' || c == ']' || c == '!' || c == '~' || c == '`' || c
        == '@' || c == '$' || c == '%' || c == '^' || c == '&' || c == '=' || c == '+' || c == '|'
        || c == '<' || c == '>'
}

/// A set of characters that the grammar asks for in one step.
#[derive(Clone, Copy, Debug, PartialEq, Eq, Structural)]
pub enum Class {
    /// A space or a horizontal tab.
    Blank,
    /// An ASCII letter.
    Alpha,
    /// An ASCII decimal digit.
    Digit,
    /// A decimal digit from `0` to `4`.
    UpToFour,
    /// A decimal digit from `0` to `5`.
    UpToFive,
    /// A decimal digit other than `0`.
    NonZero,
    /// An ASCII hexadecimal digit.
    Hex,
    /// An ASCII letter or decimal digit.
    Alnum,
    /// One of `-`, `_` and `.`, which may stand between two characters of a name.
    Joiner,
    /// A character of a version: a letter, a digit, or one of `-_.*+!`.
    Version,
    /// A character of a URI scheme after its first letter.
    Scheme,
    /// An unreserved character or a sub-delimiter.
    Plain,
    /// A plain character or `:`.
    PlainColon,
    /// A plain character or `@`.
    PlainAt,
    /// A plain character, `:` or `@`: a character of a path segment.
    Segment,
    /// A segment character, `/` or `?`: a character of a query or fragment.
    Query,
    /// A character inside a marker string in single quotes.
    InSingle,
    /// A character inside a marker string in double quotes.
    InDouble,
}

impl Class {
    /// Whether `c` belongs to the class.
    pub open spec fn has(self, c: char) -> bool {
        match self {
            Class::Blank => c == ' ' || c == '\t',
            Class::Alpha => is_alpha(c),
            Class::Digit => is_digit(c),
            Class::UpToFour => '0' <= c && c <= '4',
            Class::UpToFive => '0' <= c && c <= '5',
            Class::NonZero => '1' <= c && c <= '9',
            Class::Hex => is_hex(c),
            Class::Alnum => is_alnum(c),
            Class::Joiner => c == '-' || c == '_' || c == '.',
            Class::Version => is_alnum(c) || c == '-' || c == '_' || c == '.' || c == '*' || c
                == '+' || c == '!',
            Class::Scheme => is_alnum(c) || c == '+' || c == '-' || c == '.',
            Class::Plain => is_plain(c),
            Class::PlainColon => is_plain(c) || c == ':',
            Class::PlainAt => is_plain(c) || c == '@',
            Class::Segment => is_plain(c) || c == ':' || c == '@',
            Class::Query => is_plain(c) || c == ':' || c == '@' || c == '/' || c == '?',
            Class::InSingle => is_quotable(c) || c == '"',
            Class::InDouble => is_quotable(c) || c == '\'',
        }
    }

    /// Tests whether `c` belongs to the class.
    pub fn test(self, c: char) -> (b: bool)
        ensures
            b == self.has(c),
    {
        match self {
            Class::Blank => c == ' ' || c == '\t',
            Class::Alpha => alpha(c),
            Class::Digit => digit(c),
            Class::UpToFour => '0' <= c && c <= '4',
            Class::UpToFive => '0' <= c && c <= '5',
            Class::NonZero => '1' <= c && c <= '9',
            Class::Hex => digit(c) || ('a' <= c && c <= 'f') || ('A' <= c && c <= 'F'),
            Class::Alnum => alpha(c) || digit(c),
            Class::Joiner => c == '-' || c == '_' || c == '.',
            Class::Version => alpha(c) || digit(c) || c == '-' || c == '_' || c == '.' || c == '*'
                || c == '+' || c == '!',
            Class::Scheme => alpha(c) || digit(c) || c == '+' || c == '-' || c == '.',
            Class::Plain => plain(c),
            Class::PlainColon => plain(c) || c == ':',
            Class::PlainAt => plain(c) || c == '@',
            Class::Segment => plain(c) || c == ':' || c == '@',
            Class::Query => plain(c) || c == ':' || c == '@' || c == '/' || c == '?',
            Class::InSingle => quotable(c) || c == '"',
            Class::InDouble => quotable(c) || c == '\'',
        }
    }
}

/// Tests for an ASCII letter.
pub fn alpha(c: char) -> (b: bool)
    ensures
        b == is_alpha(c),
{
    ('a' <= c && c <= 'z') || ('A' <= c && c <= 'Z')
}

/// Tests for an ASCII decimal digit.
pub fn digit(c: char) -> (b: bool)
    ensures
        b == is_digit(c),
{
    '0' <= c && c <= '9'
}

/// Tests for an unreserved character or a sub-delimiter of a URI.
pub fn plain(c: char) -> (b: bool)
    ensures
        b == is_plain(c),
{
    alpha(c) || digit(c) || c == '-' || c == '.' || c == '_' || c == '~' || c == '!' || c == '$'
        || c == '&' || c == '\'' || c == '(' || c == ')' || c == '*' || c == '+' || c == ','
        || c == ';' || c == '='
}

/// Tests for a character that may stand inside either kind of marker string.
pub fn quotable(c: char) -> (b: bool)
    ensures
        b == is_quotable(c),
{
    alpha(c) || digit(c) || c == ' ' || c == '\t' || c == '(' || c == ')' || c == '.' || c == '{'
        || c == '}' || c == '-' || c == '_' || c == '*' || c == '#' || c == ':' || c == ';' || c
        == ',' || c == '/' || c == '?' || c == '[' || c == ']' || c == '!' || c == '~' || c == '`'
        || c == '@' || c == '$' || c == '%' || c == '^' || c == '&' || c == '=' || c == '+' || c
        == '|' || c == '<' || c == '>'
}

} // verus!
