//! Text operations on record fields: the std string calls that the record
//! logic relies on, each with what its documentation promises.
use vstd::prelude::*;

verus! {

/// The part of `s` before the first `c` and the part after it, or `None`
/// when `c` does not occur in `s`.
pub open spec fn split_first(s: Seq<char>, c: char) -> Option<(Seq<char>, Seq<char>)>
    decreases s.len(),
{
    if s.len() == 0 {
        None
    } else if s[0] == c {
        Some((Seq::empty(), s.drop_first()))
    } else {
        match split_first(s.drop_first(), c) {
            Some(p) => Some((seq![s[0]] + p.0, p.1)),
            None => None,
        }
    }
}

/// `s` with one leading `c` removed, or `None` when `s` does not start with `c`.
pub open spec fn strip_first(s: Seq<char>, c: char) -> Option<Seq<char>> {
    if s.len() > 0 && s[0] == c {
        Some(s.drop_first())
    } else {
        None
    }
}

/// `s` with one trailing `c` removed, or `None` when `s` does not end with `c`.
pub open spec fn strip_last(s: Seq<char>, c: char) -> Option<Seq<char>> {
    if s.len() > 0 && s.last() == c {
        Some(s.drop_last())
    } else {
        None
    }
}

/// Whether `t` is a suffix of `s`.
pub open spec fn has_suffix(s: Seq<char>, t: Seq<char>) -> bool {
    t.len() <= s.len() && s.subrange(s.len() - t.len(), s.len() as int) == t
}

/// What `str::trim` leaves of a text: it drops leading and trailing
/// Unicode white space.
pub uninterp spec fn trim_of(s: Seq<char>) -> Seq<char>;

/// What `str::to_uppercase` makes of a text, by Unicode case mapping.
pub uninterp spec fn upper_of(s: Seq<char>) -> Seq<char>;

/// What `str::to_lowercase` makes of a text, by Unicode case mapping.
pub uninterp spec fn lower_of(s: Seq<char>) -> Seq<char>;

/// The first white-space separated word of a text, as
/// `str::split_whitespace().next()` gives it.
pub uninterp spec fn first_word_of(s: Seq<char>) -> Option<Seq<char>>;

/// Relies on `str::split_once` with a `char` pattern: it splits at the first
/// occurrence of the character.
#[verifier::external_body]
pub(crate) fn split_once_char(s: &str, c: char) -> (r: Option<(String, String)>)
    ensures
        match r {
            None => split_first(s@, c) is None,
            Some(p) => split_first(s@, c) == Some((p.0@, p.1@)),
        },
{
    match s.split_once(c) {
        Some((a, b)) => Some((a.to_string(), b.to_string())),
        None => None,
    }
}

/// Relies on `str::strip_prefix` with a `char` pattern: it removes one
/// leading occurrence of the character.
#[verifier::external_body]
pub(crate) fn strip_prefix_char(s: &str, c: char) -> (r: Option<String>)
    ensures
        match r {
            None => strip_first(s@, c) is None,
            Some(t) => strip_first(s@, c) == Some(t@),
        },
{
    match s.strip_prefix(c) {
        Some(t) => Some(t.to_string()),
        None => None,
    }
}

/// Relies on `str::strip_suffix` with a `char` pattern: it removes one
/// trailing occurrence of the character.
#[verifier::external_body]
pub(crate) fn strip_suffix_char(s: &str, c: char) -> (r: Option<String>)
    ensures
        match r {
            None => strip_last(s@, c) is None,
            Some(t) => strip_last(s@, c) == Some(t@),
        },
{
    match s.strip_suffix(c) {
        Some(t) => Some(t.to_string()),
        None => None,
    }
}

/// Relies on `str::ends_with` with a `&str` pattern: whether the pattern is
/// a suffix of the text.
#[verifier::external_body]
pub(crate) fn ends_with_str(s: &str, t: &str) -> (r: bool)
    ensures
        r == has_suffix(s@, t@),
{
    s.ends_with(t)
}

/// Relies on `str::trim`: the text without leading and trailing white space.
#[verifier::external_body]
pub(crate) fn trim(s: &str) -> (r: String)
    ensures
        r@ == trim_of(s@),
{
    s.trim().to_string()
}

/// Relies on `str::to_uppercase`: the text in upper case, character by character.
#[verifier::external_body]
pub(crate) fn to_upper(s: &str) -> (r: String)
    ensures
        r@ == upper_of(s@),
{
    s.to_uppercase()
}

/// Relies on `str::to_lowercase`: the text in lower case, character by character.
#[verifier::external_body]
pub(crate) fn to_lower(s: &str) -> (r: String)
    ensures
        r@ == lower_of(s@),
{
    s.to_lowercase()
}

/// Relies on `str::split_whitespace`, of which only the first item is taken.
#[verifier::external_body]
pub(crate) fn first_word(s: &str) -> (r: Option<String>)
    ensures
        match r {
            None => first_word_of(s@) is None,
            Some(w) => first_word_of(s@) == Some(w@),
        },
{
    match s.split_whitespace().next() {
        Some(w) => Some(w.to_string()),
        None => None,
    }
}

/// Whether a text equals a literal.
pub fn text_is(s: &str, lit: &str) -> (r: bool)
    ensures
        r == (s@ == lit@),
{
    let a = s.to_owned();
    let b = lit.to_owned();
    a == b
}

/// `a`, a dot, then `b`.
pub fn dotted(a: &str, b: &str) -> (r: String)
    ensures
        r@ == a@ + seq!['.'] + b@,
{
    let s = a.to_owned();
    let s = s.concat(".");
    proof {
        reveal_strlit(".");
    }
    s.concat(b)
}

} // verus!
