//! Text normalization. Case folding and whitespace trimming are done by the
//! standard library; their results are given names so that the contracts of
//! the validators can speak about the normalized values exactly.

use vstd::prelude::*;

verus! {

/// UTF-8 byte length of a string value, as `str::len` reports it. Field
/// bounds in this crate are byte bounds, as the store enforces them.
pub open spec fn byte_len(s: Seq<char>) -> usize {
    vstd::utf8::encode_utf8(s).len() as usize
}

/// What `str::trim` returns: the input without leading and trailing
/// whitespace.
pub uninterp spec fn trimmed_of(s: Seq<char>) -> Seq<char>;

/// What `str::to_lowercase` returns for the given characters.
pub uninterp spec fn lower_of(s: Seq<char>) -> Seq<char>;

/// What `str::to_uppercase` returns for the given characters.
pub uninterp spec fn upper_of(s: Seq<char>) -> Seq<char>;

/// What `str::trim_matches(' ')` returns: the input without leading and
/// trailing space characters.
pub uninterp spec fn trim_spaces_of(s: Seq<char>) -> Seq<char>;

/// Relies on `str::trim`: removes leading and trailing whitespace, so the
/// result of an empty input is empty and the result never grows.
#[verifier::external_body]
pub fn trim(s: &str) -> (r: String)
    ensures
        r@ == trimmed_of(s@),
        s@.len() == 0 ==> r@.len() == 0,
        r@.len() <= s@.len(),
{
    s.trim().to_string()
}

/// Relies on `str::to_lowercase`: the result depends on the characters alone,
/// and an empty input stays empty.
#[verifier::external_body]
pub fn to_lowercase(s: &str) -> (r: String)
    ensures
        r@ == lower_of(s@),
        s@.len() == 0 ==> r@.len() == 0,
{
    s.to_lowercase()
}

/// Relies on `str::to_uppercase`: the result depends on the characters alone,
/// and an empty input stays empty.
#[verifier::external_body]
pub fn to_uppercase(s: &str) -> (r: String)
    ensures
        r@ == upper_of(s@),
        s@.len() == 0 ==> r@.len() == 0,
{
    s.to_uppercase()
}

/// Relies on `str::trim_matches`: removes leading and trailing space
/// characters, so the result of an empty input is empty and the result never
/// grows.
#[verifier::external_body]
pub fn trim_spaces(s: &str) -> (r: String)
    ensures
        r@ == trim_spaces_of(s@),
        s@.len() == 0 ==> r@.len() == 0,
        r@.len() <= s@.len(),
{
    s.trim_matches(' ').to_string()
}

/// Lower-cased, trimmed form of an email address: the key under which a user
/// row is looked up and stored.
pub open spec fn normalized_email(e: Seq<char>) -> Seq<char> {
    lower_of(trimmed_of(e))
}

/// Normalizes an email address: trim, then lower-case.
pub fn normalize_email(e: &str) -> (r: String)
    ensures
        r@ == normalized_email(e@),
        e@.len() == 0 ==> r@.len() == 0,
{
    let t = trim(e);
    to_lowercase(t.as_str())
}

} // verus!
