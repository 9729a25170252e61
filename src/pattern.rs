//! Regular-expression search over text, as the regex crate performs it.
use vstd::prelude::*;

verus! {

/// What a search for `pattern` anywhere in `text` gives: `None` where the
/// pattern does not compile, else whether some part of `text` matches.
pub uninterp spec fn regex_search(pattern: Seq<char>, text: Seq<char>) -> Option<bool>;

/// Relies on regex::Regex::new to compile `pattern` and on
/// regex::Regex::is_match to look for a match anywhere in `text`; both
/// depend on their arguments alone.
#[verifier::external_body]
pub(crate) fn search(pattern: &str, text: &str) -> (r: Option<bool>)
    ensures
        r == regex_search(pattern@, text@),
{
    match regex::Regex::new(pattern) {
        Ok(re) => Some(re.is_match(text)),
        Err(_) => None,
    }
}

/// Whether `pattern` compiles and finds a match in `text`.
pub open spec fn found(pattern: Seq<char>, text: Seq<char>) -> bool {
    regex_search(pattern, text) == Some(true)
}

} // verus!
