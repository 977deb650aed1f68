//! The boundary to the `regex` crate: the only place where a pattern is
//! compiled and run. Nothing here is proved; each contract records what the
//! crate's documentation says.
use vstd::prelude::*;

verus! {

/// `regex::Error`, the error of `regex::Regex::new`. It is carried through
/// unread.
#[verifier::external_type_specification]
#[verifier::external_body]
pub struct ExRegexError(regex::Error);

/// Whether `regex::Regex::new` accepts `pattern`.
pub uninterp spec fn regex_accepts(pattern: Seq<char>) -> bool;

/// The texts of the successive non-overlapping matches that
/// `regex::Regex::find_iter` yields for `pattern` in `text`, in order.
pub uninterp spec fn regex_matches(pattern: Seq<char>, text: Seq<char>) -> Seq<Seq<char>>;

/// What `regex::Regex::captures` reports for the first match of `pattern` in
/// `text`: `None` when there is no match, else one entry per capture group
/// (group 0 being the whole match), `None` for a group that took no part.
pub uninterp spec fn regex_groups(pattern: Seq<char>, text: Seq<char>) -> Option<
    Seq<Option<Seq<char>>>,
>;

/// The views of a vector of strings.
pub open spec fn texts(v: Seq<String>) -> Seq<Seq<char>> {
    Seq::new(v.len(), |i: int| v[i]@)
}

/// The views of a vector of optional strings.
pub open spec fn optional_texts(v: Seq<Option<String>>) -> Seq<Option<Seq<char>>> {
    Seq::new(
        v.len(),
        |i: int|
            match v[i] {
                Some(s) => Some(s@),
                None => None,
            },
    )
}

/// Compiles `pattern` with `regex::Regex::new` and collects the matched
/// substrings of `regex::Regex::find_iter` on `text`. The contract claims
/// only that compilation and matching are functions of their arguments: the
/// call fails exactly when the pattern is not accepted, and otherwise returns
/// the matches that the crate finds.
#[verifier::external_body]
pub(crate) fn find_all(pattern: &str, text: &str) -> (r: Result<Vec<String>, regex::Error>)
    ensures
        r is Ok <==> regex_accepts(pattern@),
        r matches Ok(v) ==> texts(v@) == regex_matches(pattern@, text@),
{
    let re = regex::Regex::new(pattern)?;
    Ok(re.find_iter(text).map(|m| m.as_str().to_string()).collect())
}

/// Compiles `pattern` with `regex::Regex::new` and asks
/// `regex::Regex::captures` for the first match in `text`, copying out the
/// text of every group. The contract claims only that the answer is a
/// function of the arguments.
#[verifier::external_body]
pub(crate) fn first_groups(pattern: &str, text: &str) -> (r: Result<
    Option<Vec<Option<String>>>,
    regex::Error,
>)
    ensures
        r is Ok <==> regex_accepts(pattern@),
        r matches Ok(found) ==> match found {
            Some(v) => regex_groups(pattern@, text@) == Some(optional_texts(v@)),
            None => regex_groups(pattern@, text@) is None,
        },
{
    let re = regex::Regex::new(pattern)?;
    Ok(re.captures(text).map(|c| c.iter().map(|g| g.map(|m| m.as_str().to_string())).collect()))
}

} // verus!
