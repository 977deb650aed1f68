//! Splitting a rule specification into the arguments handed to the tool.
use crate::failure::{Failure, FailureView};
use crate::pattern::{find_all, regex_accepts, regex_matches, texts};
use crate::text::{chars_of, lemma_trim_is, string_of, trim};
use vstd::prelude::*;

verus! {

/// The pattern of one token: a quoted span, or else a run without spaces.
pub const RULE_SPLIT: &'static str = "[\"'].+?[\"']|[^ ]+";

/// Whether `c` is one of the two quote characters.
pub open spec fn is_quote(c: char) -> bool {
    c == '"' || c == '\''
}

/// The two quote characters.
pub open spec fn quotes() -> Set<char> {
    Set::new(|c: char| is_quote(c))
}

/// `s` without the quote characters at either end; quotes inside stay.
pub open spec fn strip_quotes(s: Seq<char>) -> Seq<char> {
    trim(s, quotes())
}

/// The tokens that a sequence of matches stands for.
pub open spec fn tokens_of(matches: Seq<Seq<char>>) -> Seq<Seq<char>> {
    Seq::new(matches.len(), |i: int| strip_quotes(matches[i]))
}

/// The tokens of `rule`, or `None` if the matcher refuses the pattern.
pub open spec fn rule_tokens(rule: Seq<char>) -> Option<Seq<Seq<char>>> {
    if regex_accepts(RULE_SPLIT@) {
        Some(tokens_of(regex_matches(RULE_SPLIT@, rule)))
    } else {
        None
    }
}

/// Removes every quote character from the two ends of `s`.
pub fn trim_quotes(s: &str) -> (r: String)
    ensures
        r@ == strip_quotes(s@),
{
    let v = chars_of(s);
    let mut from: usize = 0;
    while from < v.len() && (v[from] == '"' || v[from] == '\'')
        invariant
            from <= v.len(),
            forall|k: int| 0 <= k < from ==> quotes().contains(#[trigger] v@[k]),
        decreases v.len() - from,
    {
        from += 1;
    }
    let mut to: usize = v.len();
    while to > from && (v[to - 1] == '"' || v[to - 1] == '\'')
        invariant
            from <= to <= v.len(),
            forall|k: int| to <= k < v.len() ==> quotes().contains(#[trigger] v@[k]),
        decreases to,
    {
        to -= 1;
    }
    proof {
        lemma_trim_is(v@, quotes(), from as int, to as int);
    }
    string_of(&v, from, to)
}

/// Turns the matches of the token pattern into tokens: each loses the quote
/// characters at its ends.
pub fn unquote_all(matches: &Vec<String>) -> (tokens: Vec<String>)
    ensures
        texts(tokens@) == tokens_of(texts(matches@)),
{
    let mut tokens: Vec<String> = Vec::new();
    let mut i: usize = 0;
    while i < matches.len()
        invariant
            i <= matches.len(),
            tokens.len() == i,
            forall|k: int| 0 <= k < i ==> (#[trigger] tokens@[k])@ == strip_quotes(matches@[k]@),
        decreases matches.len() - i,
    {
        let t = trim_quotes(matches[i].as_str());
        tokens.push(t);
        i += 1;
    }
    assert(texts(tokens@) =~= tokens_of(texts(matches@)));
    tokens
}

/// The tokens of a rule specification: the matches of [`RULE_SPLIT`] in
/// `rule`, in order, each without the quote characters at its ends. Fails
/// only if the matcher refuses the pattern.
pub fn split_quoted(rule: &str) -> (r: Result<Vec<String>, Failure>)
    ensures
        match r {
            Ok(tokens) => rule_tokens(rule@) == Some(texts(tokens@)),
            Err(e) => rule_tokens(rule@) is None && e@ == FailureView::InvalidPattern,
        },
{
    match find_all(RULE_SPLIT, rule) {
        Ok(matches) => Ok(unquote_all(&matches)),
        Err(_) => Err(Failure::InvalidPattern),
    }
}

} // verus!
