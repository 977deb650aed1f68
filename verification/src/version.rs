//! Reading the tool's version report and deriving what the tool can do.
use crate::failure::{Failure, FailureView};
use crate::pattern::{first_groups, optional_texts, regex_accepts, regex_groups};
use crate::text::chars_of;
use vstd::prelude::*;

verus! {

/// The pattern of a version: `v<major>.<minor>.<patch>`, one group per number.
pub const VERSION_PATTERN: &'static str = "v(\\d+)\\.(\\d+)\\.(\\d+)";

/// A version: major, minor, patch.
pub type Triple = (int, int, int);

/// Whether `c` is one of `0` to `9`.
pub open spec fn is_digit(c: char) -> bool {
    '0' <= c <= '9'
}

/// Whether `s` holds digits only.
pub open spec fn all_digits(s: Seq<char>) -> bool {
    forall|i: int| 0 <= i < s.len() ==> is_digit(#[trigger] s[i])
}

/// The number that the digits of `s` write in base ten.
pub open spec fn digits_value(s: Seq<char>) -> int
    decreases s.len(),
{
    if s.len() == 0 {
        0
    } else {
        digits_value(s.drop_last()) * 10 + (s.last() as int - '0' as int)
    }
}

/// The number that `s` writes, if `s` is a non-empty run of the digits `0`
/// to `9` whose value fits in an `i32`.
pub open spec fn number_of(s: Seq<char>) -> Option<int> {
    if s.len() > 0 && all_digits(s) && digits_value(s) <= i32::MAX {
        Some(digits_value(s))
    } else {
        None
    }
}

/// The version that the groups of a match carry: groups 1 to 3, each a
/// number.
pub open spec fn version_of_groups(found: Option<Seq<Option<Seq<char>>>>) -> Option<Triple> {
    match found {
        Some(g) => if g.len() > 3 && g[1] is Some && g[2] is Some && g[3] is Some {
            match (number_of(g[1]->0), number_of(g[2]->0), number_of(g[3]->0)) {
                (Some(major), Some(minor), Some(patch)) => Some((major, minor, patch)),
                _ => None,
            }
        } else {
            None
        },
        None => None,
    }
}

/// Whether version `a` comes strictly after version `b`: by major, then
/// minor, then patch.
pub open spec fn version_after(a: Triple, b: Triple) -> bool {
    a.0 > b.0 || (a.0 == b.0 && (a.1 > b.1 || (a.1 == b.1 && a.2 > b.2)))
}

/// The tool checks for a rule by itself from the version after 1.4.10.
pub open spec fn supports_check(v: Triple) -> bool {
    version_after(v, (1, 4, 10))
}

/// The tool waits for other instances by itself from the version after 1.4.19.
pub open spec fn supports_wait(v: Triple) -> bool {
    version_after(v, (1, 4, 19))
}

proof fn lemma_digits_value_grows(s: Seq<char>, n: int)
    requires
        all_digits(s),
        0 <= n <= s.len(),
    ensures
        0 <= digits_value(s.take(n)) <= digits_value(s),
    decreases s.len() - n,
{
    if n == s.len() {
        assert(s.take(n) =~= s);
        lemma_digits_value_nonnegative(s);
    } else {
        lemma_digits_value_grows(s.drop_last(), n);
        assert(s.drop_last().take(n) =~= s.take(n));
        assert(is_digit(s.last()));
    }
}

proof fn lemma_digits_value_nonnegative(s: Seq<char>)
    requires
        all_digits(s),
    ensures
        0 <= digits_value(s),
    decreases s.len(),
{
    if s.len() > 0 {
        lemma_digits_value_nonnegative(s.drop_last());
        assert(is_digit(s.last()));
    }
}

/// Reads a non-empty run of digits as an `i32`.
pub fn parse_number(s: &str) -> (r: Option<i32>)
    ensures
        match r {
            Some(n) => number_of(s@) == Some(n as int),
            None => number_of(s@) is None,
        },
{
    let v = chars_of(s);
    if v.len() == 0 {
        return None;
    }
    let mut value: i32 = 0;
    let mut i: usize = 0;
    while i < v.len()
        invariant
            i <= v.len(),
            v@ == s@,
            all_digits(v@.take(i as int)),
            0 <= value == digits_value(v@.take(i as int)),
        decreases v.len() - i,
    {
        let c = v[i];
        if !('0' <= c && c <= '9') {
            assert(!is_digit(v@[i as int]));
            return None;
        }
        let d: i32 = (c as u8 - '0' as u8) as i32;
        proof {
            let next = v@.take(i + 1);
            assert(next.drop_last() =~= v@.take(i as int));
            assert(next.last() == c);
            assert(all_digits(next));
            if value > 214748364 || value * 10 + d > i32::MAX {
                if all_digits(v@) {
                    lemma_digits_value_grows(v@, i + 1);
                }
            }
        }
        if value > 214748364 {
            return None;
        }
        let scaled: i32 = value * 10;
        if d > i32::MAX - scaled {
            return None;
        }
        value = scaled + d;
        i += 1;
    }
    assert(v@.take(i as int) =~= v@);
    Some(value)
}

/// Whether version `major.minor.patch` comes strictly after `1.4.floor`.
pub fn is_after(major: i32, minor: i32, patch: i32, floor: i32) -> (r: bool)
    ensures
        r == version_after((major as int, minor as int, patch as int), (1, 4, floor as int)),
{
    major > 1 || (major == 1 && (minor > 4 || (minor == 4 && patch > floor)))
}

/// The version that the capture groups of a match carry. `found` is what the
/// matcher reported for [`VERSION_PATTERN`].
pub fn version_from_groups(found: &Option<Vec<Option<String>>>) -> (r: Result<
    (i32, i32, i32),
    Failure,
>)
    ensures
        match r {
            Ok(v) => version_of_groups(groups_view(*found)) == Some(
                (v.0 as int, v.1 as int, v.2 as int),
            ),
            Err(e) => version_of_groups(groups_view(*found)) is None && e@
                == FailureView::InvalidVersionFormat,
        },
{
    match found {
        Some(groups) => {
            if groups.len() <= 3 {
                return Err(Failure::InvalidVersionFormat);
            }
            let major = match &groups[1] {
                Some(text) => parse_number(text.as_str()),
                None => None,
            };
            let minor = match &groups[2] {
                Some(text) => parse_number(text.as_str()),
                None => None,
            };
            let patch = match &groups[3] {
                Some(text) => parse_number(text.as_str()),
                None => None,
            };
            match (major, minor, patch) {
                (Some(a), Some(b), Some(c)) => Ok((a, b, c)),
                _ => Err(Failure::InvalidVersionFormat),
            }
        },
        None => Err(Failure::InvalidVersionFormat),
    }
}

/// The groups that the matcher found, as a mathematical value.
pub open spec fn groups_view(found: Option<Vec<Option<String>>>) -> Option<
    Seq<Option<Seq<char>>>,
> {
    match found {
        Some(v) => Some(optional_texts(v@)),
        None => None,
    }
}

/// What [`parse_version`] makes of `text`.
pub open spec fn version_in(text: Seq<char>) -> Result<Triple, FailureView> {
    if !regex_accepts(VERSION_PATTERN@) {
        Err(FailureView::InvalidPattern)
    } else {
        match version_of_groups(regex_groups(VERSION_PATTERN@, text)) {
            Some(v) => Ok(v),
            None => Err(FailureView::InvalidVersionFormat),
        }
    }
}

/// Finds the first `v<major>.<minor>.<patch>` in `text` and reads its three
/// numbers.
pub fn parse_version(text: &str) -> (r: Result<(i32, i32, i32), Failure>)
    ensures
        match r {
            Ok(v) => version_in(text@) == Ok::<Triple, FailureView>(
                (v.0 as int, v.1 as int, v.2 as int),
            ),
            Err(e) => version_in(text@) == Err::<Triple, FailureView>(e@),
        },
{
    match first_groups(VERSION_PATTERN, text) {
        Ok(found) => version_from_groups(&found),
        Err(_) => Err(Failure::InvalidPattern),
    }
}

} // verus!
