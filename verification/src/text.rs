//! Text as sequences of characters: conversions, decimal numbers, splitting,
//! trimming and searching.
use vstd::prelude::*;
use vstd::std_specs::iter::IteratorSpec;

verus! {

broadcast use vstd::string::group_string_axioms;

/// `String::push` appends one character.
pub assume_specification[ String::push ](s: &mut String, ch: char)
    ensures
        final(s)@ == old(s)@.push(ch),
;

/// The text that `String::from_utf8_lossy` decodes from `bytes`.
pub uninterp spec fn utf8_lossy(bytes: Seq<u8>) -> Seq<char>;

/// Decodes `bytes` with `String::from_utf8_lossy`, which keeps valid UTF-8
/// and puts U+FFFD in place of what is not. The contract claims only that the
/// text is a function of the bytes.
#[verifier::external_body]
pub(crate) fn decode_lossy(bytes: &Vec<u8>) -> (s: String)
    ensures
        s@ == utf8_lossy(bytes@),
{
    String::from_utf8_lossy(bytes).into_owned()
}

/// The characters of `s`, in order.
pub fn chars_of(s: &str) -> (v: Vec<char>)
    ensures
        v@ == s@,
{
    let mut v: Vec<char> = Vec::new();
    let mut it = s.chars();
    loop
        invariant
            v@ + it.remaining() == s@,
            it.decrease() is Some,
        ensures
            v@ == s@,
        decreases it.decrease()->0,
    {
        let ghost rest = it.remaining();
        let ghost done = v@;
        match it.next() {
            Some(c) => {
                v.push(c);
                assert(v@ + it.remaining() =~= done + rest);
            },
            None => {
                assert(done + rest =~= done);
                break ;
            },
        }
    }
    v
}

/// The string made of `v[from..to]`.
pub fn string_of(v: &Vec<char>, from: usize, to: usize) -> (s: String)
    requires
        from <= to <= v.len(),
    ensures
        s@ == v@.subrange(from as int, to as int),
{
    let mut s = String::new();
    let mut i: usize = from;
    while i < to
        invariant
            from <= i <= to <= v.len(),
            s@ == v@.subrange(from as int, i as int),
        decreases to - i,
    {
        s.push(v[i]);
        i += 1;
        assert(v@.subrange(from as int, i as int) =~= v@.subrange(from as int, i - 1).push(
            v@[i - 1],
        ));
    }
    s
}

/// The character that writes the digit `d`.
pub open spec fn digit_char(d: int) -> char {
    if d == 0 {
        '0'
    } else if d == 1 {
        '1'
    } else if d == 2 {
        '2'
    } else if d == 3 {
        '3'
    } else if d == 4 {
        '4'
    } else if d == 5 {
        '5'
    } else if d == 6 {
        '6'
    } else if d == 7 {
        '7'
    } else if d == 8 {
        '8'
    } else {
        '9'
    }
}

/// The digits of `n` in base ten, without leading zeros.
pub open spec fn digits(n: nat) -> Seq<char>
    decreases n,
{
    if n < 10 {
        seq![digit_char(n as int)]
    } else {
        digits(n / 10).push(digit_char((n % 10) as int))
    }
}

/// `n` written in base ten, with a minus sign if it is negative.
pub open spec fn decimal(n: int) -> Seq<char> {
    if n < 0 {
        seq!['-'] + digits((-n) as nat)
    } else {
        digits(n as nat)
    }
}

fn digit_of(d: u32) -> (c: char)
    requires
        d < 10,
    ensures
        c == digit_char(d as int),
{
    if d == 0 {
        '0'
    } else if d == 1 {
        '1'
    } else if d == 2 {
        '2'
    } else if d == 3 {
        '3'
    } else if d == 4 {
        '4'
    } else if d == 5 {
        '5'
    } else if d == 6 {
        '6'
    } else if d == 7 {
        '7'
    } else if d == 8 {
        '8'
    } else {
        '9'
    }
}

fn push_digits(s: &mut String, n: u32)
    ensures
        final(s)@ == old(s)@ + digits(n as nat),
    decreases n,
{
    if n >= 10 {
        push_digits(s, n / 10);
    }
    s.push(digit_of(n % 10));
    assert(final(s)@ =~= old(s)@ + digits(n as nat));
}

/// Writes `n` in base ten.
pub fn render(n: i32) -> (s: String)
    ensures
        s@ == decimal(n as int),
{
    let mut s = String::new();
    if n < 0 {
        s.push('-');
        let magnitude: u32 = if n == i32::MIN {
            2147483648u32
        } else {
            (-n) as u32
        };
        push_digits(&mut s, magnitude);
    } else {
        push_digits(&mut s, n as u32);
    }
    assert(s@ =~= decimal(n as int));
    s
}

/// The pieces of `s` between occurrences of `sep`: one more piece than there
/// are occurrences, so at least one, and possibly empty ones.
pub open spec fn split(s: Seq<char>, sep: char) -> Seq<Seq<char>>
    decreases s.len(),
{
    if s.len() == 0 {
        seq![Seq::<char>::empty()]
    } else {
        let before = split(s.drop_last(), sep);
        if s.last() == sep {
            before.push(Seq::<char>::empty())
        } else {
            before.drop_last().push(before.last().push(s.last()))
        }
    }
}

/// The contents of a vector of character vectors.
pub open spec fn rows(v: Seq<Vec<char>>) -> Seq<Seq<char>> {
    Seq::new(v.len(), |i: int| v[i]@)
}

/// Splits `v` at every `sep`.
pub fn split_chars(v: &Vec<char>, sep: char) -> (pieces: Vec<Vec<char>>)
    ensures
        pieces.len() >= 1,
        rows(pieces@) == split(v@, sep),
{
    let mut pieces: Vec<Vec<char>> = Vec::new();
    let mut piece: Vec<char> = Vec::new();
    let mut i: usize = 0;
    assert(rows(pieces@).push(piece@) =~= split(v@.take(0), sep));
    while i < v.len()
        invariant
            i <= v.len(),
            rows(pieces@).push(piece@) == split(v@.take(i as int), sep),
        decreases v.len() - i,
    {
        let c = v[i];
        let ghost done = rows(pieces@);
        let ghost last = piece@;
        proof {
            assert(v@.take(i + 1).drop_last() =~= v@.take(i as int));
            assert(done.push(last).drop_last() =~= done);
        }
        if c == sep {
            pieces.push(piece);
            piece = Vec::new();
            assert(rows(pieces@) =~= done.push(last));
        } else {
            piece.push(c);
        }
        i += 1;
    }
    assert(v@.take(i as int) =~= v@);
    let ghost done = rows(pieces@);
    let ghost last = piece@;
    pieces.push(piece);
    assert(rows(pieces@) =~= done.push(last));
    pieces
}

/// `s` without the characters of `drop` at its start.
pub open spec fn trim_start(s: Seq<char>, drop: Set<char>) -> Seq<char>
    decreases s.len(),
{
    if s.len() > 0 && drop.contains(s[0]) {
        trim_start(s.drop_first(), drop)
    } else {
        s
    }
}

/// `s` without the characters of `drop` at its end.
pub open spec fn trim_end(s: Seq<char>, drop: Set<char>) -> Seq<char>
    decreases s.len(),
{
    if s.len() > 0 && drop.contains(s.last()) {
        trim_end(s.drop_last(), drop)
    } else {
        s
    }
}

/// `s` without the characters of `drop` at either end. Those inside stay.
pub open spec fn trim(s: Seq<char>, drop: Set<char>) -> Seq<char> {
    trim_end(trim_start(s, drop), drop)
}

/// Trimming the start skips a prefix that lies in `drop`.
pub proof fn lemma_trim_start_skips(s: Seq<char>, drop: Set<char>, n: int)
    requires
        0 <= n <= s.len(),
        forall|k: int| 0 <= k < n ==> drop.contains(#[trigger] s[k]),
    ensures
        trim_start(s, drop) == trim_start(s.subrange(n, s.len() as int), drop),
    decreases n,
{
    if n == 0 {
        assert(s.subrange(0, s.len() as int) =~= s);
    } else {
        lemma_trim_start_skips(s.drop_first(), drop, n - 1);
        assert(s.drop_first().subrange(n - 1, s.len() - 1) =~= s.subrange(n, s.len() as int));
    }
}

/// Trimming the end skips a suffix that lies in `drop`.
pub proof fn lemma_trim_end_skips(s: Seq<char>, drop: Set<char>, n: int)
    requires
        0 <= n <= s.len(),
        forall|k: int| n <= k < s.len() ==> drop.contains(#[trigger] s[k]),
    ensures
        trim_end(s, drop) == trim_end(s.subrange(0, n), drop),
    decreases s.len() - n,
{
    if n == s.len() {
        assert(s.subrange(0, n) =~= s);
    } else {
        lemma_trim_end_skips(s.drop_last(), drop, n);
        assert(s.drop_last().subrange(0, n) =~= s.subrange(0, n));
    }
}

/// The part of `s` from `from` to `to` is the trimmed `s`, if everything
/// before and after it lies in `drop` and its own ends do not.
pub proof fn lemma_trim_is(s: Seq<char>, drop: Set<char>, from: int, to: int)
    requires
        0 <= from <= to <= s.len(),
        forall|k: int| 0 <= k < from ==> drop.contains(#[trigger] s[k]),
        forall|k: int| to <= k < s.len() ==> drop.contains(#[trigger] s[k]),
        from < s.len() ==> !drop.contains(s[from]),
        from < to ==> !drop.contains(s[to - 1]),
    ensures
        trim(s, drop) == s.subrange(from, to),
{
    let rest = s.subrange(from, s.len() as int);
    lemma_trim_start_skips(s, drop, from);
    assert(trim_start(s, drop) == rest);
    lemma_trim_end_skips(rest, drop, to - from);
    assert(rest.subrange(0, to - from) =~= s.subrange(from, to));
}

/// How many characters at the start of `s` lie in `drop`.
pub open spec fn leading(s: Seq<char>, drop: Set<char>) -> int
    decreases s.len(),
{
    if s.len() > 0 && drop.contains(s[0]) {
        1 + leading(s.drop_first(), drop)
    } else {
        0
    }
}

/// How many characters at the end of `s` lie in `drop`.
pub open spec fn trailing(s: Seq<char>, drop: Set<char>) -> int
    decreases s.len(),
{
    if s.len() > 0 && drop.contains(s.last()) {
        1 + trailing(s.drop_last(), drop)
    } else {
        0
    }
}

/// `leading` counts a run at the start that lies in `drop` and ends at the
/// first character that does not.
pub proof fn lemma_leading(s: Seq<char>, drop: Set<char>)
    ensures
        0 <= leading(s, drop) <= s.len(),
        forall|k: int| 0 <= k < leading(s, drop) ==> drop.contains(#[trigger] s[k]),
        leading(s, drop) < s.len() ==> !drop.contains(s[leading(s, drop)]),
    decreases s.len(),
{
    if s.len() > 0 && drop.contains(s[0]) {
        let t = s.drop_first();
        lemma_leading(t, drop);
        assert forall|k: int| 0 <= k < leading(s, drop) implies drop.contains(#[trigger] s[k]) by {
            if k > 0 {
                assert(s[k] == t[k - 1]);
            }
        }
    }
}

/// `trailing` counts a run at the end that lies in `drop` and starts after
/// the last character that does not.
pub proof fn lemma_trailing(s: Seq<char>, drop: Set<char>)
    ensures
        0 <= trailing(s, drop) <= s.len(),
        forall|k: int| s.len() - trailing(s, drop) <= k < s.len() ==> drop.contains(#[trigger] s[k]),
        trailing(s, drop) < s.len() ==> !drop.contains(s[s.len() - trailing(s, drop) - 1]),
    decreases s.len(),
{
    if s.len() > 0 && drop.contains(s.last()) {
        let t = s.drop_last();
        lemma_trailing(t, drop);
        assert forall|k: int| s.len() - trailing(s, drop) <= k < s.len() implies drop.contains(
            #[trigger] s[k],
        ) by {
            if k < s.len() - 1 {
                assert(s[k] == t[k]);
            }
        }
    }
}

/// What trimming keeps: the part of `s` after its leading run in `drop` and
/// before the trailing run in `drop` of what is left. Nothing inside that
/// part is touched, and its two ends do not lie in `drop`.
pub proof fn lemma_trim_keeps_the_middle(s: Seq<char>, drop: Set<char>) -> (bounds: (int, int))
    ensures
        0 <= bounds.0 <= bounds.1 <= s.len(),
        trim(s, drop) == s.subrange(bounds.0, bounds.1),
        forall|k: int| 0 <= k < bounds.0 ==> drop.contains(#[trigger] s[k]),
        forall|k: int| bounds.1 <= k < s.len() ==> drop.contains(#[trigger] s[k]),
        bounds.0 < bounds.1 ==> !drop.contains(s[bounds.0]) && !drop.contains(s[bounds.1 - 1]),
{
    lemma_leading(s, drop);
    let from = leading(s, drop);
    let rest = s.subrange(from, s.len() as int);
    lemma_trailing(rest, drop);
    let to = s.len() - trailing(rest, drop);
    assert forall|k: int| to <= k < s.len() implies drop.contains(#[trigger] s[k]) by {
        assert(s[k] == rest[k - from]);
    }
    if from < to {
        assert(rest[to - from - 1] == s[to - 1]);
    }
    lemma_trim_is(s, drop, from, to);
    (from, to)
}

/// The white space of Unicode.
pub open spec fn is_space(c: char) -> bool {
    ||| '\u{9}' <= c <= '\u{d}'
    ||| c == ' '
    ||| c == '\u{85}'
    ||| c == '\u{a0}'
    ||| c == '\u{1680}'
    ||| '\u{2000}' <= c <= '\u{200a}'
    ||| c == '\u{2028}'
    ||| c == '\u{2029}'
    ||| c == '\u{202f}'
    ||| c == '\u{205f}'
    ||| c == '\u{3000}'
}

/// The set of white space characters.
pub open spec fn spaces() -> Set<char> {
    Set::new(|c: char| is_space(c))
}

/// Whether `c` is white space.
pub fn is_space_char(c: char) -> (r: bool)
    ensures
        r == is_space(c),
{
    ('\u{9}' <= c && c <= '\u{d}') || c == ' ' || c == '\u{85}' || c == '\u{a0}' || c
        == '\u{1680}' || ('\u{2000}' <= c && c <= '\u{200a}') || c == '\u{2028}' || c
        == '\u{2029}' || c == '\u{202f}' || c == '\u{205f}' || c == '\u{3000}'
}

/// `v` without the white space at its ends.
pub fn trim_spaces(v: &Vec<char>) -> (r: Vec<char>)
    ensures
        r@ == trim(v@, spaces()),
{
    let mut from: usize = 0;
    while from < v.len() && is_space_char(v[from])
        invariant
            from <= v.len(),
            forall|k: int| 0 <= k < from ==> spaces().contains(#[trigger] v@[k]),
        decreases v.len() - from,
    {
        from += 1;
    }
    let mut to: usize = v.len();
    while to > from && is_space_char(v[to - 1])
        invariant
            from <= to <= v.len(),
            forall|k: int| to <= k < v.len() ==> spaces().contains(#[trigger] v@[k]),
        decreases to,
    {
        to -= 1;
    }
    proof {
        lemma_trim_is(v@, spaces(), from as int, to as int);
    }
    let mut r: Vec<char> = Vec::new();
    let mut i: usize = from;
    while i < to
        invariant
            from <= i <= to <= v.len(),
            r@ == v@.subrange(from as int, i as int),
        decreases to - i,
    {
        r.push(v[i]);
        i += 1;
        assert(r@ =~= v@.subrange(from as int, i as int));
    }
    r
}

/// The words of `words` with one `sep` between neighbours.
pub open spec fn join(words: Seq<Seq<char>>, sep: char) -> Seq<char>
    decreases words.len(),
{
    if words.len() == 0 {
        Seq::<char>::empty()
    } else if words.len() == 1 {
        words[0]
    } else {
        join(words.drop_last(), sep).push(sep) + words.last()
    }
}

/// Whether `needle` occurs in `hay` as a contiguous run; the empty run
/// occurs everywhere.
pub open spec fn contains(hay: Seq<char>, needle: Seq<char>) -> bool {
    exists|i: int| occurs_at(hay, needle, i)
}

/// Whether `needle` occurs in `hay` at position `i`.
pub open spec fn occurs_at(hay: Seq<char>, needle: Seq<char>, i: int) -> bool {
    0 <= i && i + needle.len() <= hay.len() && hay.subrange(i, i + needle.len()) == needle
}

/// Whether `needle` starts at position `at` of `hay`.
fn matches_at(hay: &Vec<char>, needle: &Vec<char>, at: usize) -> (r: bool)
    requires
        at + needle.len() <= hay.len(),
    ensures
        r == occurs_at(hay@, needle@, at as int),
{
    let mut j: usize = 0;
    while j < needle.len()
        invariant
            j <= needle.len(),
            at + needle.len() <= hay.len(),
            forall|k: int| 0 <= k < j ==> hay@[at + k] == needle@[k],
        decreases needle.len() - j,
    {
        if hay[at + j] != needle[j] {
            assert(hay@.subrange(at as int, at + needle.len())[j as int] != needle@[j as int]);
            return false;
        }
        j += 1;
    }
    assert(hay@.subrange(at as int, at + needle.len()) =~= needle@);
    true
}

/// Searches `hay` for `needle`.
pub fn find_in(hay: &Vec<char>, needle: &Vec<char>) -> (r: bool)
    ensures
        r == contains(hay@, needle@),
{
    if needle.len() > hay.len() {
        return false;
    }
    let last: usize = hay.len() - needle.len();
    let mut i: usize = 0;
    loop
        invariant
            i <= last,
            last == hay.len() - needle.len(),
            forall|k: int| 0 <= k < i ==> !occurs_at(hay@, needle@, k),
        decreases last - i,
    {
        if matches_at(hay, needle, i) {
            return true;
        }
        if i == last {
            return false;
        }
        i += 1;
    }
}

/// Whether two strings hold the same text.
pub fn same(a: &str, b: &str) -> (r: bool)
    ensures
        r == (a@ == b@),
{
    let x = chars_of(a);
    let y = chars_of(b);
    if x.len() != y.len() {
        return false;
    }
    let mut i: usize = 0;
    while i < x.len()
        invariant
            i <= x.len(),
            x.len() == y.len(),
            x@ == a@,
            y@ == b@,
            forall|k: int| 0 <= k < i ==> x@[k] == y@[k],
        decreases x.len() - i,
    {
        if x[i] != y[i] {
            return false;
        }
        i += 1;
    }
    assert(x@ =~= y@);
    true
}

} // verus!
