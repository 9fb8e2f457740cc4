//! Title normalization.
//!
//! Source-system titles sometimes begin with a clock time such as
//! `11:55 am` left over from quick entry.  Before a title is used as a
//! lookup or creation key it is normalized: a single leading `H:MM` or
//! `HH:MM` followed by an `am`/`pm` marker (any case) and at least one
//! whitespace character is stripped, together with the whitespace run after
//! the marker.  The remainder, including any internal clock times, is left
//! untouched.  Call sites additionally trim surrounding whitespace.

use vstd::prelude::*;

verus! {

/// The whitespace characters the relay recognizes in titles.
pub open spec fn is_space_char(c: char) -> bool {
    c == ' ' || c == '\t' || c == '\r' || c == '\n'
}

pub open spec fn is_digit_char(c: char) -> bool {
    '0' <= c && c <= '9'
}

/// First letter of an `am`/`pm` marker, either case.
pub open spec fn is_meridiem_first(c: char) -> bool {
    c == 'a' || c == 'A' || c == 'p' || c == 'P'
}

pub open spec fn is_meridiem_second(c: char) -> bool {
    c == 'm' || c == 'M'
}

/// The first position at or after `i` holding a non-whitespace character
/// (or the end of the string).
pub open spec fn skip_spaces(s: Seq<char>, i: int) -> int
    decreases s.len() - i,
{
    if i < 0 || i >= s.len() {
        i
    } else if is_space_char(s[i]) {
        skip_spaces(s, i + 1)
    } else {
        i
    }
}

proof fn lemma_skip_spaces_bounds(s: Seq<char>, i: int)
    requires
        0 <= i <= s.len(),
    ensures
        i <= skip_spaces(s, i) <= s.len(),
    decreases s.len() - i,
{
    if i < s.len() && is_space_char(s[i]) {
        lemma_skip_spaces_bounds(s, i + 1);
    }
}

/// Skipping whitespace stops at the end or on a non-whitespace character.
proof fn lemma_skip_spaces_stops(s: Seq<char>, i: int)
    requires
        0 <= i <= s.len(),
    ensures
        skip_spaces(s, i) == s.len() || !is_space_char(s[skip_spaces(s, i)]),
    decreases s.len() - i,
{
    if i < s.len() && is_space_char(s[i]) {
        lemma_skip_spaces_stops(s, i + 1);
    }
}

/// Where the clock digits `H:MM` or `HH:MM` end, if the title starts with
/// either form.
pub open spec fn clock_digits_end(s: Seq<char>) -> Option<int> {
    if s.len() >= 4 && is_digit_char(s[0]) && s[1] == ':' && is_digit_char(s[2]) && is_digit_char(
        s[3],
    ) {
        Some(4)
    } else if s.len() >= 5 && is_digit_char(s[0]) && is_digit_char(s[1]) && s[2] == ':'
        && is_digit_char(s[3]) && is_digit_char(s[4]) {
        Some(5)
    } else {
        None
    }
}

/// The length of the strippable prefix: clock digits, optional whitespace,
/// an `am`/`pm` marker, then at least one whitespace character and the rest
/// of that whitespace run.  `None` when the title carries no such prefix.
pub open spec fn strip_len(s: Seq<char>) -> Option<int> {
    match clock_digits_end(s) {
        Some(d) => {
            let g = skip_spaces(s, d);
            if g + 1 < s.len() && is_meridiem_first(s[g]) && is_meridiem_second(s[g + 1]) && g + 2
                < s.len() && is_space_char(s[g + 2]) {
                Some(skip_spaces(s, g + 2))
            } else {
                None
            }
        },
        None => None,
    }
}

pub open spec fn has_time_prefix(s: Seq<char>) -> bool {
    strip_len(s) is Some
}

/// What normalization leaves of a title.
pub open spec fn norm_spec(s: Seq<char>) -> Seq<char> {
    match strip_len(s) {
        Some(e) => s.subrange(e, s.len() as int),
        None => s,
    }
}

/// What trimming leaves of a title: the span from its first to its last
/// non-whitespace character.
pub open spec fn trim_spec(s: Seq<char>) -> Seq<char> {
    let a = skip_spaces(s, 0);
    if a == s.len() {
        Seq::empty()
    } else {
        s.subrange(a, last_non_space_end(s, s.len() as int))
    }
}

/// The position one past the last non-whitespace character strictly before
/// `i`, or `0` if there is none.
pub open spec fn last_non_space_end(s: Seq<char>, i: int) -> int
    decreases i,
{
    if i <= 0 {
        0
    } else if is_space_char(s[i - 1]) {
        last_non_space_end(s, i - 1)
    } else {
        i
    }
}

proof fn lemma_last_non_space_end_bounds(s: Seq<char>, i: int)
    requires
        0 <= i <= s.len(),
    ensures
        0 <= last_non_space_end(s, i) <= i,
    decreases i,
{
    if i > 0 && is_space_char(s[i - 1]) {
        lemma_last_non_space_end_bounds(s, i - 1);
    }
}

fn is_space_exec(c: char) -> (b: bool)
    ensures
        b == is_space_char(c),
{
    c == ' ' || c == '\t' || c == '\r' || c == '\n'
}

fn is_digit_exec(c: char) -> (b: bool)
    ensures
        b == is_digit_char(c),
{
    (c as u32) >= 48 && (c as u32) <= 57
}

fn is_meridiem_first_exec(c: char) -> (b: bool)
    ensures
        b == is_meridiem_first(c),
{
    c == 'a' || c == 'A' || c == 'p' || c == 'P'
}

fn is_meridiem_second_exec(c: char) -> (b: bool)
    ensures
        b == is_meridiem_second(c),
{
    c == 'm' || c == 'M'
}

/// Advances `from` past any whitespace run.
fn skip_spaces_exec(s: &str, from: usize, n: usize) -> (r: usize)
    requires
        from <= n,
        n == s@.len(),
    ensures
        r == skip_spaces(s@, from as int),
        from <= r <= n,
{
    let mut i = from;
    while i < n && is_space_exec(s.get_char(i))
        invariant
            from <= i <= n,
            n == s@.len(),
            skip_spaces(s@, from as int) == skip_spaces(s@, i as int),
        decreases n - i,
    {
        i += 1;
    }
    i
}

/// Strips a single leading clock-time prefix, if any, and returns the rest
/// of the title.
pub fn normalize(s: &str) -> (r: String)
    ensures
        r@ == norm_spec(s@),
{
    let n = s.unicode_len();
    let d: usize = if n >= 4 && is_digit_exec(s.get_char(0)) && s.get_char(1) == ':'
        && is_digit_exec(s.get_char(2)) && is_digit_exec(s.get_char(3)) {
        4
    } else if n >= 5 && is_digit_exec(s.get_char(0)) && is_digit_exec(s.get_char(1)) && s.get_char(
        2,
    ) == ':' && is_digit_exec(s.get_char(3)) && is_digit_exec(s.get_char(4)) {
        5
    } else {
        0
    };
    proof {
        if d == 0 {
            assert(clock_digits_end(s@) is None);
        } else {
            assert(clock_digits_end(s@) == Some(d as int));
        }
    }
    if d == 0 {
        return s.to_owned();
    }
    let g = skip_spaces_exec(s, d, n);
    if n - g > 1 && is_meridiem_first_exec(s.get_char(g)) && is_meridiem_second_exec(
        s.get_char(g + 1),
    ) && n - g > 2 && is_space_exec(s.get_char(g + 2)) {
        let e = skip_spaces_exec(s, g + 2, n);
        let rest = s.substring_char(e, n);
        rest.to_owned()
    } else {
        s.to_owned()
    }
}

/// Removes leading and trailing whitespace from a title.
pub fn trim(s: &str) -> (r: String)
    ensures
        r@ == trim_spec(s@),
{
    let n = s.unicode_len();
    let a = skip_spaces_exec(s, 0, n);
    if a == n {
        let empty = String::new();
        proof {
            assert(trim_spec(s@) =~= Seq::<char>::empty());
        }
        return empty;
    }
    let mut b = n;
    while b > 0 && is_space_exec(s.get_char(b - 1))
        invariant
            0 <= b <= n,
            n == s@.len(),
            last_non_space_end(s@, n as int) == last_non_space_end(s@, b as int),
        decreases b,
    {
        b -= 1;
    }
    proof {
        lemma_last_non_space_end_bounds(s@, n as int);
        assert(last_non_space_end(s@, b as int) == b);
        lemma_skip_spaces_bounds(s@, 0);
        lemma_skip_spaces_stops(s@, 0);
        assert(!is_space_char(s@[a as int]));
        if b < a {
            assert(b <= a < n);
            assert(last_non_space_end(s@, n as int) == b);
            lemma_non_space_below_end(s@, n as int, a as int);
        }
    }
    let piece = s.substring_char(a, b);
    piece.to_owned()
}

/// A non-whitespace character at `j` keeps the trimmed end beyond `j`.
proof fn lemma_non_space_below_end(s: Seq<char>, i: int, j: int)
    requires
        0 <= j < i <= s.len(),
        !is_space_char(s[j]),
    ensures
        last_non_space_end(s, i) > j,
    decreases i,
{
    if i - 1 > j && is_space_char(s[i - 1]) {
        lemma_non_space_below_end(s, i - 1, j);
    }
}

/// The trimmed end of a run stops on a non-whitespace character.
proof fn lemma_last_non_space_stops(s: Seq<char>, i: int)
    requires
        0 <= i <= s.len(),
    ensures
        last_non_space_end(s, i) == 0 || !is_space_char(s[last_non_space_end(s, i) - 1]),
    decreases i,
{
    if i > 0 && is_space_char(s[i - 1]) {
        lemma_last_non_space_stops(s, i - 1);
    }
}

/// Trimming is idempotent: a trimmed title neither starts nor ends with
/// whitespace, so trimming it again changes nothing.
pub proof fn lemma_trim_idempotent(s: Seq<char>)
    ensures
        trim_spec(trim_spec(s)) == trim_spec(s),
{
    let a = skip_spaces(s, 0);
    lemma_skip_spaces_bounds(s, 0);
    if a == s.len() {
        assert(trim_spec(s) =~= Seq::<char>::empty());
        assert(trim_spec(trim_spec(s)) =~= Seq::<char>::empty());
    } else {
        lemma_skip_spaces_stops(s, 0);
        let b = last_non_space_end(s, s.len() as int);
        lemma_last_non_space_end_bounds(s, s.len() as int);
        lemma_last_non_space_stops(s, s.len() as int);
        lemma_non_space_below_end(s, s.len() as int, a);
        let t = trim_spec(s);
        assert(t == s.subrange(a, b));
        assert(t.len() == b - a);
        assert(!is_space_char(t[0]));
        assert(!is_space_char(t[t.len() - 1]));
        assert(skip_spaces(t, 0) == 0);
        assert(last_non_space_end(t, t.len() as int) == t.len());
        assert(trim_spec(t) =~= t);
    }
}

/// A title with no clock-time prefix normalizes to itself; in that sense
/// normalization is idempotent on its own output whenever stripping the one
/// prefix leaves no new prefix behind.
pub proof fn lemma_normalize_no_prefix_noop(s: Seq<char>)
    requires
        !has_time_prefix(s),
    ensures
        norm_spec(s) == s,
{
}

/// Normalizing a second time is a no-op whenever the first pass left a
/// title without a clock-time prefix.
pub proof fn lemma_normalize_idempotent(s: Seq<char>)
    requires
        !has_time_prefix(norm_spec(s)),
    ensures
        norm_spec(norm_spec(s)) == norm_spec(s),
{
}

} // verus!
