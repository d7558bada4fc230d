//! Reading the number of passed and failed tests out of a test runner's
//! output.
//!
//! Three dialects are tried in order: the result line of the standard test
//! harness, the summary line of the alternate runner, and a count of the
//! per-test `PASS [` / `FAIL [` lines. Text in none of them gives `(0, 0)`.

use vstd::prelude::*;
use vstd::slice::slice_subrange;
use crate::text::{
    chars_of, clamp, contains_text, count_occurrences, count_text, find_text, first_match,
    includes, is_space, is_space_char, lemma_first_match, matches_at, string_of,
};

verus! {

/// The character that opens a terminal control sequence.
pub const ESCAPE: char = '\u{1b}';

/// Where the control sequence that starts at index `i` ends (the index after
/// its closing `m`), if one starts there: an escape character, a `[`, and the
/// first `m` after them.
pub open spec fn sequence_end(s: Seq<char>, i: int) -> Option<int> {
    if 0 <= i && i + 1 < s.len() && s[i] == ESCAPE && s[i + 1] == '[' {
        match first_match(s, seq!['m'], i + 2) {
            Some(j) => Some(j + 1),
            None => None,
        }
    } else {
        None
    }
}

/// The text from index `i` on without its control sequences. Every character
/// outside a control sequence stays, in order.
pub open spec fn strip_from(s: Seq<char>, i: int) -> Seq<char>
    decreases s.len() - i,
{
    if i < 0 || i >= s.len() {
        Seq::empty()
    } else {
        match sequence_end(s, i) {
            Some(e) => {
                proof {
                    lemma_first_match(s, seq!['m'], i + 2);
                }
                strip_from(s, e)
            },
            None => seq![s[i]] + strip_from(s, i + 1),
        }
    }
}

/// The text without its control sequences.
pub open spec fn strip_text(s: Seq<char>) -> Seq<char> {
    strip_from(s, 0)
}

/// A control sequence starts somewhere in the text.
pub open spec fn has_sequence(s: Seq<char>) -> bool {
    exists|i: int| (#[trigger] sequence_end(s, i)) is Some
}

/// From an index after which no control sequence starts, stripping keeps
/// the rest of the text as it is.
pub proof fn lemma_strip_keeps_clean_tail(s: Seq<char>, i: int)
    requires
        0 <= i <= s.len(),
        forall|j: int| i <= j ==> (#[trigger] sequence_end(s, j)) is None,
    ensures
        strip_from(s, i) == s.subrange(i, s.len() as int),
    decreases s.len() - i,
{
    if i < s.len() {
        lemma_strip_keeps_clean_tail(s, i + 1);
    }
}

/// Stripping a text that holds no control sequence changes nothing.
pub proof fn lemma_strip_fixed_point(s: Seq<char>)
    requires
        !has_sequence(s),
    ensures
        strip_text(s) == s,
{
    lemma_strip_keeps_clean_tail(s, 0);
}

/// Stripping twice gives what stripping once gives, whenever the first pass
/// leaves no control sequence behind. (Removing a sequence can bring an
/// escape character and a `[` together that were apart before; only then
/// does a second pass remove more.)
pub proof fn lemma_strip_idempotent(s: Seq<char>)
    requires
        !has_sequence(strip_text(s)),
    ensures
        strip_text(strip_text(s)) == strip_text(s),
{
    lemma_strip_fixed_point(strip_text(s));
}

/// No escape character is directly followed by another one.
pub open spec fn no_double_escape(s: Seq<char>) -> bool {
    forall|k: int| 0 <= k < s.len() - 1 && #[trigger] s[k] == ESCAPE ==> s[k + 1] != ESCAPE
}

/// Every character of the stripped text is a character of the text, and
/// stands there no earlier than its place in the stripped text says. The
/// place in the text is returned.
pub proof fn lemma_strip_picks(s: Seq<char>, i: int, q: int) -> (r: int)
    requires
        0 <= i <= s.len(),
        0 <= q < strip_from(s, i).len(),
    ensures
        i + q <= r < s.len(),
        s[r] == strip_from(s, i)[q],
    decreases s.len() - i,
{
    match sequence_end(s, i) {
        Some(e) => {
            lemma_first_match(s, seq!['m'], i + 2);
            lemma_strip_picks(s, e, q)
        },
        None => {
            if q == 0 {
                i
            } else {
                lemma_strip_picks(s, i + 1, q - 1)
            }
        },
    }
}

/// Where no escape character is directly followed by another one, what is
/// left after stripping holds no control sequence.
pub proof fn lemma_strip_leaves_no_sequence(s: Seq<char>, i: int)
    requires
        no_double_escape(s),
        0 <= i <= s.len(),
    ensures
        forall|p: int| (#[trigger] sequence_end(strip_from(s, i), p)) is None,
    decreases s.len() - i,
{
    let t = strip_from(s, i);
    let m = seq!['m'];
    if i < s.len() {
        match sequence_end(s, i) {
            Some(e) => {
                lemma_first_match(s, m, i + 2);
                lemma_strip_leaves_no_sequence(s, e);
            },
            None => {
                let rest = strip_from(s, i + 1);
                lemma_strip_leaves_no_sequence(s, i + 1);
                assert forall|p: int| (#[trigger] sequence_end(t, p)) is None by {
                    if sequence_end(t, p) is Some {
                        lemma_first_match(t, m, p + 2);
                        let j = first_match(t, m, p + 2)->0;
                        if p >= 1 {
                            lemma_first_match(rest, m, p + 1);
                            assert(matches_at(rest, m, j - 1));
                            assert(sequence_end(rest, p - 1) is Some);
                        } else {
                            if sequence_end(s, i + 1) is None {
                                let r = lemma_strip_picks(s, i + 2, j - 2);
                                assert(matches_at(s, m, r));
                                lemma_first_match(s, m, i + 2);
                            }
                        }
                    }
                }
            },
        }
    }
}

/// Stripping twice gives what stripping once gives, for every text in
/// which no escape character is directly followed by another one.
pub proof fn lemma_strip_idempotent_without_double_escape(s: Seq<char>)
    requires
        no_double_escape(s),
    ensures
        strip_text(strip_text(s)) == strip_text(s),
{
    lemma_strip_leaves_no_sequence(s, 0);
    lemma_strip_idempotent(s);
}

/// The characters of `chars` without the control sequences among them.
pub fn strip_chars(chars: &[char]) -> (out: Vec<char>)
    ensures
        out@ == strip_text(chars@),
{
    let closing: Vec<char> = vec!['m'];
    let mut out: Vec<char> = Vec::new();
    let mut i: usize = 0;
    while i < chars.len()
        invariant
            i <= chars.len(),
            closing@ == seq!['m'],
            out@ + strip_from(chars@, i as int) == strip_text(chars@),
        decreases chars.len() - i,
    {
        let mut next: usize = i + 1;
        let mut keep: bool = true;
        if chars[i] == ESCAPE && i + 1 < chars.len() && chars[i + 1] == '[' {
            match find_text(chars, closing.as_slice(), i + 2) {
                Some(j) => {
                    proof {
                        lemma_first_match(chars@, seq!['m'], i + 2);
                    }
                    next = j + 1;
                    keep = false;
                },
                None => {},
            }
        }
        if keep {
            out.push(chars[i]);
        }
        i = next;
    }
    out
}

/// The string without its terminal control sequences: every escape
/// character that is followed by `[` and, later, by an `m` is removed
/// together with everything up to and including the first such `m`. All
/// other characters stay in place.
pub fn strip_ansi_escapes(s: &str) -> (out: String)
    ensures
        out@ == strip_text(s@),
{
    let chars = chars_of(s);
    let kept = strip_chars(chars.as_slice());
    string_of(kept.as_slice())
}

/// A decimal digit.
pub open spec fn is_digit(c: char) -> bool {
    '0' <= c <= '9'
}

/// The number that a run of decimal digits writes.
pub open spec fn decimal_value(digits: Seq<char>) -> nat
    decreases digits.len(),
{
    if digits.len() == 0 {
        0
    } else {
        decimal_value(digits.drop_last()) * 10 + (digits.last() as nat - '0' as nat) as nat
    }
}

/// Every character is a decimal digit.
pub open spec fn all_digits(t: Seq<char>) -> bool {
    forall|k: int| 0 <= k < t.len() ==> is_digit(#[trigger] t[k])
}

/// The number that `t` writes, if `t` is one or more decimal digits and the
/// number fits a `usize`; otherwise 0.
pub open spec fn digits_or_zero(t: Seq<char>) -> usize {
    if t.len() > 0 && all_digits(t) && decimal_value(t) <= usize::MAX {
        decimal_value(t) as usize
    } else {
        0
    }
}

/// The number that `t` writes, with or without a leading `+`; 0 if `t` does
/// not write a number that fits a `usize`.
pub open spec fn number_or_zero(t: Seq<char>) -> usize {
    if t.len() > 0 && t[0] == '+' {
        digits_or_zero(t.drop_first())
    } else {
        digits_or_zero(t)
    }
}

/// The index in `lo..=hi` after the last character of `s[lo..hi]` that is
/// not white space, or `lo` if there is none.
pub open spec fn trim_end(s: Seq<char>, lo: int, hi: int) -> int
    decreases hi - lo,
{
    if lo < hi <= s.len() && is_space(s[hi - 1]) {
        trim_end(s, lo, hi - 1)
    } else {
        hi
    }
}

/// The index in `lo..=hi` of the first character of `s[lo..hi]` that is not
/// white space, or `hi` if there is none.
pub open spec fn trim_start(s: Seq<char>, lo: int, hi: int) -> int
    decreases hi - lo,
{
    if 0 <= lo < hi && is_space(s[lo]) {
        trim_start(s, lo + 1, hi)
    } else {
        lo
    }
}

/// The index at which the longest run of decimal digits that ends just
/// before `end` starts; `end` itself if no digit stands before it.
pub open spec fn digits_start(s: Seq<char>, end: int) -> int
    decreases end,
{
    if 0 < end <= s.len() && is_digit(s[end - 1]) {
        digits_start(s, end - 1)
    } else {
        end
    }
}

/// The greatest index below `end` at which `c` stands in `s`.
pub open spec fn last_before(s: Seq<char>, c: char, end: int) -> Option<int>
    decreases end,
{
    if end <= 0 || end > s.len() {
        None
    } else if s[end - 1] == c {
        Some(end - 1)
    } else {
        last_before(s, c, end - 1)
    }
}

/// The integer that stands immediately before the first occurrence of `word`
/// in `line`, white space between the two aside. 0 if `word` does not occur,
/// if no digit stands before it, or if the digits write a number too large
/// for a `usize`.
pub open spec fn count_before(line: Seq<char>, word: Seq<char>) -> usize {
    match first_match(line, word, 0) {
        None => 0,
        Some(at) => {
            let end = trim_end(line, 0, at);
            digits_or_zero(line.subrange(digits_start(line, end), end))
        },
    }
}

/// The integer that stands between the last colon before the first `passed`
/// and that `passed`, white space around it aside. 0 if `passed` does not
/// occur, if no colon stands before it, or if what stands between them is
/// not a number that fits a `usize`.
pub open spec fn summary_passed(line: Seq<char>) -> usize {
    match first_match(line, "passed"@, 0) {
        None => 0,
        Some(at) => match last_before(line, ':', at) {
            None => 0,
            Some(colon) => {
                let lo = trim_start(line, colon + 1, at);
                let hi = trim_end(line, lo, at);
                number_or_zero(line.subrange(lo, hi))
            },
        },
    }
}

/// Where the line that starts at `start` ends: at the next line feed, or at
/// the end of the text.
pub open spec fn line_end(s: Seq<char>, start: int) -> int {
    match first_match(s, seq!['\n'], start) {
        Some(j) => j,
        None => s.len() as int,
    }
}

/// The first line at or after index `start` in which both `a` and `b`
/// occur. Lines are what line feeds separate.
pub open spec fn first_line_with(s: Seq<char>, start: int, a: Seq<char>, b: Seq<char>) -> Option<
    Seq<char>,
>
    decreases s.len() - start,
{
    if start < 0 || start > s.len() {
        None
    } else {
        let end = line_end(s, start);
        let line = s.subrange(start, end);
        if contains_text(line, a) && contains_text(line, b) {
            Some(line)
        } else if end >= s.len() {
            None
        } else {
            proof {
                lemma_first_match(s, seq!['\n'], start);
            }
            first_line_with(s, end + 1, a, b)
        }
    }
}

/// The numbers of passed and failed tests that a test runner's output
/// reports.
///
/// - If a line holds `test result:`, the first such line decides: the
///   integers before its first `passed` and before its first `failed`.
/// - Otherwise, if a line holds both `Summary` and `tests run`, the first
///   such line gives the passed tests (read after its control sequences are
///   stripped), and the failed tests are the occurrences of `FAIL [` in the
///   whole text.
/// - Otherwise both numbers are the occurrences of `PASS [` and `FAIL [` in
///   the whole text.
pub open spec fn test_counts(text: Seq<char>) -> (usize, usize) {
    match first_line_with(text, 0, "test result:"@, "test result:"@) {
        Some(line) => (count_before(line, "passed"@), count_before(line, "failed"@)),
        None => match first_line_with(text, 0, "Summary"@, "tests run"@) {
            Some(line) => (
                summary_passed(strip_text(line)),
                clamp(count_text(text, "FAIL ["@)),
            ),
            None => (clamp(count_text(text, "PASS ["@)), clamp(count_text(text, "FAIL ["@))),
        },
    }
}

/// A longer run of digits writes no smaller a number than its beginning.
pub proof fn lemma_decimal_prefix(t: Seq<char>, k: int)
    requires
        0 <= k <= t.len(),
    ensures
        decimal_value(t.take(k)) <= decimal_value(t),
    decreases t.len() - k,
{
    if k == t.len() {
        assert(t.take(k) =~= t);
    } else {
        lemma_decimal_prefix(t.drop_last(), k);
        assert(t.drop_last().take(k) =~= t.take(k));
    }
}

/// Whether `c` is a decimal digit.
pub fn is_digit_char(c: char) -> (r: bool)
    ensures
        r == is_digit(c),
{
    '0' <= c && c <= '9'
}

/// The number that `s[lo..hi]` writes in decimal digits, or 0.
pub fn parse_digits(s: &[char], lo: usize, hi: usize) -> (n: usize)
    requires
        lo <= hi <= s@.len(),
    ensures
        n == digits_or_zero(s@.subrange(lo as int, hi as int)),
{
    let ghost t = s@.subrange(lo as int, hi as int);
    if lo == hi {
        return 0;
    }
    let mut n: usize = 0;
    let mut i: usize = lo;
    while i < hi
        invariant
            lo <= i <= hi <= s@.len(),
            t == s@.subrange(lo as int, hi as int),
            all_digits(t.take(i - lo)),
            n == decimal_value(t.take(i - lo)),
        decreases hi - i,
    {
        let c = s[i];
        if !is_digit_char(c) {
            assert(!is_digit(t[i - lo]));
            return 0;
        }
        let d: usize = (c as u32 - '0' as u32) as usize;
        proof {
            assert(t.take(i - lo + 1).drop_last() =~= t.take(i - lo));
            lemma_decimal_prefix(t, i - lo + 1);
        }
        if n > (usize::MAX - d) / 10 {
            return 0;
        }
        n = n * 10 + d;
        i += 1;
    }
    assert(t.take(hi - lo) =~= t);
    n
}

/// The number that `s[lo..hi]` writes, with or without a leading `+`, or 0.
pub fn parse_number(s: &[char], lo: usize, hi: usize) -> (n: usize)
    requires
        lo <= hi <= s@.len(),
    ensures
        n == number_or_zero(s@.subrange(lo as int, hi as int)),
{
    if lo < hi && s[lo] == '+' {
        assert(s@.subrange(lo as int, hi as int).drop_first() =~= s@.subrange(
            lo + 1,
            hi as int,
        ));
        parse_digits(s, lo + 1, hi)
    } else {
        parse_digits(s, lo, hi)
    }
}

/// `hi` moved back over the white space that ends `s[lo..hi]`.
pub fn skip_space_back(s: &[char], lo: usize, hi: usize) -> (end: usize)
    requires
        lo <= hi <= s@.len(),
    ensures
        end == trim_end(s@, lo as int, hi as int),
        lo <= end <= hi,
{
    let mut end: usize = hi;
    while lo < end && is_space_char(s[end - 1])
        invariant
            lo <= end <= hi <= s@.len(),
            trim_end(s@, lo as int, end as int) == trim_end(s@, lo as int, hi as int),
        decreases end,
    {
        end -= 1;
    }
    end
}

/// `lo` moved forward over the white space that begins `s[lo..hi]`.
pub fn skip_space(s: &[char], lo: usize, hi: usize) -> (start: usize)
    requires
        lo <= hi <= s@.len(),
    ensures
        start == trim_start(s@, lo as int, hi as int),
        lo <= start <= hi,
{
    let mut start: usize = lo;
    while start < hi && is_space_char(s[start])
        invariant
            lo <= start <= hi <= s@.len(),
            trim_start(s@, start as int, hi as int) == trim_start(s@, lo as int, hi as int),
        decreases hi - start,
    {
        start += 1;
    }
    start
}

/// Where the digits that end just before `end` start.
pub fn skip_digits_back(s: &[char], end: usize) -> (start: usize)
    requires
        end <= s@.len(),
    ensures
        start == digits_start(s@, end as int),
        start <= end,
{
    let mut start: usize = end;
    while 0 < start && is_digit_char(s[start - 1])
        invariant
            start <= end <= s@.len(),
            digits_start(s@, start as int) == digits_start(s@, end as int),
        decreases start,
    {
        start -= 1;
    }
    start
}

/// The last index below `end` at which `c` stands.
pub fn find_last_before(s: &[char], c: char, end: usize) -> (found: Option<usize>)
    requires
        end <= s@.len(),
    ensures
        match found {
            Some(i) => last_before(s@, c, end as int) == Some(i as int) && i < end,
            None => last_before(s@, c, end as int) is None,
        },
{
    let mut i: usize = end;
    while 0 < i
        invariant
            i <= end <= s@.len(),
            last_before(s@, c, i as int) == last_before(s@, c, end as int),
        decreases i,
    {
        if s[i - 1] == c {
            return Some(i - 1);
        }
        i -= 1;
    }
    None
}

/// The integer immediately before the first `word` in `line`, or 0.
pub fn number_before(line: &[char], word: &[char]) -> (n: usize)
    ensures
        n == count_before(line@, word@),
{
    match find_text(line, word, 0) {
        None => 0,
        Some(at) => {
            proof {
                lemma_first_match(line@, word@, 0);
            }
            let end = skip_space_back(line, 0, at);
            let start = skip_digits_back(line, end);
            parse_digits(line, start, end)
        },
    }
}

/// The passed tests that a summary line reports, or 0.
pub fn passed_in_summary(line: &[char]) -> (n: usize)
    ensures
        n == summary_passed(line@),
{
    let word = chars_of("passed");
    match find_text(line, word.as_slice(), 0) {
        None => 0,
        Some(at) => {
            proof {
                lemma_first_match(line@, word@, 0);
            }
            match find_last_before(line, ':', at) {
                None => 0,
                Some(colon) => {
                    let lo = skip_space(line, colon + 1, at);
                    let hi = skip_space_back(line, lo, at);
                    parse_number(line, lo, hi)
                },
            }
        },
    }
}

/// The bounds of the first line of `text` in which both `a` and `b` occur.
pub fn find_line_with(text: &[char], a: &[char], b: &[char]) -> (found: Option<(usize, usize)>)
    ensures
        match found {
            Some((lo, hi)) => lo <= hi <= text@.len() && first_line_with(text@, 0, a@, b@) == Some(
                text@.subrange(lo as int, hi as int),
            ),
            None => first_line_with(text@, 0, a@, b@) is None,
        },
{
    let feed: Vec<char> = vec!['\n'];
    let mut start: usize = 0;
    loop
        invariant
            start <= text@.len(),
            feed@ == seq!['\n'],
            first_line_with(text@, start as int, a@, b@) == first_line_with(text@, 0, a@, b@),
        decreases text@.len() - start,
    {
        proof {
            lemma_first_match(text@, seq!['\n'], start as int);
        }
        let end: usize = match find_text(text, feed.as_slice(), start) {
            Some(j) => j,
            None => text.len(),
        };
        let line = slice_subrange(text, start, end);
        if includes(line, a) && includes(line, b) {
            return Some((start, end));
        }
        if end >= text.len() {
            return None;
        }
        start = end + 1;
    }
}

/// The numbers of passed and failed tests that the text reports, as
/// `(passed, failed)`; `(0, 0)` where it reports none.
pub fn count_tests(text: &[char]) -> (counts: (usize, usize))
    ensures
        counts == test_counts(text@),
{
    let result = chars_of("test result:");
    match find_line_with(text, result.as_slice(), result.as_slice()) {
        Some((lo, hi)) => {
            let line = slice_subrange(text, lo, hi);
            let passed = chars_of("passed");
            let failed = chars_of("failed");
            return (
                number_before(line, passed.as_slice()),
                number_before(line, failed.as_slice()),
            );
        },
        None => {},
    }
    let fail = chars_of("FAIL [");
    let summary = chars_of("Summary");
    let tests_run = chars_of("tests run");
    match find_line_with(text, summary.as_slice(), tests_run.as_slice()) {
        Some((lo, hi)) => {
            let clean = strip_chars(slice_subrange(text, lo, hi));
            return (passed_in_summary(clean.as_slice()), count_occurrences(text, fail.as_slice()));
        },
        None => {},
    }
    let pass = chars_of("PASS [");
    (count_occurrences(text, pass.as_slice()), count_occurrences(text, fail.as_slice()))
}

/// The numbers of passed and failed tests that `output` reports, as
/// `(passed, failed)`; `(0, 0)` where it reports none.
pub fn parse_test_results(output: &str) -> (counts: (usize, usize))
    ensures
        counts == test_counts(output@),
{
    let chars = chars_of(output);
    count_tests(chars.as_slice())
}

} // verus!
