//! Searching and measuring sequences of characters.
//!
//! Text is modelled as `Seq<char>`. The executable functions work on slices
//! of `char`, and each one computes exactly the spec function named in its
//! contract.

use vstd::prelude::*;
use vstd::string::{StringExecFns, StringSliceAdditionalSpecFns};

verus! {

/// `String::push` appends one character to the end of the string.
pub assume_specification[ String::push ](s: &mut String, c: char)
    ensures
        final(s)@ == old(s)@.push(c),
;

/// `needle` occurs in `hay` starting at index `i`.
pub open spec fn matches_at(hay: Seq<char>, needle: Seq<char>, i: int) -> bool {
    &&& 0 <= i
    &&& i + needle.len() <= hay.len()
    &&& forall|k: int| 0 <= k < needle.len() ==> hay[i + k] == needle[k]
}

/// The least index at or after `from` at which `needle` occurs in `hay`.
pub open spec fn first_match(hay: Seq<char>, needle: Seq<char>, from: int) -> Option<int>
    decreases hay.len() - from,
{
    if from < 0 || from + needle.len() > hay.len() {
        None
    } else if matches_at(hay, needle, from) {
        Some(from)
    } else {
        first_match(hay, needle, from + 1)
    }
}

/// `needle` occurs somewhere in `hay`.
pub open spec fn contains_text(hay: Seq<char>, needle: Seq<char>) -> bool {
    exists|i: int| matches_at(hay, needle, i)
}

/// The number of occurrences of `needle` in `hay` at or after `from`, counted
/// from left to right without overlap. The empty needle occurs once before
/// every character and once at the end.
pub open spec fn count_from(hay: Seq<char>, needle: Seq<char>, from: int) -> nat
    decreases hay.len() - from,
{
    if from < 0 || from + needle.len() > hay.len() {
        0
    } else if needle.len() == 0 {
        (hay.len() - from + 1) as nat
    } else if matches_at(hay, needle, from) {
        1 + count_from(hay, needle, from + needle.len())
    } else {
        count_from(hay, needle, from + 1)
    }
}

/// The number of non-overlapping occurrences of `needle` in `hay`.
pub open spec fn count_text(hay: Seq<char>, needle: Seq<char>) -> nat {
    count_from(hay, needle, 0)
}

/// A count as a `usize` holds it: itself, or the largest `usize` if it is
/// larger than that.
pub open spec fn clamp(n: nat) -> usize {
    if n <= usize::MAX {
        n as usize
    } else {
        usize::MAX
    }
}

/// What `first_match` returns is a match, and nothing between `from` and it is.
pub proof fn lemma_first_match(hay: Seq<char>, needle: Seq<char>, from: int)
    requires
        0 <= from,
    ensures
        match first_match(hay, needle, from) {
            Some(i) => from <= i && matches_at(hay, needle, i) && forall|j: int|
                from <= j < i ==> !matches_at(hay, needle, j),
            None => forall|j: int| from <= j ==> !matches_at(hay, needle, j),
        },
    decreases hay.len() - from,
{
    if from + needle.len() <= hay.len() && !matches_at(hay, needle, from) {
        lemma_first_match(hay, needle, from + 1);
    }
}

/// The characters of a string slice, in order.
pub fn chars_of(s: &str) -> (v: Vec<char>)
    ensures
        v@ == s@,
{
    let mut v: Vec<char> = Vec::new();
    for c in it: s.chars()
        invariant
            it.seq() == s@,
            v@ == it.seq().take(it.index()),
    {
        v.push(c);
    }
    v
}

/// Whether two string slices hold the same characters.
pub fn same_text(a: &str, b: &str) -> (same: bool)
    ensures
        same == (a@ == b@),
{
    broadcast use vstd::utf8::encode_utf8_decode_utf8;

    let x = a.as_bytes();
    let y = b.as_bytes();
    if x.len() != y.len() {
        return false;
    }
    let mut i: usize = 0;
    while i < x.len()
        invariant
            i <= x.len(),
            x.len() == y.len(),
            x@ == a.spec_bytes(),
            y@ == b.spec_bytes(),
            forall|k: int| 0 <= k < i ==> x@[k] == y@[k],
        decreases x.len() - i,
    {
        if x[i] != y[i] {
            return false;
        }
        i += 1;
    }
    assert(x@ =~= y@);
    assert(vstd::utf8::decode_utf8(vstd::utf8::encode_utf8(a@)) == a@);
    true
}

/// The string made of the given characters, in order.
pub fn string_of(chars: &[char]) -> (s: String)
    ensures
        s@ == chars@,
{
    let mut s = String::new();
    let mut i: usize = 0;
    while i < chars.len()
        invariant
            i <= chars.len(),
            s@ == chars@.take(i as int),
        decreases chars.len() - i,
    {
        s.push(chars[i]);
        i += 1;
    }
    s
}

/// Whether `needle` occurs in `hay` at index `i`.
pub fn occurs_at(hay: &[char], needle: &[char], i: usize) -> (found: bool)
    ensures
        found == matches_at(hay@, needle@, i as int),
{
    if needle.len() > hay.len() || i > hay.len() - needle.len() {
        return false;
    }
    let mut k: usize = 0;
    while k < needle.len()
        invariant
            k <= needle.len(),
            i + needle.len() <= hay.len(),
            forall|j: int| 0 <= j < k ==> hay@[i + j] == needle@[j],
        decreases needle.len() - k,
    {
        if hay[i + k] != needle[k] {
            return false;
        }
        k += 1;
    }
    true
}

/// The first index at or after `from` at which `needle` occurs in `hay`.
pub fn find_text(hay: &[char], needle: &[char], from: usize) -> (found: Option<usize>)
    ensures
        match found {
            Some(i) => first_match(hay@, needle@, from as int) == Some(i as int),
            None => first_match(hay@, needle@, from as int) is None,
        },
{
    if needle.len() > hay.len() || from > hay.len() - needle.len() {
        return None;
    }
    let last: usize = hay.len() - needle.len();
    let mut i: usize = from;
    loop
        invariant
            from <= i <= last,
            last == hay.len() - needle.len(),
            first_match(hay@, needle@, from as int) == first_match(hay@, needle@, i as int),
        decreases last - i,
    {
        if occurs_at(hay, needle, i) {
            return Some(i);
        }
        if i == last {
            assert(first_match(hay@, needle@, i + 1) is None);
            return None;
        }
        i += 1;
    }
}

/// Whether `needle` occurs somewhere in `hay`.
pub fn includes(hay: &[char], needle: &[char]) -> (found: bool)
    ensures
        found == contains_text(hay@, needle@),
{
    proof {
        lemma_first_match(hay@, needle@, 0);
    }
    let found = find_text(hay, needle, 0);
    found.is_some()
}

/// The number of non-overlapping occurrences of `needle` in `hay`. Only the
/// empty needle in a text of the largest possible length is counted short.
pub fn count_occurrences(hay: &[char], needle: &[char]) -> (n: usize)
    ensures
        n == clamp(count_text(hay@, needle@)),
        needle@.len() > 0 ==> n == count_text(hay@, needle@),
{
    if needle.len() == 0 {
        return hay.len().saturating_add(1);
    }
    if needle.len() > hay.len() {
        return 0;
    }
    let last: usize = hay.len() - needle.len();
    let mut n: usize = 0;
    let mut i: usize = 0;
    while i <= last
        invariant
            needle.len() > 0,
            last == hay.len() - needle.len(),
            i <= hay.len(),
            n + count_from(hay@, needle@, i as int) == count_text(hay@, needle@),
            n <= i,
        decreases hay.len() - i,
    {
        if occurs_at(hay, needle, i) {
            n += 1;
            i += needle.len();
        } else {
            i += 1;
        }
    }
    n
}

/// The character that writes the digit `d`.
pub open spec fn digit_char(d: nat) -> char {
    if d == 0 {
        '0'
    } else if d == 1 {
        '1'
    } else if d == 2 {
        '2'
    } else if d == 3 {
        '3'
    } else if d == 4 {
        '4'
    } else if d == 5 {
        '5'
    } else if d == 6 {
        '6'
    } else if d == 7 {
        '7'
    } else if d == 8 {
        '8'
    } else {
        '9'
    }
}

/// The decimal digits that write `n`, without leading zeros.
pub open spec fn decimal_digits(n: nat) -> Seq<char>
    decreases n,
{
    if n < 10 {
        seq![digit_char(n)]
    } else {
        decimal_digits(n / 10).push(digit_char(n % 10))
    }
}

/// The character that writes the digit `d`.
pub fn digit_to_char(d: usize) -> (c: char)
    requires
        d < 10,
    ensures
        c == digit_char(d as nat),
{
    if d == 0 {
        '0'
    } else if d == 1 {
        '1'
    } else if d == 2 {
        '2'
    } else if d == 3 {
        '3'
    } else if d == 4 {
        '4'
    } else if d == 5 {
        '5'
    } else if d == 6 {
        '6'
    } else if d == 7 {
        '7'
    } else if d == 8 {
        '8'
    } else {
        '9'
    }
}

/// Appends the decimal digits of `n` to `out`.
pub fn push_decimal(out: &mut String, n: usize)
    ensures
        final(out)@ == old(out)@ + decimal_digits(n as nat),
    decreases n,
{
    if n >= 10 {
        push_decimal(out, n / 10);
    }
    out.push(digit_to_char(n % 10));
}

/// The sum of two counts as a `usize` holds it.
pub fn add_counts(a: usize, b: usize) -> (sum: usize)
    ensures
        sum == clamp((a + b) as nat),
{
    if a > usize::MAX - b {
        usize::MAX
    } else {
        a + b
    }
}

/// Clamping the parts of a sum first does not change the clamped sum.
pub proof fn lemma_clamp_add(a: nat, b: nat)
    ensures
        clamp((clamp(a) + clamp(b)) as nat) == clamp(a + b),
{
}

/// Puts a copy of `s` at the end of `v`.
pub fn push_text(v: &mut Vec<String>, s: &str)
    ensures
        final(v).deep_view() == old(v).deep_view().push(s@),
{
    v.push(String::from_str(s));
}

/// Puts copies of the texts of `src` from index `from` on at the end of
/// `v`.
pub fn extend_from(v: &mut Vec<String>, src: &[String], from: usize)
    requires
        from <= src.len(),
    ensures
        final(v).deep_view() == old(v).deep_view() + src.deep_view().skip(from as int),
{
    let mut i: usize = from;
    while i < src.len()
        invariant
            from <= i <= src.len(),
            v.deep_view() == old(v).deep_view() + src.deep_view().skip(from as int).take(i - from),
        decreases src.len() - i,
    {
        push_text(v, src[i].as_str());
        i += 1;
    }
}

/// Whether `name` is among `names`.
pub fn has_name(names: &[String], name: &str) -> (found: bool)
    ensures
        found == names.deep_view().contains(name@),
{
    let mut i: usize = 0;
    while i < names.len()
        invariant
            i <= names.len(),
            forall|j: int| 0 <= j < i ==> names.deep_view()[j] != name@,
        decreases names.len() - i,
    {
        if same_text(names[i].as_str(), name) {
            assert(names.deep_view()[i as int] == name@);
            return true;
        }
        i += 1;
    }
    false
}

/// The texts of `items` one after the other, with `sep` between each two.
pub open spec fn joined(items: Seq<Seq<char>>, sep: Seq<char>) -> Seq<char>
    decreases items.len(),
{
    if items.len() == 0 {
        Seq::empty()
    } else if items.len() == 1 {
        items[0]
    } else {
        joined(items.drop_last(), sep) + sep + items.last()
    }
}

/// The texts of `items` one after the other, with `sep` between each two.
pub fn join_texts(items: &[String], sep: &str) -> (s: String)
    ensures
        s@ == joined(items.deep_view(), sep@),
{
    let ghost texts = items.deep_view();
    let mut s = String::new();
    let mut i: usize = 0;
    while i < items.len()
        invariant
            i <= items.len(),
            texts == items.deep_view(),
            s@ == joined(texts.take(i as int), sep@),
        decreases items.len() - i,
    {
        proof {
            assert(texts.take(i + 1).drop_last() =~= texts.take(i as int));
        }
        if i > 0 {
            s.append(sep);
        }
        s.append(items[i].as_str());
        i += 1;
    }
    assert(texts.take(items.len() as int) =~= texts);
    s
}

/// A character with the Unicode property `White_Space`.
pub open spec fn is_space(c: char) -> bool {
    ||| '\u{9}' <= c <= '\u{d}'
    ||| c == ' '
    ||| c == '\u{85}'
    ||| c == '\u{a0}'
    ||| c == '\u{1680}'
    ||| '\u{2000}' <= c <= '\u{200a}'
    ||| c == '\u{2028}'
    ||| c == '\u{2029}'
    ||| c == '\u{202f}'
    ||| c == '\u{205f}'
    ||| c == '\u{3000}'
}

/// Whether `c` is white space.
pub fn is_space_char(c: char) -> (r: bool)
    ensures
        r == is_space(c),
{
    ('\u{9}' <= c && c <= '\u{d}') || c == ' ' || c == '\u{85}' || c == '\u{a0}' || c
        == '\u{1680}' || ('\u{2000}' <= c && c <= '\u{200a}') || c == '\u{2028}' || c
        == '\u{2029}' || c == '\u{202f}' || c == '\u{205f}' || c == '\u{3000}'
}

/// Where the word that starts at index `i` ends: at the next white space,
/// or at the end of the text.
pub open spec fn word_end(s: Seq<char>, i: int) -> int
    decreases s.len() - i,
{
    if 0 <= i < s.len() && !is_space(s[i]) {
        word_end(s, i + 1)
    } else {
        i
    }
}

/// A word does not end before it starts, and not before its first
/// character is over.
pub proof fn lemma_word_end(s: Seq<char>, i: int)
    requires
        0 <= i <= s.len(),
    ensures
        i <= word_end(s, i) <= s.len(),
        i < s.len() && !is_space(s[i]) ==> i < word_end(s, i),
    decreases s.len() - i,
{
    if i < s.len() && !is_space(s[i]) {
        lemma_word_end(s, i + 1);
    }
}

/// The words of the text from index `i` on: the longest runs of characters
/// that are not white space, in order.
pub open spec fn words_from(s: Seq<char>, i: int) -> Seq<Seq<char>>
    decreases s.len() - i,
{
    if i < 0 || i >= s.len() {
        Seq::empty()
    } else if is_space(s[i]) {
        words_from(s, i + 1)
    } else {
        proof {
            lemma_word_end(s, i);
        }
        seq![s.subrange(i, word_end(s, i))] + words_from(s, word_end(s, i))
    }
}

/// The words of the text: the longest runs of characters that are not
/// white space, in order.
pub open spec fn words(s: Seq<char>) -> Seq<Seq<char>> {
    words_from(s, 0)
}

/// The words of `text`, split at white space.
pub fn split_words(text: &str) -> (found: Vec<String>)
    ensures
        found.deep_view() == words(text@),
{
    let chars = chars_of(text);
    let s = chars.as_slice();
    let mut found: Vec<String> = Vec::new();
    let mut i: usize = 0;
    while i < s.len()
        invariant
            i <= s.len(),
            found.deep_view() + words_from(s@, i as int) == words(s@),
        decreases s.len() - i,
    {
        if is_space_char(s[i]) {
            i += 1;
        } else {
            let start: usize = i;
            while i < s.len() && !is_space_char(s[i])
                invariant
                    start <= i <= s.len(),
                    word_end(s@, i as int) == word_end(s@, start as int),
                decreases s.len() - i,
            {
                i += 1;
            }
            let word = string_of(vstd::slice::slice_subrange(s, start, i));
            found.push(word);
        }
    }
    found
}

} // verus!
