//! Text as sequences of characters, and matching without regard to case.

use vstd::prelude::*;
use vstd::std_specs::iter::IteratorSpec;
use vstd::string::{StrSliceExecFns, StringExecFns};

verus! {

/// `c` with the upper-case letters `A` to `Z` turned into lower case; every
/// other character is itself.
pub open spec fn spec_fold_case(c: char) -> char {
    if 'A' <= c && c <= 'Z' {
        ((c as u8) + 32) as char
    } else {
        c
    }
}

/// `c` with the upper-case letters `A` to `Z` turned into lower case.
#[verifier::when_used_as_spec(spec_fold_case)]
pub fn fold_case(c: char) -> (folded: char)
    ensures
        folded == spec_fold_case(c),
{
    if 'A' <= c && c <= 'Z' {
        ((c as u8) + 32) as char
    } else {
        c
    }
}

/// Whether `needle` occurs in `haystack` at position `at`, letters
/// compared without regard to case.
pub open spec fn occurs_at(haystack: Seq<char>, needle: Seq<char>, at: int) -> bool {
    &&& 0 <= at
    &&& at + needle.len() <= haystack.len()
    &&& forall|j: int|
        0 <= j < needle.len() ==> spec_fold_case(#[trigger] haystack[at + j]) == spec_fold_case(
            needle[j],
        )
}

/// Whether `needle` occurs somewhere in `haystack`, letters compared
/// without regard to case. The empty needle occurs in every haystack.
pub open spec fn contains_ignore_case(haystack: Seq<char>, needle: Seq<char>) -> bool {
    exists|at: int| occurs_at(haystack, needle, at)
}

/// The characters of `s`, in order.
pub fn chars_of(s: &str) -> (v: Vec<char>)
    ensures
        v@ == s@,
{
    let mut v: Vec<char> = Vec::new();
    for c in it: s.chars()
        invariant
            v@ == it.seq().take(it.index()),
    {
        v.push(c);
    }
    v
}

/// Whether `needle` occurs in `haystack` at position `at`, letters
/// compared without regard to case.
pub fn is_occurrence(haystack: &Vec<char>, needle: &Vec<char>, at: usize) -> (found: bool)
    ensures
        found == occurs_at(haystack@, needle@, at as int),
{
    if at > haystack.len() || needle.len() > haystack.len() - at {
        return false;
    }
    let mut j: usize = 0;
    while j < needle.len()
        invariant
            j <= needle.len(),
            at + needle.len() <= haystack.len(),
            forall|k: int|
                0 <= k < j ==> spec_fold_case(#[trigger] haystack@[at + k]) == spec_fold_case(
                    needle@[k],
                ),
        decreases needle.len() - j,
    {
        if fold_case(haystack[at + j]) != fold_case(needle[j]) {
            return false;
        }
        j = j + 1;
    }
    true
}

/// Whether `needle` occurs somewhere in `haystack`, letters compared
/// without regard to case.
pub fn contains_chars_ignore_case(haystack: &Vec<char>, needle: &Vec<char>) -> (found: bool)
    ensures
        found == contains_ignore_case(haystack@, needle@),
{
    if needle.len() > haystack.len() {
        assert forall|at: int| !occurs_at(haystack@, needle@, at) by {}
        return false;
    }
    let last: usize = haystack.len() - needle.len();
    let mut at: usize = 0;
    while at <= last
        invariant
            last == haystack.len() - needle.len(),
            at <= last + 1,
            forall|k: int| 0 <= k < at ==> !occurs_at(haystack@, needle@, k),
        decreases last + 1 - at,
    {
        if is_occurrence(haystack, needle, at) {
            return true;
        }
        at = at + 1;
    }
    assert forall|k: int| !occurs_at(haystack@, needle@, k) by {}
    false
}

/// Whether `query` occurs somewhere in `name`, letters compared without
/// regard to case.
pub fn name_matches(name: &str, query: &Vec<char>) -> (found: bool)
    ensures
        found == contains_ignore_case(name@, query@),
{
    let chars = chars_of(name);
    contains_chars_ignore_case(&chars, query)
}

/// Number of line feeds in `s`.
pub open spec fn count_newlines(s: Seq<char>) -> nat
    decreases s.len(),
{
    if s.len() == 0 {
        0
    } else {
        count_newlines(s.drop_last()) + if s.last() == '\n' {
            1nat
        } else {
            0nat
        }
    }
}

/// Number of lines of `s`: every line feed ends a line, and what follows
/// the last line feed is one more line unless it is empty.
pub open spec fn count_lines(s: Seq<char>) -> nat {
    count_newlines(s) + if s.len() > 0 && s.last() != '\n' {
        1nat
    } else {
        0nat
    }
}

/// Number of lines of `text`.
pub fn line_count(text: &str) -> (n: usize)
    ensures
        n == count_lines(text@),
{
    let chars = chars_of(text);
    let mut newlines: usize = 0;
    let mut i: usize = 0;
    while i < chars.len()
        invariant
            i <= chars.len(),
            newlines <= i,
            newlines == count_newlines(chars@.take(i as int)),
            i > 0 && chars@[i - 1] != '\n' ==> newlines < i,
        decreases chars.len() - i,
    {
        assert(chars@.take(i + 1).drop_last() == chars@.take(i as int));
        if chars[i] == '\n' {
            newlines = newlines + 1;
        }
        i = i + 1;
    }
    assert(chars@.take(i as int) == chars@);
    if chars.len() > 0 && chars[chars.len() - 1] != '\n' {
        newlines + 1
    } else {
        newlines
    }
}

/// The empty needle occurs in every haystack, and a needle longer than the
/// haystack occurs nowhere.
pub proof fn lemma_contains_edge_cases(haystack: Seq<char>, needle: Seq<char>)
    ensures
        needle.len() == 0 ==> contains_ignore_case(haystack, needle),
        needle.len() > haystack.len() ==> !contains_ignore_case(haystack, needle),
{
    if needle.len() == 0 {
        assert(occurs_at(haystack, needle, 0));
    }
}

/// The texts of a list of strings.
pub open spec fn texts(strings: Seq<String>) -> Seq<Seq<char>> {
    Seq::new(strings.len(), |i: int| strings[i]@)
}

/// Whether `c` is white space: one of the characters that Unicode gives
/// the property `White_Space`.
pub open spec fn spec_is_whitespace(c: char) -> bool {
    let n = c as u32;
    (0x09 <= n && n <= 0x0D) || n == 0x20 || n == 0x85 || n == 0xA0 || n == 0x1680 || (0x2000 <= n
        && n <= 0x200A) || n == 0x2028 || n == 0x2029 || n == 0x202F || n == 0x205F || n == 0x3000
}

/// Whether `c` is white space.
#[verifier::when_used_as_spec(spec_is_whitespace)]
pub fn is_whitespace(c: char) -> (b: bool)
    ensures
        b == spec_is_whitespace(c),
{
    let n = c as u32;
    (0x09 <= n && n <= 0x0D) || n == 0x20 || n == 0x85 || n == 0xA0 || n == 0x1680 || (0x2000 <= n
        && n <= 0x200A) || n == 0x2028 || n == 0x2029 || n == 0x202F || n == 0x205F || n == 0x3000
}

/// Whether `s` holds nothing but white space.
pub open spec fn is_blank(s: Seq<char>) -> bool {
    forall|i: int| 0 <= i < s.len() ==> spec_is_whitespace(#[trigger] s[i])
}

/// `line` without the carriage return at its end, if it has one.
pub open spec fn without_carriage_return(line: Seq<char>) -> Seq<char> {
    if line.len() > 0 && line.last() == '\r' {
        line.drop_last()
    } else {
        line
    }
}

/// The lines of `s` from position `i` on, `current` being what was read of
/// the line that `i` is in.
pub open spec fn lines_from(s: Seq<char>, i: int, current: Seq<char>) -> Seq<Seq<char>>
    decreases s.len() - i,
{
    if i < 0 || i >= s.len() {
        if current.len() > 0 {
            seq![current]
        } else {
            Seq::empty()
        }
    } else if s[i] == '\n' {
        seq![without_carriage_return(current)] + lines_from(s, i + 1, Seq::empty())
    } else {
        lines_from(s, i + 1, current.push(s[i]))
    }
}

/// The lines of `s`. A line ends at a line feed; a carriage return right
/// before the line feed belongs to the line ending. What follows the last
/// line feed is a line of its own unless it is empty.
pub open spec fn lines_of(s: Seq<char>) -> Seq<Seq<char>> {
    lines_from(s, 0, Seq::empty())
}

/// The words of `s` from position `i` on, `current` being what was read of
/// the word that `i` is in.
pub open spec fn words_from(s: Seq<char>, i: int, current: Seq<char>) -> Seq<Seq<char>>
    decreases s.len() - i,
{
    let word = if current.len() > 0 {
        seq![current]
    } else {
        Seq::empty()
    };
    if i < 0 || i >= s.len() {
        word
    } else if spec_is_whitespace(s[i]) {
        word + words_from(s, i + 1, Seq::empty())
    } else {
        words_from(s, i + 1, current.push(s[i]))
    }
}

/// The words of `s`: the longest stretches without white space.
pub open spec fn words_of(s: Seq<char>) -> Seq<Seq<char>> {
    words_from(s, 0, Seq::empty())
}

/// Whether `text` holds nothing but white space.
pub fn is_blank_text(text: &str) -> (blank: bool)
    ensures
        blank == is_blank(text@),
{
    let chars = chars_of(text);
    let mut i: usize = 0;
    while i < chars.len()
        invariant
            i <= chars.len(),
            chars@ == text@,
            forall|k: int| 0 <= k < i ==> spec_is_whitespace(#[trigger] chars@[k]),
        decreases chars.len() - i,
    {
        if !is_whitespace(chars[i]) {
            return false;
        }
        i = i + 1;
    }
    true
}

/// The characters of `text` from position `from` up to position `to`, as a
/// string of their own.
pub(crate) fn slice_text(text: &str, from: usize, to: usize) -> (part: String)
    requires
        from <= to <= text@.len(),
    ensures
        part@ == text@.subrange(from as int, to as int),
{
    String::from_str(text.substring_char(from, to))
}

/// The lines of `text`.
pub fn split_lines(text: &str) -> (lines: Vec<String>)
    ensures
        texts(lines@) == lines_of(text@),
{
    let chars = chars_of(text);
    let mut lines: Vec<String> = Vec::new();
    let mut start: usize = 0;
    let mut i: usize = 0;
    proof {
        assert(text@.subrange(0, 0) =~= Seq::<char>::empty());
        assert(texts(lines@) + lines_from(text@, 0, Seq::empty()) =~= lines_of(text@));
    }
    while i < chars.len()
        invariant
            start <= i <= chars.len(),
            chars@ == text@,
            lines_of(text@) == texts(lines@) + lines_from(
                text@,
                i as int,
                text@.subrange(start as int, i as int),
            ),
        decreases chars.len() - i,
    {
        let ghost current = text@.subrange(start as int, i as int);
        if chars[i] == '\n' {
            let end: usize = if i > start && chars[i - 1] == '\r' {
                i - 1
            } else {
                i
            };
            let line = slice_text(text, start, end);
            assert(line@ =~= without_carriage_return(current));
            let ghost before = texts(lines@);
            lines.push(line);
            assert(texts(lines@) =~= before.push(without_carriage_return(current)));
            start = i + 1;
            assert(text@.subrange(start as int, start as int) =~= Seq::<char>::empty());
        } else {
            assert(text@.subrange(start as int, i + 1) =~= current.push(text@[i as int]));
        }
        i = i + 1;
    }
    if start < chars.len() {
        let line = slice_text(text, start, chars.len());
        let ghost before = texts(lines@);
        lines.push(line);
        assert(texts(lines@) =~= before.push(text@.subrange(start as int, i as int)));
    }
    assert(texts(lines@) =~= lines_of(text@));
    lines
}

/// The words of `text`: the longest stretches without white space.
pub fn split_words(text: &str) -> (words: Vec<String>)
    ensures
        texts(words@) == words_of(text@),
{
    let chars = chars_of(text);
    let mut words: Vec<String> = Vec::new();
    let mut start: usize = 0;
    let mut i: usize = 0;
    proof {
        assert(text@.subrange(0, 0) =~= Seq::<char>::empty());
        assert(texts(words@) + words_from(text@, 0, Seq::empty()) =~= words_of(text@));
    }
    while i < chars.len()
        invariant
            start <= i <= chars.len(),
            chars@ == text@,
            words_of(text@) == texts(words@) + words_from(
                text@,
                i as int,
                text@.subrange(start as int, i as int),
            ),
        decreases chars.len() - i,
    {
        let ghost current = text@.subrange(start as int, i as int);
        if is_whitespace(chars[i]) {
            if i > start {
                let word = slice_text(text, start, i);
                let ghost before = texts(words@);
                words.push(word);
                assert(texts(words@) =~= before.push(current));
            }
            start = i + 1;
            assert(text@.subrange(start as int, start as int) =~= Seq::<char>::empty());
        } else {
            assert(text@.subrange(start as int, i + 1) =~= current.push(text@[i as int]));
        }
        i = i + 1;
    }
    if start < chars.len() {
        let word = slice_text(text, start, chars.len());
        let ghost before = texts(words@);
        words.push(word);
        assert(texts(words@) =~= before.push(text@.subrange(start as int, i as int)));
    }
    assert(texts(words@) =~= words_of(text@));
    words
}

/// Whether `a` and `b` hold the same characters.
pub fn same_text(a: &str, b: &str) -> (same: bool)
    ensures
        same == (a@ == b@),
{
    let x = chars_of(a);
    let y = chars_of(b);
    if x.len() != y.len() {
        return false;
    }
    let mut i: usize = 0;
    while i < x.len()
        invariant
            i <= x.len(),
            x.len() == y.len(),
            x@ == a@,
            y@ == b@,
            forall|k: int| 0 <= k < i ==> x@[k] == y@[k],
        decreases x.len() - i,
    {
        if x[i] != y[i] {
            assert(a@[i as int] != b@[i as int]);
            return false;
        }
        i = i + 1;
    }
    assert(x@ =~= y@);
    true
}

/// The decimal digit for `d`, which is below 10.
pub open spec fn digit_char(d: nat) -> char {
    (48 + d) as char
}

/// `n` written in decimal, without leading zeros.
pub open spec fn decimal(n: nat) -> Seq<char>
    decreases n,
{
    if n < 10 {
        seq![digit_char(n)]
    } else {
        decimal(n / 10).push(digit_char(n % 10))
    }
}

/// `n` written in decimal.
pub fn decimal_text(n: u64) -> (text: String)
    ensures
        text@ == decimal(n as nat),
    decreases n,
{
    if n < 10 {
        digit_text(n)
    } else {
        let mut text = decimal_text(n / 10);
        let last = digit_text(n % 10);
        text.append(last.as_str());
        text
    }
}

/// The digit `d` as text.
fn digit_text(d: u64) -> (text: String)
    requires
        d < 10,
    ensures
        text@ == seq![digit_char(d as nat)],
{
    let s: &str = match d {
        0 => "0",
        1 => "1",
        2 => "2",
        3 => "3",
        4 => "4",
        5 => "5",
        6 => "6",
        7 => "7",
        8 => "8",
        _ => "9",
    };
    proof {
        reveal_strlit("0");
        reveal_strlit("1");
        reveal_strlit("2");
        reveal_strlit("3");
        reveal_strlit("4");
        reveal_strlit("5");
        reveal_strlit("6");
        reveal_strlit("7");
        reveal_strlit("8");
        reveal_strlit("9");
        assert(s@ =~= seq![digit_char(d as nat)]);
    }
    String::from_str(s)
}

/// Whether the characters of `pattern` stand in `s` at position `i`.
pub open spec fn stands_at(s: Seq<char>, pattern: Seq<char>, i: int) -> bool {
    0 <= i && i + pattern.len() <= s.len() && s.subrange(i, i + pattern.len()) == pattern
}

/// `s` from position `i` on without the occurrences of `pattern`, found
/// from left to right and not overlapping. The empty pattern occurs
/// nowhere.
pub open spec fn without_all(s: Seq<char>, pattern: Seq<char>, i: int) -> Seq<char>
    decreases s.len() - i,
{
    if i < 0 || i >= s.len() {
        Seq::empty()
    } else if pattern.len() > 0 && stands_at(s, pattern, i) {
        without_all(s, pattern, i + pattern.len())
    } else {
        seq![s[i]] + without_all(s, pattern, i + 1)
    }
}

/// Whether the characters of `pattern` stand in `s` at position `i`.
fn is_at(s: &Vec<char>, pattern: &Vec<char>, i: usize) -> (found: bool)
    ensures
        found == stands_at(s@, pattern@, i as int),
{
    if i > s.len() || pattern.len() > s.len() - i {
        return false;
    }
    let mut j: usize = 0;
    while j < pattern.len()
        invariant
            j <= pattern.len(),
            i + pattern.len() <= s.len(),
            forall|k: int| 0 <= k < j ==> s@[i + k] == pattern@[k],
        decreases pattern.len() - j,
    {
        if s[i + j] != pattern[j] {
            assert(s@.subrange(i as int, i + pattern@.len())[j as int] != pattern@[j as int]);
            return false;
        }
        j = j + 1;
    }
    assert(s@.subrange(i as int, i + pattern@.len()) =~= pattern@);
    true
}

/// `text` without the occurrences of `pattern`.
pub fn remove_all(text: &str, pattern: &str) -> (rest: String)
    ensures
        rest@ == without_all(text@, pattern@, 0),
{
    let s = chars_of(text);
    let p = chars_of(pattern);
    let mut rest = String::new();
    let mut start: usize = 0;
    let mut i: usize = 0;
    proof {
        assert(text@.subrange(0, 0) =~= Seq::<char>::empty());
        assert(rest@ + text@.subrange(0, 0) + without_all(text@, pattern@, 0) =~= without_all(
            text@,
            pattern@,
            0,
        ));
    }
    while i < s.len()
        invariant
            start <= i <= s.len(),
            s@ == text@,
            p@ == pattern@,
            without_all(text@, pattern@, 0) == rest@ + text@.subrange(start as int, i as int)
                + without_all(text@, pattern@, i as int),
        decreases s.len() - i,
    {
        let ghost kept = text@.subrange(start as int, i as int);
        if p.len() > 0 && is_at(&s, &p, i) {
            let piece = slice_text(text, start, i);
            rest.append(piece.as_str());
            i = i + p.len();
            start = i;
            assert(text@.subrange(start as int, i as int) =~= Seq::<char>::empty());
            assert(rest@ + text@.subrange(start as int, i as int) =~= rest@);
        } else {
            assert(text@.subrange(start as int, i + 1) =~= kept + seq![text@[i as int]]);
            assert(rest@ + kept + (seq![text@[i as int]] + without_all(text@, pattern@, i + 1))
                =~= rest@ + (kept + seq![text@[i as int]]) + without_all(text@, pattern@, i + 1));
            i = i + 1;
        }
    }
    let piece = slice_text(text, start, s.len());
    rest.append(piece.as_str());
    assert(rest@ =~= without_all(text@, pattern@, 0));
    rest
}

/// The texts `words`, as owned strings.
pub(crate) fn strings_of(words: &[&str]) -> (args: Vec<String>)
    ensures
        args@.len() == words@.len(),
        forall|i: int| 0 <= i < words@.len() ==> (#[trigger] args@[i])@ == words@[i]@,
{
    let mut args: Vec<String> = Vec::new();
    let mut i: usize = 0;
    while i < words.len()
        invariant
            i <= words@.len(),
            args@.len() == i,
            forall|k: int| 0 <= k < i ==> (#[trigger] args@[k])@ == words@[k]@,
        decreases words@.len() - i,
    {
        args.push(String::from_str(words[i]));
        i = i + 1;
    }
    args
}

} // verus!
