//! Plain text as sequences of characters: conversion from and to strings,
//! searching, and the runs of characters that the parsers are built from.

use vstd::prelude::*;

verus! {

/// `String::push` appends one character to the end of the string.
pub assume_specification[ String::push ](s: &mut String, ch: char)
    ensures
        final(s)@ == old(s)@.push(ch),
;

/// Whether `c` is one of the ten decimal digits.
pub open spec fn is_digit(c: char) -> bool {
    '0' <= c && c <= '9'
}

/// Whether `c` is white space: a character with the Unicode property
/// `White_Space`.
pub open spec fn is_space(c: char) -> bool {
    let n = c as u32;
    ||| 0x09 <= n <= 0x0d
    ||| n == 0x20
    ||| n == 0x85
    ||| n == 0xa0
    ||| n == 0x1680
    ||| 0x2000 <= n <= 0x200a
    ||| n == 0x2028
    ||| n == 0x2029
    ||| n == 0x202f
    ||| n == 0x205f
    ||| n == 0x3000
}

/// The characters of an optional string.
pub open spec fn text_of(s: Option<String>) -> Option<Seq<char>> {
    match s {
        Some(s) => Some(s@),
        None => None,
    }
}

/// The characters of an optional string slice.
pub open spec fn slice_text(s: Option<&str>) -> Option<Seq<char>> {
    match s {
        Some(s) => Some(s@),
        None => None,
    }
}

/// The characters of an optional run of characters.
pub open spec fn run_of(v: Option<Vec<char>>) -> Option<Seq<char>> {
    match v {
        Some(v) => Some(v@),
        None => None,
    }
}

/// The characters of each of the strings.
pub open spec fn texts(strings: Seq<&str>) -> Seq<Seq<char>> {
    Seq::new(strings.len(), |i: int| strings[i]@)
}

/// Whether `key` stands in `text` at index `at`.
pub open spec fn occurs_at(text: Seq<char>, key: Seq<char>, at: int) -> bool {
    &&& 0 <= at
    &&& at + key.len() <= text.len()
    &&& text.subrange(at, at + key.len()) == key
}

/// The least index at or after `from` at which `key` stands in `text`.
pub open spec fn find_from(text: Seq<char>, key: Seq<char>, from: int) -> Option<int>
    decreases text.len() - from,
{
    if from < 0 || from + key.len() > text.len() {
        None
    } else if occurs_at(text, key, from) {
        Some(from)
    } else if from >= text.len() {
        None
    } else {
        find_from(text, key, from + 1)
    }
}

/// The least index at which `key` stands in `text`.
pub open spec fn find(text: Seq<char>, key: Seq<char>) -> Option<int> {
    find_from(text, key, 0)
}

/// The first index at or after `from` whose character is not white space, or
/// the length of `text` where all of them are.
pub open spec fn skip_spaces(text: Seq<char>, from: int) -> int
    decreases text.len() - from,
{
    if 0 <= from < text.len() && is_space(text[from]) {
        skip_spaces(text, from + 1)
    } else {
        from
    }
}

/// The first index at or after `from` whose character is not a digit, or the
/// length of `text`.
pub open spec fn skip_digits(text: Seq<char>, from: int) -> int
    decreases text.len() - from,
{
    if 0 <= from < text.len() && is_digit(text[from]) {
        skip_digits(text, from + 1)
    } else {
        from
    }
}

/// The first index at or after `from` that holds `c`, or the length of
/// `text` where there is none.
pub open spec fn first_of(text: Seq<char>, c: char, from: int) -> int
    decreases text.len() - from,
{
    if 0 <= from < text.len() && text[from] != c {
        first_of(text, c, from + 1)
    } else {
        from
    }
}

/// The index of the first line feed at or after `from`, or the length of
/// `text` where there is none.
pub open spec fn line_end(text: Seq<char>, from: int) -> int {
    first_of(text, '\n', from)
}

/// `text` with `with` in place of each occurrence of `pat`, the occurrences
/// taken from the left and never overlapping. An empty `pat` occurs nowhere.
pub open spec fn replaced(text: Seq<char>, pat: Seq<char>, with: Seq<char>) -> Seq<char>
    decreases text.len(),
{
    if pat.len() == 0 || text.len() == 0 {
        text
    } else if occurs_at(text, pat, 0) {
        with + replaced(text.skip(pat.len() as int), pat, with)
    } else {
        seq![text[0]] + replaced(text.skip(1), pat, with)
    }
}

/// `text` without the line feed at its end, where it ends in one. Only one
/// is left out, and none from within.
pub open spec fn without_final_newline(text: Seq<char>) -> Seq<char> {
    if text.len() > 0 && text.last() == '\n' {
        text.drop_last()
    } else {
        text
    }
}

proof fn lemma_find_from_is_first(text: Seq<char>, key: Seq<char>, from: int)
    requires
        0 <= from,
    ensures
        match find_from(text, key, from) {
            Some(at) => {
                &&& from <= at
                &&& occurs_at(text, key, at)
                &&& forall|j: int| from <= j < at ==> !occurs_at(text, key, j)
            },
            None => forall|j: int| from <= j ==> !occurs_at(text, key, j),
        },
    decreases text.len() - from,
{
    if from + key.len() <= text.len() && from < text.len() && !occurs_at(text, key, from) {
        lemma_find_from_is_first(text, key, from + 1);
    }
}

/// `find` gives the first place at which the key stands, and `None` exactly
/// where it stands nowhere.
pub proof fn lemma_find_is_first(text: Seq<char>, key: Seq<char>)
    ensures
        match find(text, key) {
            Some(at) => {
                &&& occurs_at(text, key, at)
                &&& forall|j: int| 0 <= j < at ==> !occurs_at(text, key, j)
            },
            None => forall|j: int| !occurs_at(text, key, j),
        },
{
    lemma_find_from_is_first(text, key, 0);
}

/// What `first_of` finds is the first place that holds `c`.
pub proof fn lemma_first_of_bounds(text: Seq<char>, c: char, from: int)
    requires
        0 <= from <= text.len(),
    ensures
        from <= first_of(text, c, from) <= text.len(),
        first_of(text, c, from) < text.len() ==> text[first_of(text, c, from)] == c,
        forall|j: int| from <= j < first_of(text, c, from) ==> text[j] != c,
    decreases text.len() - from,
{
    if from < text.len() && text[from] != c {
        lemma_first_of_bounds(text, c, from + 1);
    }
}

/// Tests whether `c` is a decimal digit.
pub fn char_is_digit(c: char) -> (r: bool)
    ensures
        r == is_digit(c),
{
    '0' <= c && c <= '9'
}

/// Tests whether `c` is white space.
pub fn char_is_space(c: char) -> (r: bool)
    ensures
        r == is_space(c),
{
    let n: u32 = c as u32;
    (0x09 <= n && n <= 0x0d) || n == 0x20 || n == 0x85 || n == 0xa0 || n == 0x1680 || (0x2000 <= n
        && n <= 0x200a) || n == 0x2028 || n == 0x2029 || n == 0x202f || n == 0x205f || n == 0x3000
}

/// The characters of `s`, in order.
pub fn chars_of(s: &str) -> (v: Vec<char>)
    ensures
        v@ == s@,
{
    let mut v: Vec<char> = Vec::new();
    for c in it: s.chars()
        invariant
            it.seq() == s@,
            v@ == it.seq().take(it.index()),
    {
        v.push(c);
    }
    v
}

/// The string made of the characters of `v`, in order.
pub fn string_of(v: &[char]) -> (s: String)
    ensures
        s@ == v@,
{
    let mut s = String::new();
    let mut i: usize = 0;
    while i < v.len()
        invariant
            i <= v.len(),
            s@ == v@.take(i as int),
        decreases v.len() - i,
    {
        s.push(v[i]);
        i += 1;
    }
    s
}

/// Whether `key` stands in `text` at index `at`.
pub fn stands_at(text: &[char], key: &[char], at: usize) -> (r: bool)
    ensures
        r == occurs_at(text@, key@, at as int),
{
    if key.len() > text.len() || at > text.len() - key.len() {
        return false;
    }
    let mut k: usize = 0;
    while k < key.len()
        invariant
            k <= key.len(),
            at + key.len() <= text.len(),
            forall|j: int| 0 <= j < k ==> text@[at + j] == key@[j],
        decreases key.len() - k,
    {
        if text[at + k] != key[k] {
            return false;
        }
        k += 1;
    }
    assert(text@.subrange(at as int, at + key.len()) =~= key@);
    true
}

/// Whether `a` and `b` hold the same characters.
pub fn same_chars(a: &[char], b: &[char]) -> (r: bool)
    ensures
        r == (a@ == b@),
{
    assert(a@.subrange(0, a.len() as int) == a@);
    a.len() == b.len() && stands_at(a, b, 0)
}

/// The first index at which `key` stands in `text`.
pub fn find_first(text: &[char], key: &[char]) -> (r: Option<usize>)
    ensures
        match r {
            Some(at) => find(text@, key@) == Some(at as int) && at + key.len() <= text.len(),
            None => find(text@, key@) is None,
        },
{
    if key.len() > text.len() {
        return None;
    }
    let last: usize = text.len() - key.len();
    let mut i: usize = 0;
    while i < last
        invariant
            i <= last,
            last + key.len() == text.len(),
            find(text@, key@) == find_from(text@, key@, i as int),
        decreases last - i,
    {
        if stands_at(text, key, i) {
            return Some(i);
        }
        i += 1;
    }
    if stands_at(text, key, last) {
        Some(last)
    } else {
        assert(find_from(text@, key@, last + 1) is None);
        None
    }
}

/// The first index at or after `from` that holds no white space.
pub fn after_spaces(text: &[char], from: usize) -> (r: usize)
    requires
        from <= text.len(),
    ensures
        r == skip_spaces(text@, from as int),
        from <= r <= text.len(),
{
    let mut i: usize = from;
    while i < text.len() && char_is_space(text[i])
        invariant
            from <= i <= text.len(),
            skip_spaces(text@, from as int) == skip_spaces(text@, i as int),
        decreases text.len() - i,
    {
        i += 1;
    }
    i
}

/// The first index at or after `from` that holds no digit.
pub fn after_digits(text: &[char], from: usize) -> (r: usize)
    requires
        from <= text.len(),
    ensures
        r == skip_digits(text@, from as int),
        from <= r <= text.len(),
{
    let mut i: usize = from;
    while i < text.len() && char_is_digit(text[i])
        invariant
            from <= i <= text.len(),
            skip_digits(text@, from as int) == skip_digits(text@, i as int),
        decreases text.len() - i,
    {
        i += 1;
    }
    i
}

/// The first index at or after `from` that holds `c`.
pub fn position_of(text: &[char], c: char, from: usize) -> (r: usize)
    requires
        from <= text.len(),
    ensures
        r == first_of(text@, c, from as int),
        from <= r <= text.len(),
        r < text.len() ==> text@[r as int] == c,
{
    let mut i: usize = from;
    while i < text.len() && text[i] != c
        invariant
            from <= i <= text.len(),
            first_of(text@, c, from as int) == first_of(text@, c, i as int),
        decreases text.len() - i,
    {
        i += 1;
    }
    i
}

/// The index of the first line feed at or after `from`.
pub fn end_of_line(text: &[char], from: usize) -> (r: usize)
    requires
        from <= text.len(),
    ensures
        r == line_end(text@, from as int),
        from <= r <= text.len(),
{
    position_of(text, '\n', from)
}

/// `text` with `with` in place of each occurrence of `pat`. An empty `pat`
/// occurs nowhere.
pub fn replace_all(text: &[char], pat: &[char], with: &[char]) -> (r: Vec<char>)
    ensures
        r@ == replaced(text@, pat@, with@),
{
    if pat.len() == 0 {
        return slice_of(text, 0, text.len());
    }
    let mut r: Vec<char> = Vec::new();
    let mut i: usize = 0;
    assert(text@.skip(0) == text@);
    while i < text.len()
        invariant
            i <= text.len(),
            pat.len() > 0,
            r@ + replaced(text@.skip(i as int), pat@, with@) == replaced(text@, pat@, with@),
        decreases text.len() - i,
    {
        let ghost rest = text@.skip(i as int);
        let ghost before = r@;
        assert(occurs_at(rest, pat@, 0) == occurs_at(text@, pat@, i as int)) by {
            if i + pat.len() <= text.len() {
                assert(rest.subrange(0, pat.len() as int) == text@.subrange(
                    i as int,
                    i + pat.len(),
                ));
            }
        }
        if stands_at(text, pat, i) {
            let mut k: usize = 0;
            while k < with.len()
                invariant
                    k <= with.len(),
                    r@ == before + with@.take(k as int),
                decreases with.len() - k,
            {
                r.push(with[k]);
                k += 1;
            }
            assert(rest.skip(pat.len() as int) == text@.skip(i + pat.len()));
            i += pat.len();
            assert(r@ + replaced(text@.skip(i as int), pat@, with@) == before + (with@ + replaced(
                text@.skip(i as int),
                pat@,
                with@,
            )));
        } else {
            r.push(text[i]);
            assert(rest.skip(1) == text@.skip(i + 1));
            i += 1;
            assert(r@ + replaced(text@.skip(i as int), pat@, with@) == before + (seq![rest[0]]
                + replaced(text@.skip(i as int), pat@, with@)));
        }
    }
    r
}

/// The characters of `text` from `from` up to `to`.
pub fn slice_of(text: &[char], from: usize, to: usize) -> (r: Vec<char>)
    requires
        from <= to <= text.len(),
    ensures
        r@ == text@.subrange(from as int, to as int),
{
    let mut r: Vec<char> = Vec::new();
    let mut i: usize = from;
    while i < to
        invariant
            from <= i <= to <= text.len(),
            r@ == text@.subrange(from as int, i as int),
        decreases to - i,
    {
        r.push(text[i]);
        i += 1;
        assert(text@.subrange(from as int, i as int) == text@.subrange(from as int, i - 1).push(
            text@[i - 1],
        ));
    }
    r
}

/// `text` without the line feed at its end, where it ends in one.
pub fn strip_final_newline(text: &[char]) -> (r: Vec<char>)
    ensures
        r@ == without_final_newline(text@),
{
    let n = text.len();
    if n > 0 && text[n - 1] == '\n' {
        assert(text@.subrange(0, n - 1) == text@.drop_last());
        slice_of(text, 0, n - 1)
    } else {
        assert(text@.subrange(0, n as int) == text@);
        slice_of(text, 0, n)
    }
}

} // verus!
