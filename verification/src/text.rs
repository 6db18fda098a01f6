//! Character-level helpers on strings: conversion between strings and
//! character vectors, comparison, and trimming of white space.

use vstd::prelude::*;

verus! {

/// Whether `char::is_whitespace` holds of `c`, that is, whether `c` has the
/// Unicode property `White_Space`.
pub uninterp spec fn is_white_space(c: char) -> bool;

/// `char::is_whitespace` is a function of the character alone; its answer is
/// what the contracts of this crate call `is_white_space`.
pub assume_specification[ char::is_whitespace ](c: char) -> (b: bool)
    ensures
        b == is_white_space(c),
;

/// `String::push` appends one character to the end of the string and changes
/// nothing else.
pub assume_specification[ String::push ](s: &mut String, c: char)
    ensures
        final(s)@ == old(s)@.push(c),
;

/// `s` without the white space it starts with.
pub open spec fn strip_leading(s: Seq<char>) -> Seq<char>
    decreases s.len(),
{
    if s.len() > 0 && is_white_space(s.first()) {
        strip_leading(s.drop_first())
    } else {
        s
    }
}

/// `s` without the white space it ends with.
pub open spec fn strip_trailing(s: Seq<char>) -> Seq<char>
    decreases s.len(),
{
    if s.len() > 0 && is_white_space(s.last()) {
        strip_trailing(s.drop_last())
    } else {
        s
    }
}

/// `s` without leading and trailing white space.
pub open spec fn trimmed(s: Seq<char>) -> Seq<char> {
    strip_trailing(strip_leading(s))
}

/// The characters of `s`, in order.
pub(crate) fn chars_of(s: &str) -> (v: Vec<char>)
    ensures
        v@ == s@,
{
    let mut v: Vec<char> = Vec::new();
    for c in it: s.chars()
        invariant
            v@ == it.seq().take(it.index() as int),
    {
        v.push(c);
    }
    v
}

/// The string made of `chars[from..to]`.
pub(crate) fn string_of(chars: &Vec<char>, from: usize, to: usize) -> (s: String)
    requires
        from <= to <= chars.len(),
    ensures
        s@ == chars@.subrange(from as int, to as int),
{
    let mut s = String::new();
    let mut i: usize = from;
    while i < to
        invariant
            from <= i <= to <= chars.len(),
            s@ == chars@.subrange(from as int, i as int),
        decreases to - i,
    {
        s.push(chars[i]);
        i += 1;
    }
    s
}

/// Whether two strings hold the same characters.
pub(crate) fn same_text(a: &str, b: &str) -> (same: bool)
    ensures
        same == (a@ == b@),
{
    let x = chars_of(a);
    let y = chars_of(b);
    if x.len() != y.len() {
        return false;
    }
    let mut i: usize = 0;
    while i < x.len()
        invariant
            i <= x.len(),
            x.len() == y.len(),
            x@ == a@,
            y@ == b@,
            forall|j: int| 0 <= j < i ==> x@[j] == y@[j],
        decreases x.len() - i,
    {
        if x[i] != y[i] {
            return false;
        }
        i += 1;
    }
    assert(x@ =~= y@);
    true
}

/// A copy of `s` without leading and trailing white space.
pub fn trim(s: &str) -> (t: String)
    ensures
        t@ == trimmed(s@),
{
    let chars = chars_of(s);
    let n = chars.len();
    let mut start: usize = 0;
    assert(chars@ == chars@.subrange(0, n as int));
    while start < n && chars[start].is_whitespace()
        invariant
            n == chars.len(),
            start <= n,
            strip_leading(chars@) == strip_leading(chars@.subrange(start as int, n as int)),
        decreases n - start,
    {
        assert(chars@.subrange(start as int, n as int).drop_first() == chars@.subrange(
            start + 1,
            n as int,
        ));
        start += 1;
    }
    let mut end: usize = n;
    while end > start && chars[end - 1].is_whitespace()
        invariant
            n == chars.len(),
            start <= end <= n,
            trimmed(chars@) == strip_trailing(chars@.subrange(start as int, end as int)),
        decreases end - start,
    {
        assert(chars@.subrange(start as int, end as int).drop_last() == chars@.subrange(
            start as int,
            end - 1,
        ));
        end -= 1;
    }
    string_of(&chars, start, end)
}

/// Trimmed text is a piece of the text it was made of, with nothing but
/// white space before it and after it.
pub proof fn law_trimmed_lies_between_white_space(s: Seq<char>)
    ensures
        exists|from: int, to: int|
            {
                &&& 0 <= from <= to <= s.len()
                &&& #[trigger] s.subrange(from, to) == trimmed(s)
                &&& forall|i: int| 0 <= i < from ==> is_white_space(#[trigger] s[i])
                &&& forall|i: int| to <= i < s.len() ==> is_white_space(#[trigger] s[i])
            },
{
    let from = lemma_strip_leading_cuts(s);
    let tail = s.subrange(from, s.len() as int);
    let to = lemma_strip_trailing_cuts(tail);
    assert forall|i: int| from + to <= i < s.len() implies is_white_space(#[trigger] s[i]) by {
        assert(tail[i - from] == s[i]);
    }
    assert(s.subrange(from, from + to) == trimmed(s));
}

/// Trimmed text neither starts nor ends with white space.
pub proof fn law_trimmed_has_clean_ends(s: Seq<char>)
    ensures
        trimmed(s).len() > 0 ==> !is_white_space(trimmed(s).first()) && !is_white_space(
            trimmed(s).last(),
        ),
{
    let head = strip_leading(s);
    lemma_strip_leading_first(s);
    lemma_strip_trailing_keeps_first(head);
    lemma_strip_trailing_last(head);
}

/// Trimming what is already trimmed changes nothing.
pub proof fn law_trimming_twice_changes_nothing(s: Seq<char>)
    ensures
        trimmed(trimmed(s)) == trimmed(s),
{
    law_trimmed_has_clean_ends(s);
}

/// Where the text starts once its leading white space is gone.
proof fn lemma_strip_leading_cuts(s: Seq<char>) -> (from: int)
    ensures
        0 <= from <= s.len(),
        strip_leading(s) == s.subrange(from, s.len() as int),
        forall|i: int| 0 <= i < from ==> is_white_space(#[trigger] s[i]),
    decreases s.len(),
{
    if s.len() > 0 && is_white_space(s.first()) {
        let rest = s.drop_first();
        let from = lemma_strip_leading_cuts(rest);
        assert forall|i: int| 0 <= i < from + 1 implies is_white_space(#[trigger] s[i]) by {
            if i > 0 {
                assert(rest[i - 1] == s[i]);
            }
        }
        from + 1
    } else {
        0
    }
}

/// Where the text ends once its trailing white space is gone.
proof fn lemma_strip_trailing_cuts(s: Seq<char>) -> (to: int)
    ensures
        0 <= to <= s.len(),
        strip_trailing(s) == s.subrange(0, to),
        forall|i: int| to <= i < s.len() ==> is_white_space(#[trigger] s[i]),
    decreases s.len(),
{
    if s.len() > 0 && is_white_space(s.last()) {
        let rest = s.drop_last();
        let to = lemma_strip_trailing_cuts(rest);
        assert forall|i: int| to <= i < s.len() implies is_white_space(#[trigger] s[i]) by {
            if i < s.len() - 1 {
                assert(rest[i] == s[i]);
            }
        }
        to
    } else {
        s.len() as int
    }
}

proof fn lemma_strip_leading_first(s: Seq<char>)
    ensures
        strip_leading(s).len() > 0 ==> !is_white_space(strip_leading(s).first()),
    decreases s.len(),
{
    if s.len() > 0 && is_white_space(s.first()) {
        lemma_strip_leading_first(s.drop_first());
    }
}

proof fn lemma_strip_trailing_last(s: Seq<char>)
    ensures
        strip_trailing(s).len() > 0 ==> !is_white_space(strip_trailing(s).last()),
    decreases s.len(),
{
    if s.len() > 0 && is_white_space(s.last()) {
        lemma_strip_trailing_last(s.drop_last());
    }
}

proof fn lemma_strip_trailing_keeps_first(s: Seq<char>)
    ensures
        strip_trailing(s).len() > 0 ==> s.len() > 0 && strip_trailing(s).first() == s.first(),
    decreases s.len(),
{
    if s.len() > 0 && is_white_space(s.last()) {
        lemma_strip_trailing_keeps_first(s.drop_last());
    }
}

} // verus!
