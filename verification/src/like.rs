//! What a `LIKE` pattern matches, and why an escaped search text finds what
//! it says and nothing else.
//!
//! The store matches patterns; nothing here is run. The definitions say how
//! the store reads a pattern whose escape character is the backslash, and
//! the laws say what follows for the patterns that the search builds.

use crate::services::todo_service::search_pattern;
use crate::validation::{escaped, is_like_special};
use vstd::prelude::*;

verus! {

/// `c` with a capital letter of the Latin alphabet made small: `LIKE` takes
/// `A` to `Z` for `a` to `z`, and every other character for itself.
pub open spec fn folded(c: char) -> char {
    if 'A' <= c && c <= 'Z' {
        ((c as u8 + 32) as u8) as char
    } else {
        c
    }
}

/// Whether `LIKE` takes the two characters for the same.
pub open spec fn same_letter(a: char, b: char) -> bool {
    folded(a) == folded(b)
}

/// Whether `text` as a whole matches `pattern`, both read to their end: `%`
/// stands for any run of characters, the empty one too; `_` for any one
/// character; a backslash makes the character after it stand for itself; any
/// other character stands for itself. A backslash at the very end matches
/// nothing.
pub open spec fn matches_in_full(pattern: Seq<char>, text: Seq<char>) -> bool
    decreases pattern.len(), text.len(),
{
    if pattern.len() == 0 {
        text.len() == 0
    } else if pattern[0] == '%' {
        matches_in_full(pattern.drop_first(), text) || (text.len() > 0 && matches_in_full(
            pattern,
            text.drop_first(),
        ))
    } else if pattern[0] == '_' {
        text.len() > 0 && matches_in_full(pattern.drop_first(), text.drop_first())
    } else if pattern[0] == '\\' {
        pattern.len() >= 2 && text.len() > 0 && same_letter(pattern[1], text[0])
            && matches_in_full(pattern.skip(2), text.drop_first())
    } else {
        text.len() > 0 && same_letter(pattern[0], text[0]) && matches_in_full(
            pattern.drop_first(),
            text.drop_first(),
        )
    }
}

/// `text` up to its first character U+0000, which the store takes for the
/// end of a text.
pub open spec fn until_nul(text: Seq<char>) -> Seq<char>
    decreases text.len(),
{
    if text.len() == 0 || text[0] == '\0' {
        Seq::empty()
    } else {
        seq![text[0]] + until_nul(text.drop_first())
    }
}

/// Whether `text` holds no character U+0000.
pub open spec fn has_no_nul(text: Seq<char>) -> bool {
    forall|i: int| 0 <= i < text.len() ==> #[trigger] text[i] != '\0'
}

/// Whether `LIKE` finds that `text` matches `pattern`: both are read up to
/// their first U+0000, and what is read of the text must match what is read
/// of the pattern in full.
pub open spec fn like_matches(pattern: Seq<char>, text: Seq<char>) -> bool {
    matches_in_full(until_nul(pattern), until_nul(text))
}

/// Whether `query` can be read in `text` from position `at` on, character by
/// character.
pub open spec fn reads_at(query: Seq<char>, text: Seq<char>, at: int) -> bool {
    &&& 0 <= at
    &&& at + query.len() <= text.len()
    &&& forall|j: int| 0 <= j < query.len() ==> same_letter(#[trigger] query[j], text[at + j])
}

/// Whether `query` occurs somewhere in `text`.
pub open spec fn occurs_in(query: Seq<char>, text: Seq<char>) -> bool {
    exists|at: int| reads_at(query, text, at)
}

/// Two texts escaped one after the other are their concatenation escaped.
pub proof fn lemma_escaped_concat(a: Seq<char>, b: Seq<char>)
    ensures
        escaped(a + b) == escaped(a) + escaped(b),
    decreases b.len(),
{
    if b.len() > 0 {
        let shorter = b.drop_last();
        assert((a + b).drop_last() == a + shorter);
        lemma_escaped_concat(a, shorter);
        if is_like_special(b.last()) {
            assert((escaped(a) + escaped(shorter)).push('\\').push(b.last()) == escaped(a)
                + escaped(shorter).push('\\').push(b.last()));
        } else {
            assert((escaped(a) + escaped(shorter)).push(b.last()) == escaped(a) + escaped(
                shorter,
            ).push(b.last()));
        }
    }
}

/// How one character is escaped.
pub open spec fn escaped_char(c: char) -> Seq<char> {
    if is_like_special(c) {
        seq!['\\', c]
    } else {
        seq![c]
    }
}

/// An escaped text starts with its first character escaped; the rest of the
/// text, escaped, follows.
proof fn lemma_escaped_first(query: Seq<char>)
    requires
        query.len() > 0,
    ensures
        escaped(query) == escaped_char(query[0]) + escaped(query.drop_first()),
{
    let first = seq![query[0]];
    assert(first + query.drop_first() == query);
    lemma_escaped_concat(first, query.drop_first());
    assert(escaped(first) == escaped_char(query[0])) by {
        reveal_with_fuel(escaped, 2);
    }
}

/// An escaped text at the head of a pattern is read character by character:
/// the pattern matches where the text starts with the query and what follows
/// matches the rest of the pattern.
proof fn lemma_escaped_reads_literally(query: Seq<char>, rest: Seq<char>, text: Seq<char>)
    ensures
        matches_in_full(escaped(query) + rest, text) <==> (reads_at(query, text, 0)
            && matches_in_full(rest, text.skip(query.len() as int))),
    decreases query.len(),
{
    if query.len() == 0 {
        assert(text.skip(0) == text);
    } else {
        let c = query[0];
        let shorter = query.drop_first();
        let tail = escaped(shorter) + rest;
        let pattern = escaped(query) + rest;
        lemma_escaped_first(query);
        if text.len() > 0 {
            let later = text.drop_first();
            lemma_escaped_reads_literally(shorter, rest, later);
            if query.len() <= text.len() {
                assert(later.skip(shorter.len() as int) == text.skip(query.len() as int));
            }
            if is_like_special(c) {
                assert(pattern.skip(2) == tail);
            } else {
                assert(pattern.drop_first() == tail);
            }
            assert(matches_in_full(pattern, text) <==> same_letter(c, text[0])
                && matches_in_full(tail, later));
            if reads_at(query, text, 0) {
                assert(reads_at(shorter, later, 0)) by {
                    assert forall|j: int| 0 <= j < shorter.len() implies same_letter(
                        #[trigger] shorter[j],
                        later[0 + j],
                    ) by {
                        assert(same_letter(query[j + 1], text[0 + (j + 1)]));
                    }
                }
            }
            if same_letter(c, text[0]) && reads_at(shorter, later, 0) {
                assert(reads_at(query, text, 0)) by {
                    assert forall|j: int| 0 <= j < query.len() implies same_letter(
                        #[trigger] query[j],
                        text[0 + j],
                    ) by {
                        if j > 0 {
                            assert(same_letter(shorter[j - 1], later[0 + (j - 1)]));
                        }
                    }
                }
            }
        }
    }
}

/// A `%` at the head of a pattern lets the rest of the pattern start
/// anywhere in the text.
proof fn lemma_percent_skips(rest: Seq<char>, text: Seq<char>)
    ensures
        matches_in_full(seq!['%'] + rest, text) <==> exists|k: int|
            0 <= k <= text.len() && matches_in_full(rest, #[trigger] text.skip(k)),
    decreases text.len(),
{
    let pattern = seq!['%'] + rest;
    assert(pattern.drop_first() == rest);
    assert(text.skip(0) == text);
    if text.len() > 0 {
        let shorter = text.drop_first();
        lemma_percent_skips(rest, shorter);
        if matches_in_full(pattern, shorter) {
            // the rest starts at `k` in the shorter text, so at `k + 1` in the text
            let k = choose|k: int|
                0 <= k <= shorter.len() && matches_in_full(rest, #[trigger] shorter.skip(k));
            assert(shorter.skip(k) == text.skip(k + 1));
        }
        if exists|k: int| 0 <= k <= text.len() && matches_in_full(rest, #[trigger] text.skip(k)) {
            // the rest starts at `k` in the text: at once, or one further in the shorter text
            let k = choose|k: int|
                0 <= k <= text.len() && matches_in_full(rest, #[trigger] text.skip(k));
            if k > 0 {
                assert(shorter.skip(k - 1) == text.skip(k));
            }
        }
    }
}

/// The pattern `%` alone matches every text.
proof fn lemma_percent_matches_all(text: Seq<char>)
    ensures
        matches_in_full(seq!['%'], text),
{
    let nothing = Seq::<char>::empty();
    lemma_percent_skips(nothing, text);
    assert(matches_in_full(nothing, text.skip(text.len() as int)));
}

/// A text without U+0000 is read to its end.
pub proof fn lemma_until_nul_of_clean_text(text: Seq<char>)
    requires
        has_no_nul(text),
    ensures
        until_nul(text) == text,
    decreases text.len(),
{
    if text.len() > 0 {
        let rest = text.drop_first();
        assert(has_no_nul(rest)) by {
            assert forall|i: int| 0 <= i < rest.len() implies #[trigger] rest[i] != '\0' by {
                assert(rest[i] == text[i + 1]);
            }
        }
        lemma_until_nul_of_clean_text(rest);
        assert(seq![text[0]] + rest == text);
    }
}

/// Escaping brings no U+0000 into a text.
proof fn lemma_escaped_has_no_nul(query: Seq<char>)
    requires
        has_no_nul(query),
    ensures
        has_no_nul(escaped(query)),
    decreases query.len(),
{
    if query.len() > 0 {
        let rest = query.drop_last();
        assert(has_no_nul(rest)) by {
            assert forall|i: int| 0 <= i < rest.len() implies #[trigger] rest[i] != '\0' by {
                assert(rest[i] == query[i]);
            }
        }
        lemma_escaped_has_no_nul(rest);
    }
}

/// The pattern that a search builds matches a title if and only if the
/// query occurs in the title, as far as the store reads the title: no
/// character of the query is read as a wildcard or as an escape. The query
/// must hold no U+0000, at which the store would stop reading it.
pub proof fn law_search_pattern_finds_occurrences(query: Seq<char>, title: Seq<char>)
    requires
        has_no_nul(query),
    ensures
        like_matches(search_pattern(query), title) <==> occurs_in(query, until_nul(title)),
        has_no_nul(title) ==> (like_matches(search_pattern(query), title) <==> occurs_in(
            query,
            title,
        )),
{
    let pattern = search_pattern(query);
    lemma_escaped_has_no_nul(query);
    lemma_until_nul_of_clean_text(pattern);
    lemma_pattern_in_full_finds_occurrences(query, until_nul(title));
    if has_no_nul(title) {
        lemma_until_nul_of_clean_text(title);
    }
}

/// Read in full, the pattern that a search builds matches a text if and only
/// if the query occurs in the text.
proof fn lemma_pattern_in_full_finds_occurrences(query: Seq<char>, title: Seq<char>)
    ensures
        matches_in_full(search_pattern(query), title) <==> occurs_in(query, title),
{
    let tail = escaped(query) + seq!['%'];
    assert(search_pattern(query) == seq!['%'] + tail);
    lemma_percent_skips(tail, title);
    assert forall|k: int| 0 <= k <= title.len() implies (matches_in_full(
        tail,
        #[trigger] title.skip(k),
    ) <==> reads_at(query, title, k)) by {
        let from = title.skip(k);
        lemma_escaped_reads_literally(query, seq!['%'], from);
        lemma_percent_matches_all(from.skip(query.len() as int));
        if reads_at(query, from, 0) {
            assert(reads_at(query, title, k)) by {
                assert forall|j: int| 0 <= j < query.len() implies same_letter(
                    #[trigger] query[j],
                    title[k + j],
                ) by {
                    assert(same_letter(query[j], from[0 + j]));
                }
            }
        }
        if reads_at(query, title, k) {
            assert(reads_at(query, from, 0)) by {
                assert forall|j: int| 0 <= j < query.len() implies same_letter(
                    #[trigger] query[j],
                    from[0 + j],
                ) by {
                    assert(same_letter(query[j], title[k + j]));
                }
            }
        }
    }
    if matches_in_full(search_pattern(query), title) {
        let k = choose|k: int|
            0 <= k <= title.len() && matches_in_full(tail, #[trigger] title.skip(k));
        assert(reads_at(query, title, k));
    }
    if occurs_in(query, title) {
        let at = choose|at: int| reads_at(query, title, at);
        assert(matches_in_full(tail, title.skip(at)));
    }
}

} // verus!
