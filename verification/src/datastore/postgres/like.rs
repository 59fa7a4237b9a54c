//! `LIKE` patterns for substring search.
//!
//! SQL has no operator for "contains"; a backend asks for it with `LIKE` and a
//! pattern. In a pattern `%` stands for any run of characters, `_` for any one
//! character, and a backslash takes the special meaning from the character
//! behind it. A substring therefore goes into a pattern escaped, between two
//! `%`. This file builds that pattern and proves that it matches a text
//! exactly when the text contains the substring.

use crate::datastore::substring::{is_substring, occurs_at};
use vstd::prelude::*;

verus! {

/// The character has a meaning of its own in a pattern.
pub open spec fn is_special(c: char) -> bool {
    c == '%' || c == '_' || c == '\\'
}

/// The piece of pattern that matches the character `c` and nothing else.
pub open spec fn escaped_char(c: char) -> Seq<char> {
    if is_special(c) {
        seq!['\\', c]
    } else {
        seq![c]
    }
}

/// The pattern that matches the string `s` and nothing else.
pub open spec fn escaped(s: Seq<char>) -> Seq<char>
    decreases s.len(),
{
    if s.len() == 0 {
        seq![]
    } else {
        escaped_char(s.first()) + escaped(s.drop_first())
    }
}

/// The pattern for the texts that contain `s`.
pub open spec fn pattern_for(s: Seq<char>) -> Seq<char> {
    seq!['%'] + escaped(s) + seq!['%']
}

/// `text LIKE pattern`, with the backslash as the escape character.
pub open spec fn like(pattern: Seq<char>, text: Seq<char>) -> bool
    decreases pattern.len(),
{
    if pattern.len() == 0 {
        text.len() == 0
    } else if pattern[0] == '%' {
        exists|k: int| 0 <= k <= text.len() && like(pattern.drop_first(), #[trigger] text.skip(k))
    } else if pattern[0] == '_' {
        text.len() > 0 && like(pattern.drop_first(), text.drop_first())
    } else if pattern[0] == '\\' && pattern.len() >= 2 {
        text.len() > 0 && text[0] == pattern[1] && like(pattern.skip(2), text.drop_first())
    } else {
        text.len() > 0 && text[0] == pattern[0] && like(pattern.drop_first(), text.drop_first())
    }
}

/// Escaping goes character by character, so a string with one more character
/// at its end gets that character's piece at the end of its pattern.
pub proof fn lemma_escaped_push(s: Seq<char>, c: char)
    ensures
        escaped(s.push(c)) == escaped(s) + escaped_char(c),
    decreases s.len(),
{
    if s.len() == 0 {
        assert(s.push(c).drop_first() =~= s);
        assert(escaped(s.push(c)) =~= escaped_char(c) + escaped(s));
        assert(escaped(s) + escaped_char(c) =~= escaped_char(c));
    } else {
        assert(s.push(c).drop_first() =~= s.drop_first().push(c));
        lemma_escaped_push(s.drop_first(), c);
        assert(escaped(s.push(c)) =~= escaped(s) + escaped_char(c));
    }
}

/// A pattern that begins with the escaped string `s` matches the texts that
/// begin with `s` and go on as the rest of the pattern asks.
pub proof fn lemma_like_escaped_prefix(s: Seq<char>, rest: Seq<char>, text: Seq<char>)
    ensures
        like(escaped(s) + rest, text) == {
            &&& s.len() <= text.len()
            &&& text.take(s.len() as int) == s
            &&& like(rest, text.skip(s.len() as int))
        },
    decreases s.len(),
{
    let pattern = escaped(s) + rest;
    if s.len() == 0 {
        assert(pattern =~= rest);
        assert(text.skip(0) =~= text);
        assert(text.take(0) =~= s);
    } else {
        let c = s.first();
        let tail = s.drop_first();
        let shorter = escaped(tail) + rest;
        assert(pattern[0] == escaped_char(c)[0]);
        if is_special(c) {
            assert(pattern[1] == c);
            assert(pattern.skip(2) =~= shorter);
        } else {
            assert(pattern.drop_first() =~= shorter);
        }
        assert(like(pattern, text) == (text.len() > 0 && text[0] == c && like(
            shorter,
            text.drop_first(),
        )));
        if text.len() > 0 && s.len() <= text.len() {
            let after = text.drop_first();
            let n = s.len() as int;
            lemma_like_escaped_prefix(tail, rest, after);
            assert(after.skip(n - 1) =~= text.skip(n));
            if text[0] == c && after.take(n - 1) == tail {
                assert forall|j: int| 0 <= j < n implies text.take(n)[j] == s[j] by {
                    if j > 0 {
                        assert(after.take(n - 1)[j - 1] == tail[j - 1]);
                    }
                }
                assert(text.take(n) =~= s);
            }
            if text.take(n) == s {
                assert(text[0] == text.take(n)[0]);
                assert forall|j: int| 0 <= j < n - 1 implies after.take(n - 1)[j] == tail[j] by {
                    assert(text.take(n)[j + 1] == s[j + 1]);
                }
                assert(after.take(n - 1) =~= tail);
            }
        } else if text.len() > 0 {
            lemma_like_escaped_prefix(tail, rest, text.drop_first());
        }
    }
}

/// The pattern of a lone `%` matches every text.
pub proof fn lemma_like_anything(text: Seq<char>)
    ensures
        like(seq!['%'], text),
{
    let pattern = seq!['%'];
    let end = text.len() as int;
    assert(pattern.drop_first().len() == 0);
    assert(text.skip(end).len() == 0);
    assert(like(pattern.drop_first(), text.skip(end)));
}

/// A text matches the pattern for `s` exactly when it contains `s`, whatever
/// characters `s` holds.
pub proof fn lemma_pattern_is_containment(s: Seq<char>, text: Seq<char>)
    ensures
        like(pattern_for(s), text) == is_substring(text, s),
{
    let pattern = pattern_for(s);
    let inner = escaped(s) + seq!['%'];
    assert(pattern[0] == '%');
    assert(pattern.drop_first() =~= inner);
    assert forall|k: int| 0 <= k <= text.len() implies like(inner, #[trigger] text.skip(k))
        == occurs_at(text, s, k) by {
        let from = text.skip(k);
        lemma_like_escaped_prefix(s, seq!['%'], from);
        lemma_like_anything(from.skip(s.len() as int));
        if k + s.len() <= text.len() {
            assert(from.take(s.len() as int) =~= text.subrange(k, k + s.len()));
        }
    }
    if like(pattern, text) {
        let k = choose|k: int| 0 <= k <= text.len() && like(inner, #[trigger] text.skip(k));
        assert(occurs_at(text, s, k));
    }
    if is_substring(text, s) {
        let k = choose|k: int| occurs_at(text, s, k);
        assert(like(inner, text.skip(k)));
    }
}

/// Builds the `LIKE` pattern for the texts that contain `substring`: the
/// substring between two `%`, with a backslash before each of its characters
/// that a pattern would read as a wildcard or as an escape.
pub fn like_pattern(substring: &str) -> (pattern: String)
    ensures
        pattern@ == pattern_for(substring@),
{
    let n = substring.unicode_len();
    let mut pattern = "%".to_owned();
    proof {
        reveal_strlit("%");
        reveal_strlit("\\");
        assert(pattern@ =~= seq!['%'] + escaped(substring@.take(0)));
    }
    let mut i: usize = 0;
    while i < n
        invariant
            i <= n,
            n == substring@.len(),
            pattern@ == seq!['%'] + escaped(substring@.take(i as int)),
            "\\"@ == seq!['\\'],
        decreases n - i,
    {
        let c = substring.get_char(i);
        if c == '%' || c == '_' || c == '\\' {
            pattern.append("\\");
        }
        pattern.append(substring.substring_char(i, i + 1));
        proof {
            let before = substring@.take(i as int);
            lemma_escaped_push(before, c);
            assert(substring@.take(i + 1) =~= before.push(c));
            assert(substring@.subrange(i as int, i + 1) =~= seq![c]);
            assert(pattern@ =~= seq!['%'] + escaped(substring@.take(i + 1)));
        }
        i += 1;
    }
    pattern.append("%");
    proof {
        reveal_strlit("%");
        assert(substring@.take(n as int) =~= substring@);
        assert(pattern@ =~= pattern_for(substring@));
    }
    pattern
}

} // verus!
