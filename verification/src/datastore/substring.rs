//! Case-sensitive substring search over the characters of a string.

use vstd::prelude::*;
use vstd::std_specs::iter::IteratorSpec;

verus! {

/// `pat` stands in `text` starting at character `i`.
pub open spec fn occurs_at(text: Seq<char>, pat: Seq<char>, i: int) -> bool {
    &&& 0 <= i
    &&& i + pat.len() <= text.len()
    &&& text.subrange(i, i + pat.len()) == pat
}

/// `pat` stands somewhere in `text`. The empty pattern stands in every text.
pub open spec fn is_substring(text: Seq<char>, pat: Seq<char>) -> bool {
    exists|i: int| occurs_at(text, pat, i)
}

/// The characters of `s`, in order.
fn chars_of(s: &str) -> (v: Vec<char>)
    ensures
        v@ == s@,
{
    broadcast use vstd::string::group_string_axioms;

    let mut v: Vec<char> = Vec::new();
    let mut it = s.chars();
    loop
        invariant
            v@ + it.remaining() == s@,
            it.obeys_prophetic_iter_laws(),
            it.decrease() is Some,
        ensures
            v@ == s@,
        decreases it.decrease()->0,
    {
        match it.next() {
            Some(c) => {
                v.push(c);
            },
            None => {
                break ;
            },
        }
    }
    v
}

/// Compares `pat` with the window of `text` that starts at `start`.
fn window_equals(text: &Vec<char>, pat: &Vec<char>, start: usize) -> (r: bool)
    requires
        start + pat.len() <= text.len(),
    ensures
        r == occurs_at(text@, pat@, start as int),
{
    let mut k: usize = 0;
    while k < pat.len()
        invariant
            k <= pat.len(),
            start + pat.len() <= text.len(),
            forall|j: int| 0 <= j < k ==> text@[start + j] == pat@[j],
        decreases pat.len() - k,
    {
        if text[start + k] != pat[k] {
            proof {
                let window = text@.subrange(start as int, start + pat.len());
                assert(window[k as int] != pat@[k as int]);
            }
            return false;
        }
        k += 1;
    }
    assert(text@.subrange(start as int, start + pat.len()) =~= pat@);
    true
}

/// Searches `text` for `pat` window by window, from the left.
fn contains_chars(text: &Vec<char>, pat: &Vec<char>) -> (r: bool)
    ensures
        r == is_substring(text@, pat@),
{
    if pat.len() > text.len() {
        return false;
    }
    let last: usize = text.len() - pat.len();
    let mut i: usize = 0;
    loop
        invariant
            i <= last,
            last == text.len() - pat.len(),
            forall|j: int| 0 <= j < i ==> !occurs_at(text@, pat@, j),
        decreases last - i,
    {
        if window_equals(text, pat, i) {
            return true;
        }
        if i == last {
            return false;
        }
        i += 1;
    }
}

/// Tells whether `pat` occurs in `text`, character for character.
pub fn contains(text: &str, pat: &str) -> (r: bool)
    ensures
        r == is_substring(text@, pat@),
{
    let text_chars = chars_of(text);
    let pat_chars = chars_of(pat);
    contains_chars(&text_chars, &pat_chars)
}

} // verus!
