//! Cutting a token at its separators.
//!
//! A `-m` token is a line of text with `;` between its parts. Everything
//! here speaks of text as a sequence of characters, so a separator is one
//! character whatever the encoding of its neighbours.

use vstd::prelude::*;
use vstd::std_specs::iter::IteratorSpec;
use vstd::string::*;

verus! {

/// The character that stands between the parts of a token.
pub const SEPARATOR: char = ';';

/// `s` cut at its first separator: the text in front of it and the text
/// behind it, neither holding that separator. `None` when `s` has no
/// separator. The text behind may hold further separators.
pub open spec fn split_once(s: Seq<char>) -> Option<(Seq<char>, Seq<char>)> {
    match s.index_of_first(SEPARATOR) {
        Some(i) => Some((s.take(i), s.skip(i + 1))),
        None => None,
    }
}

/// A separator at `i` with none in front of it is where `split_once` cuts.
pub proof fn lemma_split_once_at(s: Seq<char>, i: int)
    requires
        0 <= i < s.len(),
        s[i] == SEPARATOR,
        forall|j: int| 0 <= j < i ==> s[j] != SEPARATOR,
    ensures
        split_once(s) == Some((s.take(i), s.skip(i + 1))),
{
    s.index_of_first_ensures(SEPARATOR);
    assert(s.contains(SEPARATOR));
}

/// Text without a separator is not cut.
pub proof fn lemma_split_once_none(s: Seq<char>)
    requires
        forall|j: int| 0 <= j < s.len() ==> s[j] != SEPARATOR,
    ensures
        split_once(s) is None,
{
    s.index_of_first_ensures(SEPARATOR);
}

/// Cutting undoes joining: two texts put together with a separator between
/// them come apart again as they were, as long as the first holds no
/// separator of its own.
pub proof fn lemma_split_once_of_joined(head: Seq<char>, tail: Seq<char>)
    requires
        !head.contains(SEPARATOR),
    ensures
        split_once(head.push(SEPARATOR) + tail) == Some((head, tail)),
{
    let s = head.push(SEPARATOR) + tail;
    let i = head.len() as int;
    assert forall|j: int| 0 <= j < i implies s[j] != SEPARATOR by {
        assert(s[j] == head[j]);
    }
    lemma_split_once_at(s, i);
    assert(s.take(i) =~= head);
    assert(s.skip(i + 1) =~= tail);
}

/// What `split_once` hands out fits together again to the text it was given.
pub proof fn lemma_split_once_rejoins(s: Seq<char>)
    requires
        split_once(s) is Some,
    ensures
        ({
            let (head, tail) = split_once(s)->0;
            &&& s == head.push(SEPARATOR) + tail
            &&& !head.contains(SEPARATOR)
        }),
{
    s.index_of_first_ensures(SEPARATOR);
    let i = s.index_of_first(SEPARATOR)->0;
    let (head, tail) = split_once(s)->0;
    assert(s =~= head.push(SEPARATOR) + tail);
}

/// Cuts `s` at its first separator.
pub fn split_at_separator<'a>(s: &'a str) -> (parts: Option<(&'a str, &'a str)>)
    ensures
        match parts {
            Some((head, tail)) => split_once(s@) == Some((head@, tail@)),
            None => split_once(s@) is None,
        },
{
    broadcast use group_string_axioms;

    let n = s.unicode_len();
    let mut rest = s.chars();
    let mut i: usize = 0;
    loop
        invariant
            n == s@.len(),
            i <= n,
            rest.remaining() == s@.skip(i as int),
            forall|j: int| 0 <= j < i ==> s@[j] != SEPARATOR,
        decreases n - i,
    {
        match rest.next() {
            None => {
                proof {
                    lemma_split_once_none(s@);
                }
                return None;
            },
            Some(c) => {
                if c == SEPARATOR {
                    proof {
                        lemma_split_once_at(s@, i as int);
                    }
                    let head = s.substring_char(0, i);
                    let tail = s.substring_char(i + 1, n);
                    return Some((head, tail));
                }
                assert(s@.skip(i as int).drop_first() =~= s@.skip(i + 1));
                i += 1;
            },
        }
    }
}

} // verus!
