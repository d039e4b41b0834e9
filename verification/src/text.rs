//! Character-level text helpers: whitespace splitting, substring
//! search, and trimming of one trailing newline. They carry the exact
//! specifications that the rendering and extraction contracts build on.

use vstd::prelude::*;
use vstd::string::{StringExecFns, StrSliceExecFns};

verus! {

/// The characters with Unicode's `White_Space` property, which is what
/// `split_whitespace` separates words on.
pub open spec fn is_space_char(c: char) -> bool {
    ||| c == ' '
    ||| c == '\u{9}'
    ||| c == '\u{a}'
    ||| c == '\u{b}'
    ||| c == '\u{c}'
    ||| c == '\u{d}'
    ||| c == '\u{85}'
    ||| c == '\u{a0}'
    ||| c == '\u{1680}'
    ||| ('\u{2000}' <= c && c <= '\u{200a}')
    ||| c == '\u{2028}'
    ||| c == '\u{2029}'
    ||| c == '\u{202f}'
    ||| c == '\u{205f}'
    ||| c == '\u{3000}'
}

/// Whether `c` has Unicode's `White_Space` property.
pub fn is_space(c: char) -> (result: bool)
    ensures
        result == is_space_char(c),
{
    c == ' ' || c == '\u{9}' || c == '\u{a}' || c == '\u{b}' || c == '\u{c}' || c == '\u{d}'
        || c == '\u{85}' || c == '\u{a0}' || c == '\u{1680}' || ('\u{2000}' <= c && c
        <= '\u{200a}') || c == '\u{2028}' || c == '\u{2029}' || c == '\u{202f}' || c == '\u{205f}'
        || c == '\u{3000}'
}

/// The length of the whitespace-free word at the start of `s`: the
/// number of characters before the first whitespace character, or all
/// of `s` when it holds none.
pub open spec fn word_length(s: Seq<char>) -> int
    decreases s.len(),
{
    if s.len() == 0 || is_space_char(s[0]) {
        0
    } else {
        1 + word_length(s.drop_first())
    }
}

pub proof fn lemma_word_length_bounds(s: Seq<char>)
    ensures
        0 <= word_length(s) <= s.len(),
    decreases s.len(),
{
    if s.len() > 0 && !is_space_char(s[0]) {
        lemma_word_length_bounds(s.drop_first());
    }
}

/// `word_length` is the unique boundary: every character before it is
/// not whitespace, and it ends at whitespace or at the end of `s`.
pub proof fn lemma_word_length_is(s: Seq<char>, k: int)
    requires
        0 <= k <= s.len(),
        forall|m: int| 0 <= m < k ==> !is_space_char(s[m]),
        k == s.len() || is_space_char(s[k]),
    ensures
        word_length(s) == k,
    decreases s.len(),
{
    if k == 0 {
    } else {
        assert(!is_space_char(s[0]));
        let rest = s.drop_first();
        assert(forall|m: int| 0 <= m < k - 1 ==> !is_space_char(rest[m]) && rest[m] == s[m + 1]);
        lemma_word_length_is(rest, k - 1);
    }
}

/// The words of `s`: the maximal runs of non-whitespace characters, in
/// order, with all whitespace dropped.
pub open spec fn split_whitespace(s: Seq<char>) -> Seq<Seq<char>>
    decreases s.len(),
    via split_whitespace_decreases
{
    if s.len() == 0 {
        Seq::empty()
    } else if is_space_char(s[0]) {
        split_whitespace(s.drop_first())
    } else {
        seq![s.take(word_length(s))] + split_whitespace(s.skip(word_length(s)))
    }
}

#[via_fn]
proof fn split_whitespace_decreases(s: Seq<char>) {
    if s.len() > 0 && !is_space_char(s[0]) {
        lemma_word_length_bounds(s.drop_first());
    }
}

/// Splits a string into its whitespace-separated words.
pub fn split_words(s: &str) -> (result: Vec<String>)
    ensures
        result.deep_view() == split_whitespace(s@),
{
    let length = s.unicode_len();
    let mut result: Vec<String> = Vec::new();
    proof {
        assert(s@.skip(0) =~= s@);
        assert(result.deep_view() =~= Seq::<Seq<char>>::empty());
        assert(result.deep_view() + split_whitespace(s@) =~= split_whitespace(s@));
    }
    let mut i: usize = 0;
    while i < length
        invariant
            i <= length,
            length == s@.len(),
            result.deep_view() + split_whitespace(s@.skip(i as int)) == split_whitespace(s@),
        decreases length - i,
    {
        if is_space(s.get_char(i)) {
            proof {
                assert(s@.skip(i as int).drop_first() =~= s@.skip(i + 1));
                assert(split_whitespace(s@.skip(i as int)) == split_whitespace(s@.skip(i + 1)));
            }
            i = i + 1;
        } else {
            let ghost from = i as int;
            let mut j: usize = i + 1;
            while j < length
                invariant
                    from < j <= length,
                    length == s@.len(),
                    forall|m: int| from <= m < j ==> !is_space_char(s@[m]),
                ensures
                    from < j <= length,
                    forall|m: int| from <= m < j ==> !is_space_char(s@[m]),
                    j == length || is_space_char(s@[j as int]),
                decreases length - j,
            {
                if is_space(s.get_char(j)) {
                    break ;
                }
                j = j + 1;
            }
            let word = s.substring_char(i, j).to_owned();
            proof {
                let remaining = s@.skip(from);
                assert(forall|m: int|
                    0 <= m < j - from ==> remaining[m] == s@[m + from] && !is_space_char(
                        remaining[m],
                    ));
                assert(j - from == remaining.len() || is_space_char(remaining[j - from]));
                lemma_word_length_is(remaining, j - from);
                assert(remaining.take(j - from) =~= s@.subrange(from, j as int));
                assert(remaining.skip(j - from) =~= s@.skip(j as int));
                assert(split_whitespace(remaining) == seq![s@.subrange(from, j as int)]
                    + split_whitespace(s@.skip(j as int)));
            }
            let ghost words_before = result.deep_view();
            result.push(word);
            proof {
                assert(result.deep_view() =~= words_before.push(s@.subrange(from, j as int)));
                assert(result.deep_view() + split_whitespace(s@.skip(j as int))
                    =~= words_before + split_whitespace(s@.skip(from)));
            }
            i = j;
        }
    }
    proof {
        assert(s@.skip(length as int) =~= Seq::<char>::empty());
        assert(result.deep_view() =~= result.deep_view() + split_whitespace(
            s@.skip(length as int),
        ));
    }
    result
}

/// Whether `c` occurs in `s`.
pub fn contains_char(s: &str, c: char) -> (result: bool)
    ensures
        result == s@.contains(c),
{
    let length = s.unicode_len();
    let mut i: usize = 0;
    while i < length
        invariant
            i <= length,
            length == s@.len(),
            forall|m: int| 0 <= m < i ==> s@[m] != c,
        decreases length - i,
    {
        if s.get_char(i) == c {
            return true;
        }
        i = i + 1;
    }
    false
}

/// `s` with exactly one trailing `"\r\n"` or `"\n"` removed, and
/// nothing else: other trailing whitespace, and anything leading, stays.
pub open spec fn trim_end_newline(s: Seq<char>) -> Seq<char> {
    if s.len() >= 2 && s[s.len() - 2] == '\r' && s[s.len() - 1] == '\n' {
        s.take(s.len() - 2)
    } else if s.len() >= 1 && s[s.len() - 1] == '\n' {
        s.take(s.len() - 1)
    } else {
        s
    }
}

/// Removes one trailing `"\r\n"` or `"\n"`, if the string ends in one.
pub fn trim_newline(s: &str) -> (result: String)
    ensures
        result@ == trim_end_newline(s@),
{
    let length = s.unicode_len();
    if length >= 2 && s.get_char(length - 2) == '\r' && s.get_char(length - 1) == '\n' {
        let kept = s.substring_char(0, length - 2).to_owned();
        proof {
            assert(s@.subrange(0, s@.len() - 2) =~= s@.take(s@.len() - 2));
        }
        kept
    } else if length >= 1 && s.get_char(length - 1) == '\n' {
        let kept = s.substring_char(0, length - 1).to_owned();
        proof {
            assert(s@.subrange(0, s@.len() - 1) =~= s@.take(s@.len() - 1));
        }
        kept
    } else {
        s.to_owned()
    }
}

} // verus!
