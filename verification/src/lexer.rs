//! Splitting a line into its tokens: the longest runs of characters that hold
//! no white space.

use vstd::prelude::*;
use vstd::std_specs::iter::IteratorSpec;
use vstd::string::StrSliceExecFns;

verus! {

/// Whether `c` is white space: a character that has Unicode's property `White_Space`.
pub open spec fn is_space(c: char) -> bool {
    ||| '\u{9}' <= c <= '\u{d}'
    ||| c == ' '
    ||| c == '\u{85}'
    ||| c == '\u{a0}'
    ||| c == '\u{1680}'
    ||| '\u{2000}' <= c <= '\u{200a}'
    ||| c == '\u{2028}'
    ||| c == '\u{2029}'
    ||| c == '\u{202f}'
    ||| c == '\u{205f}'
    ||| c == '\u{3000}'
}

/// Whether `c` is white space.
pub fn is_whitespace(c: char) -> (r: bool)
    ensures
        r == is_space(c),
{
    ('\u{9}' <= c && c <= '\u{d}') || c == ' ' || c == '\u{85}' || c == '\u{a0}' || c
        == '\u{1680}' || ('\u{2000}' <= c && c <= '\u{200a}') || c == '\u{2028}' || c
        == '\u{2029}' || c == '\u{202f}' || c == '\u{205f}' || c == '\u{3000}'
}

/// The number of characters at the start of `s` before the first white space.
pub open spec fn word_len(s: Seq<char>) -> nat
    decreases s.len(),
{
    if s.len() == 0 || is_space(s[0]) {
        0
    } else {
        1 + word_len(s.drop_first())
    }
}

/// The tokens of `s`, from left to right. White space before a token is passed
/// over; a token ends before the next white space or with `s`.
pub open spec fn tokens_of(s: Seq<char>) -> Seq<Seq<char>>
    decreases s.len(),
    via tokens_of_decreases
{
    if s.len() == 0 {
        seq![]
    } else if is_space(s[0]) {
        tokens_of(s.drop_first())
    } else {
        seq![s.take(word_len(s) as int)] + tokens_of(s.skip(word_len(s) as int))
    }
}

#[via_fn]
proof fn tokens_of_decreases(s: Seq<char>) {
    if s.len() > 0 && !is_space(s[0]) {
        lemma_word_len_bounds(s);
    }
}

/// A word is no longer than the text it starts, and not empty where the text
/// starts with something other than white space.
pub proof fn lemma_word_len_bounds(s: Seq<char>)
    ensures
        word_len(s) <= s.len(),
        s.len() > 0 && !is_space(s[0]) ==> word_len(s) >= 1,
    decreases s.len(),
{
    if s.len() > 0 && !is_space(s[0]) {
        lemma_word_len_bounds(s.drop_first());
    }
}

/// The word at the start of `s` holds no white space.
pub proof fn lemma_word_holds_no_space(s: Seq<char>, j: int)
    requires
        0 <= j < word_len(s),
    ensures
        j < s.len(),
        !is_space(s[j]),
    decreases s.len(),
{
    if j > 0 {
        lemma_word_holds_no_space(s.drop_first(), j - 1);
    }
}

/// The word at the start of `s` is the run of `n` characters that holds no
/// white space and that white space, or the end of `s`, follows.
pub proof fn lemma_word_len_is(s: Seq<char>, n: int)
    requires
        0 <= n <= s.len(),
        forall|j: int| 0 <= j < n ==> !is_space(s[j]),
        n == s.len() || is_space(s[n]),
    ensures
        word_len(s) == n,
    decreases n,
{
    if n > 0 {
        lemma_word_len_is(s.drop_first(), n - 1);
    }
}

/// White space at position `i` adds nothing to the tokens from there on.
pub proof fn lemma_tokens_skip_space(s: Seq<char>, i: int)
    requires
        0 <= i < s.len(),
        is_space(s[i]),
    ensures
        tokens_of(s.skip(i)) == tokens_of(s.skip(i + 1)),
{
    assert(s.skip(i).drop_first() == s.skip(i + 1));
}

/// A run without white space from `start` up to `end`, where white space or
/// the end of `s` follows, is the first token from `start` on.
pub proof fn lemma_tokens_take_word(s: Seq<char>, start: int, end: int)
    requires
        0 <= start < end <= s.len(),
        forall|j: int| start <= j < end ==> !is_space(s[j]),
        end == s.len() || is_space(s[end]),
    ensures
        tokens_of(s.skip(start)) == seq![s.subrange(start, end)] + tokens_of(s.skip(end)),
{
    let from = s.skip(start);
    lemma_word_len_is(from, end - start);
    assert(from.take(end - start) == s.subrange(start, end));
    assert(from.skip(end - start) == s.skip(end));
}

/// The tokens of `line`, from left to right.
pub fn tokens(line: &str) -> (r: Vec<String>)
    ensures
        r.deep_view() == tokens_of(line@),
{
    let n = line.unicode_len();
    let mut out: Vec<String> = Vec::new();
    let mut start: usize = 0;
    let mut in_word = false;
    let mut i: usize = 0;
    assert(line@.skip(0) == line@);
    assert(out.deep_view() =~= Seq::<Seq<char>>::empty());
    for c in it: line.chars()
        invariant
            it.seq() == line@,
            n == line@.len(),
            i == it.index(),
            in_word ==> start < i && forall|j: int| start <= j < i ==> !is_space(line@[j]),
            out.deep_view() + tokens_of(line@.skip(if in_word { start as int } else { i as int }))
                == tokens_of(line@),
    {
        if is_whitespace(c) {
            if in_word {
                let word = line.substring_char(start, i).to_owned();
                proof {
                    lemma_tokens_take_word(line@, start as int, i as int);
                    let before = out.deep_view();
                    let after = before.push(word@);
                    assert(after + tokens_of(line@.skip(i as int)) == before + (seq![word@]
                        + tokens_of(line@.skip(i as int))));
                }
                let ghost before = out.deep_view();
                out.push(word);
                assert(out.deep_view() == before.push(word@));
                in_word = false;
            }
            proof {
                lemma_tokens_skip_space(line@, i as int);
            }
        } else if !in_word {
            start = i;
            in_word = true;
        }
        i += 1;
    }
    if in_word {
        let word = line.substring_char(start, i).to_owned();
        proof {
            lemma_tokens_take_word(line@, start as int, i as int);
            let before = out.deep_view();
            let after = before.push(word@);
            assert(after + tokens_of(line@.skip(i as int)) == before + (seq![word@] + tokens_of(
                line@.skip(i as int),
            )));
        }
        let ghost before = out.deep_view();
        out.push(word);
        assert(out.deep_view() == before.push(word@));
    }
    assert(line@.skip(i as int).len() == 0);
    assert(out.deep_view() + Seq::<Seq<char>>::empty() == out.deep_view());
    out
}

} // verus!
