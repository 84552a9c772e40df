//! Whether a model's answer counts as a success: after lower-casing, it
//! mentions an affirmative keyword, or one of the longer words of the expected
//! outcome.

use vstd::prelude::*;
use crate::text::{
    chars_of, contains_chars, contains_seq, is_word, lowercase, mentions_long_word,
    mentions_long_word_exec, to_lowercase, utf8_len, white_space,
};

verus! {

/// The affirmative keywords that the ReAct+RAG baseline accepts.
pub open spec fn react_keywords() -> Seq<Seq<char>> {
    seq!["yes"@, "fulfilled"@, "valid"@, "approved"@, "correct"@]
}

/// The affirmative keywords that TBCA accepts: the baseline's and three more.
pub open spec fn tbca_keywords() -> Seq<Seq<char>> {
    react_keywords() + seq!["executed"@, "compliant"@, "accepted"@]
}

/// `text` contains one of the keywords.
pub open spec fn mentions_keyword(text: Seq<char>, keywords: Seq<Seq<char>>) -> bool {
    exists|k: int| 0 <= k < keywords.len() && #[trigger] contains_seq(text, keywords[k])
}

/// An answer is affirmative for a task when, both lower-cased, the answer
/// contains one of the keywords or a word of the expected outcome that is
/// longer than three bytes.
pub open spec fn affirmative(answer: Seq<char>, expected: Seq<char>, keywords: Seq<Seq<char>>) -> bool {
    mentions_keyword(lowercase(answer), keywords) || mentions_long_word(
        lowercase(answer),
        lowercase(expected),
    )
}

fn mentions_any(text: &Vec<char>, keywords: &Vec<Vec<char>>) -> (r: bool)
    ensures
        r == exists|k: int| 0 <= k < keywords@.len() && #[trigger] contains_seq(text@, keywords@[k]@),
{
    let n = keywords.len();
    let mut k: usize = 0;
    while k < n
        invariant
            n == keywords@.len(),
            k <= n,
            forall|j: int| 0 <= j < k ==> !#[trigger] contains_seq(text@, keywords@[j]@),
        decreases n - k,
    {
        if contains_chars(text, &keywords[k]) {
            return true;
        }
        k = k + 1;
    }
    false
}

fn react_keyword_chars() -> (v: Vec<Vec<char>>)
    ensures
        v@.len() == react_keywords().len(),
        forall|k: int| 0 <= k < v@.len() ==> #[trigger] v@[k]@ == react_keywords()[k],
{
    let mut v: Vec<Vec<char>> = Vec::new();
    v.push(chars_of("yes"));
    v.push(chars_of("fulfilled"));
    v.push(chars_of("valid"));
    v.push(chars_of("approved"));
    v.push(chars_of("correct"));
    v
}

fn tbca_keyword_chars() -> (v: Vec<Vec<char>>)
    ensures
        v@.len() == tbca_keywords().len(),
        forall|k: int| 0 <= k < v@.len() ==> #[trigger] v@[k]@ == tbca_keywords()[k],
{
    let mut v = react_keyword_chars();
    v.push(chars_of("executed"));
    v.push(chars_of("compliant"));
    v.push(chars_of("accepted"));
    v
}

fn affirmative_with(answer: &str, expected: &str, keywords: &Vec<Vec<char>>, ks: Ghost<Seq<Seq<char>>>) -> (r: bool)
    requires
        keywords@.len() == ks@.len(),
        forall|k: int| 0 <= k < keywords@.len() ==> #[trigger] keywords@[k]@ == ks@[k],
    ensures
        r == affirmative(answer@, expected@, ks@),
{
    let answer_lower = chars_of(to_lowercase(answer).as_str());
    let expected_lower = chars_of(to_lowercase(expected).as_str());
    let by_keyword = mentions_any(&answer_lower, keywords);
    assert(by_keyword == mentions_keyword(lowercase(answer@), ks@)) by {
        if by_keyword {
            let k = choose|k: int| 0 <= k < keywords@.len() && #[trigger] contains_seq(answer_lower@, keywords@[k]@);
            assert(contains_seq(lowercase(answer@), ks@[k]));
        }
        if mentions_keyword(lowercase(answer@), ks@) {
            let k = choose|k: int| 0 <= k < ks@.len() && #[trigger] contains_seq(lowercase(answer@), ks@[k]);
            assert(contains_seq(answer_lower@, keywords@[k]@));
        }
    }
    if by_keyword {
        return true;
    }
    mentions_long_word_exec(&answer_lower, &expected_lower)
}

/// Whether the baseline accepts an answer to a task with the given expected outcome.
pub fn react_affirmative(answer: &str, expected: &str) -> (r: bool)
    ensures
        r == affirmative(answer@, expected@, react_keywords()),
{
    let kw = react_keyword_chars();
    affirmative_with(answer, expected, &kw, Ghost(react_keywords()))
}

/// Whether TBCA accepts an answer to a task with the given expected outcome.
pub fn tbca_affirmative(answer: &str, expected: &str) -> (r: bool)
    ensures
        r == affirmative(answer@, expected@, tbca_keywords()),
{
    let kw = tbca_keyword_chars();
    affirmative_with(answer, expected, &kw, Ghost(tbca_keywords()))
}

/// Every answer that the baseline accepts, TBCA accepts too: its keywords
/// include all of the baseline's, and the outcome words are the same.
pub proof fn lemma_tbca_accepts_what_react_accepts(answer: Seq<char>, expected: Seq<char>)
    ensures
        affirmative(answer, expected, react_keywords()) ==> affirmative(
            answer,
            expected,
            tbca_keywords(),
        ),
{
    if mentions_keyword(lowercase(answer), react_keywords()) {
        let k = choose|k: int|
            0 <= k < react_keywords().len() && #[trigger] contains_seq(
                lowercase(answer),
                react_keywords()[k],
            );
        assert(tbca_keywords()[k] == react_keywords()[k]);
    }
}

/// What makes an answer affirmative, in terms of its text: with both
/// lower-cased, the answer contains one of the keywords, or it contains a
/// whitespace-separated word of the expected outcome that is longer than three
/// bytes. In particular an answer that contains the whole expected outcome,
/// when that is one such word, is accepted.
pub proof fn lemma_affirmative_by_outcome_words(answer: Seq<char>, expected: Seq<char>, keywords: Seq<Seq<char>>)
    ensures
        affirmative(answer, expected, keywords) <==> (
            (exists|k: int| 0 <= k < keywords.len() && #[trigger] contains_seq(lowercase(answer), keywords[k]))
            || (exists|a: int, b: int|
                #![trigger is_word(lowercase(expected), a, b)]
                is_word(lowercase(expected), a, b)
                    && utf8_len(lowercase(expected).subrange(a, b)) > 3
                    && contains_seq(lowercase(answer), lowercase(expected).subrange(a, b)))),
        ({
            let e = lowercase(expected);
            &&& e.len() > 0
            &&& (forall|k: int| 0 <= k < e.len() ==> !white_space(#[trigger] e[k]))
            &&& utf8_len(e) > 3
            &&& contains_seq(lowercase(answer), e)
        }) ==> affirmative(answer, expected, keywords),
{
    let e = lowercase(expected);
    if e.len() > 0 && (forall|k: int| 0 <= k < e.len() ==> !white_space(#[trigger] e[k]))
        && utf8_len(e) > 3 && contains_seq(lowercase(answer), e) {
        assert(e.subrange(0, e.len() as int) =~= e);
        assert(is_word(e, 0, e.len() as int));
    }
}

} // verus!
