use crate::recognizer::{query_after, DecodingState, ResultQuery};
use vstd::prelude::*;

verus! {

/// What the transcriber reports to the consumer of one recording session.
#[derive(Debug, Clone, PartialEq, Eq)]
pub enum Msg {
    /// A provisional transcript of the utterance still open.
    PartialResult(String),
    /// The committed transcript of an utterance that has closed.
    Result(String),
    /// The session has ended.
    Stopped,
    /// The session has begun.
    Started,
}

/// The words of a result, separated by single spaces.
pub open spec fn joined(words: Seq<Seq<char>>) -> Seq<char>
    decreases words.len(),
{
    if words.len() == 0 {
        Seq::empty()
    } else if words.len() == 1 {
        words[0]
    } else {
        joined(words.drop_last()) + seq![' '] + words.last()
    }
}

/// `m` reports the result `words` that was fetched after a feed returned
/// `state`: a committed result after `Finalized`, a provisional one after
/// `Running`.
pub open spec fn reports(m: Msg, state: DecodingState, words: Seq<Seq<char>>) -> bool {
    match state {
        DecodingState::Finalized => m matches Msg::Result(s) && s@ == joined(words),
        DecodingState::Running => m matches Msg::PartialResult(s) && s@ == joined(words),
    }
}

/// Joins the words of a recognition result with single spaces.
pub fn join_words(words: &Vec<String>) -> (r: String)
    ensures
        r@ == joined(words.deep_view()),
{
    let mut text = String::new();
    let mut i: usize = 0;
    while i < words.len()
        invariant
            i <= words@.len(),
            text@ == joined(words.deep_view().subrange(0, i as int)),
        decreases words@.len() - i,
    {
        let ghost prefix = words.deep_view().subrange(0, i as int);
        let ghost next = words.deep_view().subrange(0, i + 1);
        assert(next.drop_last() =~= prefix);
        assert(next.last() == words@[i as int]@);
        if i > 0 {
            let sep = " ";
            proof {
                reveal_strlit(" ");
            }
            text.append(sep);
        }
        text.append(words[i].as_str());
        i = i + 1;
    }
    assert(words.deep_view().subrange(0, words@.len() as int) =~= words.deep_view());
    text
}

/// Turns the result fetched after a feed into the message that reports it.
pub fn transcript_message(state: DecodingState, words: &Vec<String>) -> (r: Msg)
    ensures
        reports(r, state, words.deep_view()),
{
    let text = join_words(words);
    match state {
        DecodingState::Finalized => Msg::Result(text),
        DecodingState::Running => Msg::PartialResult(text),
    }
}

/// A feed that returned `Finalized` is followed by a query for the committed
/// result, which is reported as `Result`, never as `PartialResult`; a feed
/// that returned `Running` is followed by a query for the provisional result,
/// which is reported as `PartialResult`, never as `Result`.
pub proof fn lemma_query_matches_report(state: DecodingState, words: Seq<Seq<char>>, m: Msg)
    requires
        reports(m, state, words),
    ensures
        query_after(state) == ResultQuery::Final <==> m is Result,
        query_after(state) == ResultQuery::Partial <==> m is PartialResult,
{
}

} // verus!
