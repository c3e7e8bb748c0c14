use vstd::prelude::*;

verus! {

/// What a recognizer reports after it has been fed a window.
#[derive(PartialEq, Eq, Structural, Clone, Copy, Debug)]
pub enum DecodingState {
    /// The current utterance has closed; its committed transcript is ready.
    Finalized,
    /// The utterance is still open; only a provisional transcript exists.
    Running,
}

/// Which of the recognizer's results to fetch after a feed.
#[derive(PartialEq, Eq, Structural, Clone, Copy, Debug)]
pub enum ResultQuery {
    /// The committed transcript of the utterance that just closed.
    Final,
    /// The provisional transcript of the utterance still open.
    Partial,
}

/// The query that follows a feed that returned `state`.
pub open spec fn query_after(state: DecodingState) -> ResultQuery {
    match state {
        DecodingState::Finalized => ResultQuery::Final,
        DecodingState::Running => ResultQuery::Partial,
    }
}

/// Chooses the result to fetch from the recognizer after a feed.
pub fn query_for(state: DecodingState) -> (r: ResultQuery)
    ensures
        r == query_after(state),
{
    match state {
        DecodingState::Finalized => ResultQuery::Final,
        DecodingState::Running => ResultQuery::Partial,
    }
}

} // verus!
