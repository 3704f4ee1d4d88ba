//! Reduction of streamed responses.
//!
//! A streaming provider call yields an ordered sequence of deltas whose
//! final element is flagged done. The aggregator accumulates the fragments
//! into the whole response text; on cancellation the partial text is
//! discarded, never handed to the transcript.

use vstd::prelude::*;
use vstd::string::StringExecFns;

use crate::errors::ConversationError;
use crate::provider::{LlmResponse, LlmStreamDelta};

verus! {

/// Concatenation of the first `n` fragments of a delta sequence.
pub open spec fn concat_fragments(s: Seq<LlmStreamDelta>, n: int) -> Seq<char>
    decreases n,
{
    if n <= 0 {
        Seq::empty()
    } else {
        concat_fragments(s, n - 1) + s[n - 1].delta@
    }
}

/// Some delta of the sequence is flagged done.
pub open spec fn has_done(s: Seq<LlmStreamDelta>) -> bool {
    exists|i: int| 0 <= i < s.len() && s[i].done
}

/// Mathematical state of an aggregator: the text accumulated so far and
/// whether the final delta has arrived.
pub ghost struct AggregatorModel {
    pub content: Seq<char>,
    pub done: bool,
}

/// Accumulates stream deltas into the whole response text. An observer that
/// wants incremental display reads each delta before pushing it; the
/// aggregator independently keeps the full text for the transcript.
pub struct StreamAggregator {
    content: String,
    done: bool,
}

impl View for StreamAggregator {
    type V = AggregatorModel;

    closed spec fn view(&self) -> AggregatorModel {
        AggregatorModel { content: self.content@, done: self.done }
    }
}

impl StreamAggregator {
    /// Creates an aggregator with no text accumulated.
    pub fn new() -> (a: StreamAggregator)
        ensures
            a@.content == Seq::<char>::empty(),
            !a@.done,
    {
        StreamAggregator { content: String::new(), done: false }
    }

    /// Consumes one delta: the fragment is appended to the accumulated
    /// text, and the done flag of the final delta is recorded.
    pub fn push(&mut self, d: &LlmStreamDelta)
        requires
            !old(self)@.done,
        ensures
            final(self)@.content == old(self)@.content + d.delta@,
            final(self)@.done == d.done,
    {
        self.content.append(d.delta.as_str());
        self.done = d.done;
    }

    /// True once the final delta has been consumed.
    pub fn is_done(&self) -> (r: bool)
        ensures
            r == self@.done,
    {
        self.done
    }

    /// Reduces the consumed stream to a whole response. Streamed deltas
    /// carry no finish reason or usage, so none is reported.
    pub fn finish(self, model: String) -> (r: LlmResponse)
        requires
            self@.done,
        ensures
            r.content@ == self@.content,
            r.model@ == model@,
            r.finish_reason is None,
            r.usage is None,
    {
        LlmResponse { model, content: self.content, finish_reason: None, usage: None }
    }

    /// Abandons the stream mid-call: the partial text is discarded and the
    /// cancellation is surfaced; nothing is ever appended to a transcript.
    pub fn cancel(self) -> (e: ConversationError)
        ensures
            e == ConversationError::Cancelled,
    {
        ConversationError::Cancelled
    }
}

/// Reduces a complete delta sequence to a whole response: the content is
/// the concatenation of all fragments up to and including the first delta
/// flagged done. A sequence that never signals done cannot be interpreted
/// as a response and is rejected as malformed.
pub fn aggregate(deltas: &Vec<LlmStreamDelta>, model: String) -> (r: Result<
    LlmResponse,
    ConversationError,
>)
    ensures
        r is Ok <==> has_done(deltas@),
        r matches Ok(resp) ==> exists|k: int|
            0 <= k < deltas@.len() && deltas@[k].done && (forall|j: int|
                0 <= j < k ==> !deltas@[j].done) && resp.content@ == concat_fragments(
                deltas@,
                k + 1,
            ) && resp.model@ == model@ && resp.finish_reason is None && resp.usage is None,
        r is Err ==> r == Err::<LlmResponse, ConversationError>(
            ConversationError::MalformedResponse,
        ),
{
    let mut agg = StreamAggregator::new();
    let mut i: usize = 0;
    while i < deltas.len()
        invariant
            i <= deltas@.len(),
            !agg@.done,
            agg@.content == concat_fragments(deltas@, i as int),
            forall|j: int| 0 <= j < i ==> !deltas@[j].done,
        decreases deltas@.len() - i,
    {
        agg.push(&deltas[i]);
        if agg.is_done() {
            assert(deltas@[i as int].done);
            let resp = agg.finish(model);
            assert(resp.content@ == concat_fragments(deltas@, i + 1));
            return Ok(resp);
        }
        i = i + 1;
    }
    assert(!has_done(deltas@));
    Err(ConversationError::MalformedResponse)
}

} // verus!
