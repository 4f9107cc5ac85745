//! Inputs and stream chunks of LLM backends, and the collection of a
//! stream into a non-streaming result.

use vstd::prelude::*;
use crate::api::types::Message;
use crate::backend::backend::{ForwardResult, StreamToken};
use crate::backend::types::FinishReason;
use crate::error::InferenceError;

verus! {

/// Input of an inference.
#[derive(Debug, Clone)]
pub enum LLMInferenceInput {
    /// Token ids, already tokenized.
    Tokens(Vec<u32>),
    /// Chat messages, to be tokenized by the backend.
    Messages(Vec<Message>),
}

/// Content of a normal stream chunk.
#[derive(Debug, Clone)]
pub enum LLMSteamChunkType {
    /// The text of one token.
    RawToken(String),
    /// Text with its token id.
    Chunk { text: String, token_id: u32 },
}

/// One chunk of a streamed inference.
#[derive(Debug, Clone)]
pub enum StreamChunk {
    /// A generated token.
    Normal(LLMSteamChunkType),
    /// The generation ended.
    Finish(FinishReason),
    /// The generation failed.
    Error(String),
}

/// The streamed token that a backend chunk becomes: a token's text (with its
/// id where the chunk carries one), the end of the stream, or the failure it
/// reports.
pub fn stream_token_of(chunk: StreamChunk) -> (r: Result<StreamToken, InferenceError>)
    ensures
        match chunk {
            StreamChunk::Normal(LLMSteamChunkType::RawToken(text)) => r matches Ok(t) && t.token
                == 0 && t.text == text && !t.is_first && !t.is_done,
            StreamChunk::Normal(LLMSteamChunkType::Chunk { text, token_id }) => r matches Ok(t)
                && t.token == token_id as i32 && t.text == text && !t.is_first && !t.is_done,
            StreamChunk::Finish(_) => r matches Ok(t) && t.token == 0 && t.text@.len() == 0
                && !t.is_first && t.is_done,
            StreamChunk::Error(e) => r matches Err(InferenceError::InferenceFailed(m)) && m == e,
        },
{
    match chunk {
        StreamChunk::Normal(LLMSteamChunkType::RawToken(text)) => Ok(
            StreamToken { token: 0, text, is_first: false, is_done: false },
        ),
        StreamChunk::Finish(_) => Ok(
            StreamToken { token: 0, text: String::new(), is_first: false, is_done: true },
        ),
        StreamChunk::Error(e) => Err(InferenceError::InferenceFailed(e)),
        StreamChunk::Normal(LLMSteamChunkType::Chunk { text, token_id }) => Ok(
            StreamToken { token: token_id as i32, text, is_first: false, is_done: false },
        ),
    }
}

/// The token ids that a chunk carries: the id of a token chunk, none for any
/// other chunk.
pub open spec fn chunk_token_ids(chunk: StreamChunk) -> Seq<i32> {
    match chunk {
        StreamChunk::Normal(LLMSteamChunkType::Chunk { token_id, .. }) => seq![token_id as i32],
        _ => Seq::empty(),
    }
}

/// The token ids that a stream of chunks carries, in order.
pub open spec fn stream_token_ids(chunks: Seq<StreamChunk>) -> Seq<i32>
    decreases chunks.len(),
{
    if chunks.len() == 0 {
        Seq::empty()
    } else {
        stream_token_ids(chunks.drop_last()) + chunk_token_ids(chunks.last())
    }
}

/// Carrying the ids of one more chunk appends that chunk's ids.
pub proof fn lemma_stream_token_ids_push(chunks: Seq<StreamChunk>, chunk: StreamChunk)
    ensures
        stream_token_ids(chunks.push(chunk)) == stream_token_ids(chunks) + chunk_token_ids(chunk),
{
    assert(chunks.push(chunk).drop_last() =~= chunks);
}

/// Whether a chunk reports a generated token.
pub open spec fn is_token_chunk(chunk: StreamChunk) -> bool {
    chunk is Normal
}

/// A stream of token chunks each carrying its id gives back exactly those
/// ids, one per token, in the order the tokens came.
pub proof fn lemma_stream_token_ids(chunks: Seq<StreamChunk>)
    requires
        forall|i: int| 0 <= i < chunks.len() ==> #[trigger] chunks[i] matches StreamChunk::Normal(
            LLMSteamChunkType::Chunk { .. },
        ),
    ensures
        stream_token_ids(chunks).len() == chunks.len(),
        forall|i: int| 0 <= i < chunks.len() ==> #[trigger] stream_token_ids(chunks)[i]
            == chunk_token_ids(chunks[i])[0],
    decreases chunks.len(),
{
    if chunks.len() > 0 {
        let p = chunks.drop_last();
        assert forall|i: int| 0 <= i < p.len() implies #[trigger] p[i] matches StreamChunk::Normal(
            LLMSteamChunkType::Chunk { .. },
        ) by {
            assert(p[i] == chunks[i]);
        }
        lemma_stream_token_ids(p);
        assert(chunks[chunks.len() - 1] matches StreamChunk::Normal(
            LLMSteamChunkType::Chunk { .. },
        ));
        assert forall|i: int| 0 <= i < chunks.len() implies #[trigger] stream_token_ids(chunks)[i]
            == chunk_token_ids(chunks[i])[0] by {
            if i < p.len() {
                assert(p[i] == chunks[i]);
                assert(stream_token_ids(p)[i] == chunk_token_ids(p[i])[0]);
            }
        }
    }
}

/// What the collection of a stream does after a chunk.
pub enum CollectStep {
    /// Go on reading.
    Continue,
    /// The stream reported its end.
    Finished,
    /// The stream reported an error; this is the inference's result.
    Failed(InferenceError),
}

/// Collects a stream of chunks into a non-streaming result: it gathers the
/// ids of the generated tokens, notes when the first token came, and turns a
/// reported error into the result.
pub struct ForwardCollector {
    /// Milliseconds until the first token, once one came.
    pub first_token_ms: Option<u64>,
    /// The ids of the tokens generated so far, in order.
    pub tokens: Vec<i32>,
}

impl ForwardCollector {
    /// A collector that has seen no chunk.
    pub fn new() -> (c: Self)
        ensures
            c.first_token_ms is None,
            c.tokens@ == Seq::<i32>::empty(),
    {
        ForwardCollector { first_token_ms: None, tokens: Vec::new() }
    }

    /// Takes in `chunk`, which came `elapsed_ms` after the start.
    pub fn on_chunk(&mut self, chunk: &StreamChunk, elapsed_ms: u64) -> (step: CollectStep)
        ensures
            final(self).first_token_ms == if is_token_chunk(*chunk) {
                match old(self).first_token_ms {
                    Some(t) => Some(t),
                    None => Some(elapsed_ms),
                }
            } else {
                old(self).first_token_ms
            },
            final(self).tokens@ == old(self).tokens@ + chunk_token_ids(*chunk),
            match chunk {
                StreamChunk::Normal(_) => step is Continue,
                StreamChunk::Finish(_) => step is Finished,
                StreamChunk::Error(e) => step matches CollectStep::Failed(
                    InferenceError::InferenceFailed(m),
                ) && m@ == e@,
            },
    {
        match chunk {
            StreamChunk::Normal(kind) => {
                if self.first_token_ms.is_none() {
                    self.first_token_ms = Some(elapsed_ms);
                }
                if let LLMSteamChunkType::Chunk { token_id, .. } = kind {
                    let id: i32 = *token_id as i32;
                    self.tokens.push(id);
                    assert(self.tokens@ =~= old(self).tokens@ + chunk_token_ids(*chunk));
                } else {
                    assert(self.tokens@ =~= old(self).tokens@ + chunk_token_ids(*chunk));
                }
                CollectStep::Continue
            },
            StreamChunk::Finish(_) => {
                assert(self.tokens@ =~= old(self).tokens@ + chunk_token_ids(*chunk));
                CollectStep::Finished
            },
            StreamChunk::Error(e) => {
                assert(self.tokens@ =~= old(self).tokens@ + chunk_token_ids(*chunk));
                CollectStep::Failed(InferenceError::InferenceFailed(e.clone()))
            },
        }
    }

    /// The result once the stream is over, `total_ms` after the start: the
    /// ids of the generated tokens in order, and the timings.
    pub fn finish(self, total_ms: u64) -> (r: ForwardResult)
        ensures
            r.tokens@ == self.tokens@,
            r.first_token_ms == self.first_token_ms,
            r.total_ms == total_ms,
    {
        ForwardResult { tokens: self.tokens, first_token_ms: self.first_token_ms, total_ms }
    }
}

} // verus!
