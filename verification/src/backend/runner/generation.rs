//! The token generation loop of the llama.cpp runner, as a state machine.
//!
//! The runner decodes the prompt, samples and sends the first token, then
//! repeats up to `max_tokens - 1` steps: stop at an end-of-generation token,
//! decode the previous token, sample the next, and send its text.  The
//! machine tells the caller which native operation to perform next and
//! takes its outcome back.

use vstd::prelude::*;
use crate::backend::error::BackendError;
use crate::backend::traits::{LLMSteamChunkType, StreamChunk};
use crate::backend::types::FinishReason;

verus! {

/// Where the generation stands.
#[derive(Debug, Clone, Copy, PartialEq, Eq, Structural)]
pub enum GenPhase {
    /// The prompt is to be decoded.
    PrefillDecode,
    /// The first token is to be sampled.
    PrefillSample,
    /// The first token's text is to be produced.
    PrefillText(i32),
    /// A step begins: the previous token is checked for end of generation,
    /// or the step budget is spent.
    CheckEnd,
    /// The previous token is to be decoded.
    Decode,
    /// The next token is to be sampled.
    Sample,
    /// The sampled token's text is to be produced.
    Text(i32),
    /// The generation is over.
    Done,
}

/// The native operation the caller is asked to perform.
#[derive(Debug, Clone, Copy, PartialEq, Eq, Structural)]
pub enum GenRequest {
    /// Decode the prompt's tokens; report with `on_decoded`.
    DecodePrompt,
    /// Decode this token; report with `on_decoded`.
    DecodeToken(i32),
    /// Read the logits and sample a token; report with `on_sampled`.
    Sample,
    /// Turn this token into text; report with `on_text`.
    TokenText(i32),
    /// Ask whether this token ends generation; report with `on_eog`.
    CheckEog(i32),
    /// The step budget is spent; report with `on_budget_spent`.
    BudgetSpent,
    /// Nothing more to do.
    Stop,
}

/// What the caller does with the outcome of a transition.
#[derive(Debug)]
pub enum GenOutput {
    /// Nothing to send.
    Nothing,
    /// Send this chunk to the stream.
    Send(StreamChunk),
    /// The prefill failed: the inference returns this error.
    Abort(BackendError),
}

/// The state of one generation.
#[derive(Debug)]
pub struct Generation {
    /// The token limit requested.
    pub max_tokens: usize,
    /// Where the generation stands.
    pub phase: GenPhase,
    /// Steps left after the first token.
    pub remaining: usize,
    /// The last token sent.
    pub prev: i32,
    /// Number of tokens sent.
    pub emitted: usize,
    /// Number of steps whose token had no text and was skipped.
    pub skipped: usize,
}

/// The number of steps that follow the first token.
pub open spec fn step_budget(max_tokens: usize) -> nat {
    if max_tokens >= 1 {
        (max_tokens - 1) as nat
    } else {
        0
    }
}

impl Generation {
    /// The consistency of the counters: in the prefill nothing is sent and the
    /// whole budget is left; afterwards every token sent used up a step,
    /// except the first, which is sent unless the prefill failed.
    pub open spec fn wf(&self) -> bool {
        match self.phase {
            GenPhase::PrefillDecode | GenPhase::PrefillSample | GenPhase::PrefillText(_) => {
                self.emitted == 0 && self.skipped == 0 && self.remaining == step_budget(
                    self.max_tokens,
                )
            },
            GenPhase::Done => self.emitted + self.skipped + self.remaining <= step_budget(
                self.max_tokens,
            ) + 1,
            _ => 1 <= self.emitted && self.emitted + self.skipped + self.remaining == step_budget(
                self.max_tokens,
            ) + 1,
        }
    }

    /// An upper bound on the transitions still to come.
    pub open spec fn steps_left(&self) -> nat {
        let r: int = self.remaining as int;
        let n: int = match self.phase {
            GenPhase::PrefillDecode => r * 4 + 5,
            GenPhase::PrefillSample => r * 4 + 4,
            GenPhase::PrefillText(_) => r * 4 + 3,
            GenPhase::CheckEnd => r * 4 + 1,
            GenPhase::Decode => (r - 1) * 4 + 4,
            GenPhase::Sample => (r - 1) * 4 + 3,
            GenPhase::Text(_) => (r - 1) * 4 + 2,
            GenPhase::Done => 0,
        };
        if n >= 0 {
            n as nat
        } else {
            0
        }
    }

    /// Whether a step is under way (so at least one is left).
    pub open spec fn in_step(&self) -> bool {
        match self.phase {
            GenPhase::Decode | GenPhase::Sample | GenPhase::Text(_) => self.remaining >= 1,
            _ => true,
        }
    }

    /// A generation of at most `max_tokens` tokens (at least the first one).
    pub fn new(max_tokens: usize) -> (g: Self)
        ensures
            g.max_tokens == max_tokens,
            g.phase == GenPhase::PrefillDecode,
            g.remaining == step_budget(max_tokens),
            max_tokens >= 1 ==> g.remaining == max_tokens - 1,
            max_tokens == 0 ==> g.remaining == 0,
            g.emitted == 0,
            g.skipped == 0,
            g.wf(),
            g.in_step(),
    {
        let remaining: usize = if max_tokens >= 1 {
            max_tokens - 1
        } else {
            0
        };
        Generation {
            max_tokens,
            phase: GenPhase::PrefillDecode,
            remaining,
            prev: 0,
            emitted: 0,
            skipped: 0,
        }
    }

    /// Whether the prompt and first token are still being handled.
    pub fn in_prefill(&self) -> (b: bool)
        ensures
            b == (self.phase is PrefillDecode || self.phase is PrefillSample
                || self.phase is PrefillText),
    {
        match self.phase {
            GenPhase::PrefillDecode | GenPhase::PrefillSample | GenPhase::PrefillText(_) => true,
            _ => false,
        }
    }

    /// The operation to perform next.
    pub fn request(&self) -> (q: GenRequest)
        ensures
            q == match self.phase {
                GenPhase::PrefillDecode => GenRequest::DecodePrompt,
                GenPhase::PrefillSample | GenPhase::Sample => GenRequest::Sample,
                GenPhase::PrefillText(t) | GenPhase::Text(t) => GenRequest::TokenText(t),
                GenPhase::CheckEnd => if self.remaining == 0 {
                    GenRequest::BudgetSpent
                } else {
                    GenRequest::CheckEog(self.prev)
                },
                GenPhase::Decode => GenRequest::DecodeToken(self.prev),
                GenPhase::Done => GenRequest::Stop,
            },
    {
        match self.phase {
            GenPhase::PrefillDecode => GenRequest::DecodePrompt,
            GenPhase::PrefillSample | GenPhase::Sample => GenRequest::Sample,
            GenPhase::PrefillText(t) | GenPhase::Text(t) => GenRequest::TokenText(t),
            GenPhase::CheckEnd => if self.remaining == 0 {
                GenRequest::BudgetSpent
            } else {
                GenRequest::CheckEog(self.prev)
            },
            GenPhase::Decode => GenRequest::DecodeToken(self.prev),
            GenPhase::Done => GenRequest::Stop,
        }
    }

    /// Takes the outcome of decoding the prompt or the previous token.  A
    /// failure of the prompt aborts the inference; a later one ends the
    /// stream with the error.
    pub fn on_decoded(&mut self, outcome: Result<(), String>) -> (out: GenOutput)
        requires
            old(self).phase == GenPhase::PrefillDecode || old(self).phase == GenPhase::Decode,
            old(self).wf(),
            old(self).in_step(),
        ensures
            final(self).wf(),
            final(self).in_step(),
            final(self).steps_left() < old(self).steps_left(),
            final(self).max_tokens == old(self).max_tokens,
            final(self).prev == old(self).prev,
            final(self).emitted == old(self).emitted,
            final(self).skipped == old(self).skipped,
            final(self).remaining == old(self).remaining,
            match outcome {
                Ok(()) => out is Nothing && final(self).phase == if old(self).phase
                    == GenPhase::PrefillDecode {
                    GenPhase::PrefillSample
                } else {
                    GenPhase::Sample
                },
                Err(e) => final(self).phase == GenPhase::Done && if old(self).phase
                    == GenPhase::PrefillDecode {
                    out matches GenOutput::Abort(BackendError::InferenceFailed(m)) && m == e
                } else {
                    out matches GenOutput::Send(StreamChunk::Error(m)) && m == e
                },
            },
    {
        let prefill = self.phase == GenPhase::PrefillDecode;
        let out = match outcome {
            Ok(()) => {
                self.phase = if prefill {
                    GenPhase::PrefillSample
                } else {
                    GenPhase::Sample
                };
                GenOutput::Nothing
            },
            Err(e) => {
                self.phase = GenPhase::Done;
                if prefill {
                    GenOutput::Abort(BackendError::InferenceFailed(e))
                } else {
                    GenOutput::Send(StreamChunk::Error(e))
                }
            },
        };
        out
    }

    /// Takes the sampled token, or `None` when no logits were available.
    pub fn on_sampled(&mut self, sampled: Option<i32>) -> (out: GenOutput)
        requires
            old(self).phase == GenPhase::PrefillSample || old(self).phase == GenPhase::Sample,
            old(self).wf(),
            old(self).in_step(),
        ensures
            final(self).wf(),
            final(self).in_step(),
            final(self).steps_left() < old(self).steps_left(),
            final(self).max_tokens == old(self).max_tokens,
            final(self).prev == old(self).prev,
            final(self).emitted == old(self).emitted,
            final(self).skipped == old(self).skipped,
            final(self).remaining == old(self).remaining,
            match sampled {
                Some(t) => out is Nothing && final(self).phase == if old(self).phase
                    == GenPhase::PrefillSample {
                    GenPhase::PrefillText(t)
                } else {
                    GenPhase::Text(t)
                },
                None => final(self).phase == GenPhase::Done && if old(self).phase
                    == GenPhase::PrefillSample {
                    out matches GenOutput::Abort(BackendError::InferenceFailed(m)) && m@
                        == "Failed to get logits"@
                } else {
                    out matches GenOutput::Send(StreamChunk::Error(m)) && m@
                        == "Failed to get logits"@
                },
            },
    {
        let prefill = self.phase == GenPhase::PrefillSample;
        match sampled {
            Some(t) => {
                self.phase = if prefill {
                    GenPhase::PrefillText(t)
                } else {
                    GenPhase::Text(t)
                };
                GenOutput::Nothing
            },
            None => {
                self.phase = GenPhase::Done;
                let m = String::from_str("Failed to get logits");
                if prefill {
                    GenOutput::Abort(BackendError::InferenceFailed(m))
                } else {
                    GenOutput::Send(StreamChunk::Error(m))
                }
            },
        }
    }

    /// Takes the text of the sampled token, or the error of producing it; a
    /// token sent goes out with its text and its id.  The first token's text
    /// failing aborts the inference; a later one's is skipped, and the step
    /// counts as done.
    pub fn on_text(&mut self, text: Result<String, String>) -> (out: GenOutput)
        requires
            old(self).phase is PrefillText || old(self).phase is Text,
            old(self).wf(),
            old(self).in_step(),
        ensures
            final(self).wf(),
            final(self).in_step(),
            final(self).steps_left() < old(self).steps_left(),
            final(self).max_tokens == old(self).max_tokens,
            old(self).phase matches GenPhase::PrefillText(t) ==> match text {
                Ok(s) => out matches GenOutput::Send(
                    StreamChunk::Normal(LLMSteamChunkType::Chunk { text: m, token_id: id }),
                ) && m == s && id == t as u32 && final(self).phase == GenPhase::CheckEnd && final(self).prev == t
                    && final(self).emitted == 1 && final(self).skipped == 0 && final(self).remaining
                    == old(self).remaining,
                Err(e) => out matches GenOutput::Abort(BackendError::TokenizerFailed(m)) && m == e
                    && final(self).phase == GenPhase::Done,
            },
            old(self).phase matches GenPhase::Text(t) ==> final(self).phase == GenPhase::CheckEnd
                && final(self).remaining == old(self).remaining - 1 && match text {
                Ok(s) => out matches GenOutput::Send(
                    StreamChunk::Normal(LLMSteamChunkType::Chunk { text: m, token_id: id }),
                ) && m == s && id == t as u32 && final(self).prev == t
                    && final(self).emitted == old(self).emitted + 1
                    && final(self).skipped == old(self).skipped,
                Err(_) => out is Nothing && final(self).prev == old(self).prev
                    && final(self).emitted == old(self).emitted
                    && final(self).skipped == old(self).skipped + 1,
            },
    {
        match self.phase {
            GenPhase::PrefillText(t) => match text {
                Ok(s) => {
                    self.prev = t;
                    self.emitted = 1;
                    self.phase = GenPhase::CheckEnd;
                    GenOutput::Send(
                        StreamChunk::Normal(LLMSteamChunkType::Chunk { text: s, token_id: t as u32 }),
                    )
                },
                Err(e) => {
                    self.phase = GenPhase::Done;
                    GenOutput::Abort(BackendError::TokenizerFailed(e))
                },
            },
            GenPhase::Text(t) => {
                self.remaining = self.remaining - 1;
                self.phase = GenPhase::CheckEnd;
                match text {
                    Ok(s) => {
                        self.prev = t;
                        self.emitted = self.emitted + 1;
                        GenOutput::Send(
                        StreamChunk::Normal(LLMSteamChunkType::Chunk { text: s, token_id: t as u32 }),
                    )
                    },
                    Err(_) => {
                        self.skipped = self.skipped + 1;
                        GenOutput::Nothing
                    },
                }
            },
            _ => GenOutput::Nothing,
        }
    }

    /// Takes whether the previous token ends generation: if so the stream
    /// finishes with `Stop`, else the step goes on to decode it.
    pub fn on_eog(&mut self, is_eog: bool) -> (out: GenOutput)
        requires
            old(self).phase == GenPhase::CheckEnd,
            old(self).remaining >= 1,
            old(self).wf(),
        ensures
            final(self).wf(),
            final(self).in_step(),
            final(self).steps_left() < old(self).steps_left(),
            final(self).max_tokens == old(self).max_tokens,
            final(self).prev == old(self).prev,
            final(self).emitted == old(self).emitted,
            final(self).skipped == old(self).skipped,
            final(self).remaining == old(self).remaining,
            is_eog ==> final(self).phase == GenPhase::Done && out matches GenOutput::Send(
                StreamChunk::Finish(FinishReason::Stop),
            ),
            !is_eog ==> final(self).phase == GenPhase::Decode && out is Nothing,
    {
        if is_eog {
            self.phase = GenPhase::Done;
            GenOutput::Send(StreamChunk::Finish(FinishReason::Stop))
        } else {
            self.phase = GenPhase::Decode;
            GenOutput::Nothing
        }
    }

    /// The step budget is spent: the stream finishes with `Length`.
    pub fn on_budget_spent(&mut self) -> (out: GenOutput)
        requires
            old(self).phase == GenPhase::CheckEnd,
            old(self).remaining == 0,
            old(self).wf(),
        ensures
            final(self).wf(),
            final(self).steps_left() < old(self).steps_left(),
            final(self).phase == GenPhase::Done,
            final(self).max_tokens == old(self).max_tokens,
            final(self).prev == old(self).prev,
            final(self).emitted == old(self).emitted,
            final(self).skipped == old(self).skipped,
            final(self).remaining == 0,
            out matches GenOutput::Send(StreamChunk::Finish(FinishReason::Length)),
    {
        self.phase = GenPhase::Done;
        GenOutput::Send(StreamChunk::Finish(FinishReason::Length))
    }
}

/// After the first token a generation has one step for every further token
/// it was allowed: `max_tokens - 1` steps, none when no token or one was
/// asked for; allowing one token more allows exactly one step more.
pub proof fn lemma_step_budget(max_tokens: usize)
    ensures
        max_tokens >= 1 ==> step_budget(max_tokens) + 1 == max_tokens,
        max_tokens <= 1 ==> step_budget(max_tokens) == 0,
        max_tokens >= 1 && max_tokens < usize::MAX ==> step_budget((max_tokens + 1) as usize)
            == step_budget(max_tokens) + 1,
{
}

/// Every step after the first token either sends a token or skips one, so
/// once the budget is spent the tokens sent and skipped add up to
/// `max(max_tokens, 1)`: a generation in which every operation succeeds and
/// no token ends generation sends exactly that many tokens.
pub proof fn lemma_budget_spent_counts(g: Generation)
    requires
        g.wf(),
        g.phase == GenPhase::CheckEnd,
        g.remaining == 0,
    ensures
        g.emitted + g.skipped == if g.max_tokens >= 1 {
            g.max_tokens as nat
        } else {
            1
        },
        g.skipped == 0 ==> g.emitted == if g.max_tokens >= 1 {
            g.max_tokens as nat
        } else {
            1
        },
{
}

/// However the native operations turn out, a generation sends at most
/// `max(max_tokens, 1)` tokens: the first, and one per later step.
pub proof fn lemma_token_limit(g: Generation)
    requires
        g.wf(),
    ensures
        g.emitted <= if g.max_tokens >= 1 {
            g.max_tokens as nat
        } else {
            1
        },
{
}

} // verus!
