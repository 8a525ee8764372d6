//! Per-deployment generation parameters and the errors a decode can raise.

use vstd::prelude::*;

verus! {

/// How the next token is chosen from the `top_k` highest-scoring candidates.
#[derive(Clone, Copy, PartialEq, Eq, Structural, Debug)]
pub enum SelectionPolicy {
    /// Deterministically take the single highest-scoring candidate.
    Greedy,
    /// Draw uniformly at random among the `top_k` highest-scoring candidates.
    Uniform,
}

/// Immutable per-deployment decoding parameters.
#[derive(Clone, Copy, PartialEq, Eq, Structural, Debug)]
pub struct GenerationConfig {
    /// Upper bound on the number of decoding steps (engine invocations).
    pub max_new_tokens: usize,
    /// Number of highest-scoring candidates considered at each step.
    pub top_k: usize,
    /// Stop as soon as a decoded fragment ends in a sentence-terminal character.
    pub stop_on_terminal_punctuation: bool,
    /// Optional cap on the number of whitespace-delimited words of the output.
    pub max_output_words: Option<usize>,
    /// Which of the two selection policies is in force.
    pub policy: SelectionPolicy,
}

impl GenerationConfig {
    /// Both loop bounds must be positive for the decoding loop to make sense.
    pub open spec fn wf(self) -> bool {
        &&& self.max_new_tokens >= 1
        &&& self.top_k >= 1
    }

    /// The deployment defaults: greedy-of-top-k over the 2 best candidates,
    /// at most 50 new tokens, stopping at sentence-terminal punctuation or at
    /// 50 words of output.
    pub fn standard() -> (cfg: GenerationConfig)
        ensures
            cfg.wf(),
            cfg.max_new_tokens == 50,
            cfg.top_k == 2,
            cfg.stop_on_terminal_punctuation,
            cfg.max_output_words == Some(50usize),
            cfg.policy == SelectionPolicy::Greedy,
    {
        GenerationConfig {
            max_new_tokens: 50,
            top_k: 2,
            stop_on_terminal_punctuation: true,
            max_output_words: Some(50),
            policy: SelectionPolicy::Greedy,
        }
    }
}

/// Why a generation aborted. Every failure aborts the whole request; nothing
/// is retried.
#[derive(Clone, Copy, PartialEq, Eq, Structural, Debug)]
pub enum DecodeError {
    /// The tokenizer could not encode the prompt.
    Encode,
    /// The inference engine reported a failure, or returned no candidates.
    Inference,
    /// The tokenizer could not decode a sampled token id.
    Decode,
}

} // verus!
