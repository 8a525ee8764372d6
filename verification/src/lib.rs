//! A small text-generation service library: the autoregressive decoding
//! loop of a causal language model, with top-k sampling, and the pure
//! request-routing rules of the HTTP front end that serves it.
//!
//! The inference engine and the tokenizer are external collaborators behind
//! narrow interfaces. The engine ranks the vocabulary for a token sequence;
//! the decoder here owns everything else: which candidate is taken at each
//! step, when generation stops, and how the output is capped to a word
//! budget. One [`decode::DecodeState`] owns the whole state of one
//! generation, so concurrent requests cannot contaminate each other.

pub mod config;
pub mod decode;
pub mod router;
pub mod sampling;
pub mod text;
