//! The autoregressive decoder, as a state machine.
//!
//! One `DecodeState` owns the whole state of one in-flight generation: the
//! token sequence (prompt plus everything sampled so far), the accumulated
//! text, and the step count. The inference engine itself is an external
//! collaborator that cannot be driven from verified code, so the caller runs
//! the loop: while [`DecodeState::needs_engine`] holds, it ranks the
//! vocabulary for [`DecodeState::token_ids`] and hands the ranking to
//! [`DecodeState::apply_step`]; [`DecodeState::finish`] then yields the
//! word-capped output.
//!
//! The state invariant ties every reachable state to its own prompt: the
//! token sequence always extends the prompt by exactly one id per step, and
//! the step count never passes `max_new_tokens`, so a decode can never
//! consult the engine more than `max_new_tokens` times.

use vstd::prelude::*;

use crate::config::DecodeError;
use crate::config::GenerationConfig;
use crate::config::SelectionPolicy;
use crate::sampling::select_token;
use crate::sampling::spec_select;
use crate::text::count_words;
use crate::text::ends_terminal;
use crate::text::fragment_ends_terminal;
use crate::text::join_spaces;
use crate::text::truncate_words;
use crate::text::words;

verus! {

/// The loaded tokenizer of the `tokenizers` crate. Opaque here: what it
/// returns depends on the vocabulary file it was loaded from.
#[verifier::external_type_specification]
#[verifier::external_body]
pub struct ExTokenizer(tokenizers::Tokenizer);

/// A seedable random generator of the `rand` crate. Opaque here.
#[verifier::external_type_specification]
#[verifier::external_body]
pub struct ExStdRng(rand::rngs::StdRng);

/// Relies on `tokenizers::Tokenizer::encode` (with `add_special_tokens` off)
/// and `Encoding::get_ids`: the token ids of the encoded text, or `None` if
/// the tokenizer reports an error. The ids depend on the loaded vocabulary,
/// so nothing is promised of them; the decoder works with whatever comes
/// back.
#[verifier::external_body]
fn tokenizer_encode(tok: &tokenizers::Tokenizer, input: &str) -> (r: Option<Vec<u32>>) {
    match tok.encode(input, false) {
        Ok(enc) => Some(enc.get_ids().to_vec()),
        Err(_) => None,
    }
}

/// Relies on `tokenizers::Tokenizer::decode` (skipping special tokens) for a
/// single id: the decoded text fragment, or `None` on error. The fragment
/// depends on the loaded vocabulary, so nothing is promised of it.
#[verifier::external_body]
fn tokenizer_decode_one(tok: &tokenizers::Tokenizer, id: u32) -> (r: Option<String>) {
    tok.decode(&[id], true).ok()
}

/// Relies on `rand::RngCore::next_u64` for `StdRng`: a random draw, of whose
/// value nothing can be promised.
#[verifier::external_body]
fn next_draw(rng: &mut rand::rngs::StdRng) -> (d: usize) {
    rand::RngCore::next_u64(rng) as usize
}

/// The whole state of one in-flight generation. Owned by one request; never
/// shared, so no decode can read another's tokens or text.
pub struct DecodeState {
    /// The deployment parameters this decode runs under.
    pub cfg: GenerationConfig,
    /// How many ids the encoded prompt contributed.
    pub prompt_len: usize,
    /// The token sequence: the encoded prompt, then one sampled id per step.
    pub tokens: Vec<u32>,
    /// The text decoded so far, one fragment per step.
    pub text: String,
    /// How many steps have run; each step consumes one engine ranking.
    pub steps: usize,
    /// Set once a stop rule has fired; no further step may run.
    pub stopped: bool,
    /// The encoded prompt itself, kept for the invariant that every state is
    /// derived from its own prompt alone.
    pub prompt: Ghost<Seq<u32>>,
}

impl DecodeState {
    /// The state invariant: the configuration is sane, the step count is
    /// within its budget, and the token sequence is exactly the prompt
    /// extended by one id per step.
    pub open spec fn wf(self) -> bool {
        &&& self.cfg.wf()
        &&& self.steps <= self.cfg.max_new_tokens
        &&& self.tokens@.len() == self.prompt_len + self.steps
        &&& self.prompt@.len() == self.prompt_len
        &&& self.tokens@.take(self.prompt_len as int) == self.prompt@
    }

    /// May another step run? Only while no stop rule has fired and the step
    /// budget is not exhausted.
    pub open spec fn spec_active(self) -> bool {
        !self.stopped && self.steps < self.cfg.max_new_tokens
    }

    /// The early-stop rule of one step: a sentence-terminal fragment stops
    /// the generation when so configured, and so does reaching the word cap
    /// with the text accumulated so far.
    pub open spec fn spec_should_stop(
        cfg: GenerationConfig,
        text: Seq<char>,
        frag: Seq<char>,
    ) -> bool {
        (cfg.stop_on_terminal_punctuation && ends_terminal(frag)) || (match cfg.max_output_words {
            Some(m) => words(text).len() >= m,
            None => false,
        })
    }

    /// Open a decode from an already-encoded prompt.
    pub fn start(cfg: GenerationConfig, prompt_ids: Vec<u32>) -> (s: DecodeState)
        requires
            cfg.wf(),
        ensures
            s.wf(),
            s.cfg == cfg,
            s.steps == 0,
            !s.stopped,
            s.tokens@ == prompt_ids@,
            s.prompt@ == prompt_ids@,
            s.text@ == Seq::<char>::empty(),
            s.spec_active(),
    {
        let ghost pids = prompt_ids@;
        let prompt_len = prompt_ids.len();
        let s = DecodeState {
            cfg,
            prompt_len,
            tokens: prompt_ids,
            text: String::new(),
            steps: 0,
            stopped: false,
            prompt: Ghost(pids),
        };
        proof {
            assert(s.tokens@.take(prompt_len as int) =~= s.tokens@);
        }
        s
    }

    /// Whether the caller should consult the engine for another step.
    pub fn needs_engine(&self) -> (r: bool)
        ensures
            r == self.spec_active(),
    {
        !self.stopped && self.steps < self.cfg.max_new_tokens
    }

    /// The current token sequence, to be handed to the engine.
    pub fn token_ids(&self) -> (t: &Vec<u32>)
        ensures
            t@ == self.tokens@,
    {
        &self.tokens
    }

    /// The text accumulated so far.
    pub fn text_so_far(&self) -> (t: &String)
        ensures
            t@ == self.text@,
    {
        &self.text
    }

    /// Append one sampled id to the token sequence, spending one step of the
    /// budget.
    pub fn record_token(&mut self, id: u32)
        requires
            old(self).wf(),
            old(self).spec_active(),
        ensures
            final(self).wf(),
            final(self).tokens@ == old(self).tokens@.push(id),
            final(self).steps == old(self).steps + 1,
            final(self).cfg == old(self).cfg,
            final(self).prompt == old(self).prompt,
            final(self).prompt_len == old(self).prompt_len,
            final(self).text == old(self).text,
            final(self).stopped == old(self).stopped,
    {
        self.tokens.push(id);
        self.steps = self.steps + 1;
        proof {
            assert(self.tokens@.take(self.prompt_len as int) =~= old(self).tokens@.take(
                self.prompt_len as int,
            ));
        }
    }

    /// Append one decoded fragment to the text and apply the stop rules.
    pub fn absorb_fragment(&mut self, fragment: &str)
        requires
            old(self).wf(),
        ensures
            final(self).wf(),
            final(self).text@ == old(self).text@ + fragment@,
            final(self).stopped == (old(self).stopped || Self::spec_should_stop(
                old(self).cfg,
                old(self).text@ + fragment@,
                fragment@,
            )),
            final(self).tokens == old(self).tokens,
            final(self).steps == old(self).steps,
            final(self).cfg == old(self).cfg,
            final(self).prompt == old(self).prompt,
            final(self).prompt_len == old(self).prompt_len,
    {
        self.text.append(fragment);
        let terminal = self.cfg.stop_on_terminal_punctuation && fragment_ends_terminal(fragment);
        let cap_hit = match self.cfg.max_output_words {
            Some(m) => count_words(self.text.as_str()) >= m,
            None => false,
        };
        if terminal || cap_hit {
            self.stopped = true;
        }
    }

    /// One decoding step, given the engine's ranking of the vocabulary for
    /// the current token sequence (highest score first): select a candidate,
    /// record it, decode it to a text fragment, and apply the stop rules.
    ///
    /// Succeeds whenever the engine produced at least one candidate and the
    /// tokenizer can decode the chosen id. `Inference` is returned exactly
    /// when the ranking is empty; a tokenizer failure is `Decode`. On any
    /// error the state is unchanged.
    pub fn apply_step(
        &mut self,
        tok: &tokenizers::Tokenizer,
        rng: &mut rand::rngs::StdRng,
        ranked: &Vec<u32>,
    ) -> (r: Result<(), DecodeError>)
        requires
            old(self).wf(),
            old(self).spec_active(),
        ensures
            final(self).wf(),
            final(self).cfg == old(self).cfg,
            final(self).prompt == old(self).prompt,
            final(self).prompt_len == old(self).prompt_len,
            match r {
                Ok(()) => {
                    &&& ranked@.len() > 0
                    &&& final(self).steps == old(self).steps + 1
                    &&& exists|d: usize|
                        final(self).tokens@ == old(self).tokens@.push(
                            spec_select(ranked@, old(self).cfg, d),
                        )
                    &&& (old(self).cfg.policy == SelectionPolicy::Greedy ==> final(self).tokens@
                        == old(self).tokens@.push(ranked@[0]))
                    &&& exists|frag: Seq<char>|
                        final(self).text@ == old(self).text@ + frag && final(self).stopped == (
                        old(self).stopped || Self::spec_should_stop(
                            old(self).cfg,
                            old(self).text@ + frag,
                            frag,
                        ))
                },
                Err(e) => {
                    &&& *final(self) == *old(self)
                    &&& (e == DecodeError::Inference <==> ranked@.len() == 0)
                    &&& (e == DecodeError::Inference || e == DecodeError::Decode)
                },
            },
    {
        if ranked.len() == 0 {
            return Err(DecodeError::Inference);
        }
        let draw: usize = match self.cfg.policy {
            SelectionPolicy::Greedy => 0,
            SelectionPolicy::Uniform => next_draw(rng),
        };
        let id = select_token(ranked, &self.cfg, draw);
        match tokenizer_decode_one(tok, id) {
            Some(frag) => {
                self.record_token(id);
                self.absorb_fragment(frag.as_str());
                proof {
                    assert(self.tokens@ == old(self).tokens@.push(
                        spec_select(ranked@, old(self).cfg, draw),
                    ));
                    assert(self.text@ == old(self).text@ + frag@);
                }
                Ok(())
            },
            None => Err(DecodeError::Decode),
        }
    }

    /// Close the decode: the accumulated text, truncated to at most
    /// `max_output_words` whitespace-delimited words when a cap is
    /// configured.
    pub fn finish(self) -> (out: String)
        requires
            self.wf(),
        ensures
            match self.cfg.max_output_words {
                Some(m) => {
                    &&& out@ == join_spaces(
                        words(self.text@).take(
                            vstd::math::min(m as int, words(self.text@).len() as int),
                        ),
                    )
                    &&& words(out@).len() <= m
                },
                None => out@ == self.text@,
            },
    {
        match self.cfg.max_output_words {
            Some(m) => truncate_words(self.text.as_str(), m),
            None => self.text,
        }
    }

    /// One engine consultation per step, and never more than
    /// `max_new_tokens` steps: the loop bound of any decode.
    pub proof fn lemma_step_budget(self)
        requires
            self.wf(),
        ensures
            self.steps <= self.cfg.max_new_tokens,
            self.tokens@.len() == self.prompt@.len() + self.steps,
    {
    }

    /// Every reachable decode state is derived from its own prompt alone:
    /// the token sequence always extends that request's encoded prompt, one
    /// sampled id per step. A `DecodeState` is owned by the request that
    /// opened it and never aliased, so one request's decode cannot read or
    /// alter another's tokens or text; this invariant is what each state
    /// carries of that isolation.
    pub proof fn lemma_derived_from_own_prompt(self)
        requires
            self.wf(),
        ensures
            self.tokens@.len() >= self.prompt@.len(),
            self.tokens@.take(self.prompt@.len() as int) == self.prompt@,
            self.tokens@.len() == self.prompt@.len() + self.steps,
    {
    }

    /// A sentence-terminal fragment stops the generation at its own step
    /// whenever terminal-punctuation stopping is configured, whatever the
    /// accumulated text: after absorbing it, no further step may run.
    pub proof fn lemma_terminal_fragment_stops(
        cfg: GenerationConfig,
        text: Seq<char>,
        frag: Seq<char>,
    )
        requires
            cfg.stop_on_terminal_punctuation,
            ends_terminal(frag),
        ensures
            Self::spec_should_stop(cfg, text, frag),
    {
    }
}

/// Drive one decode to completion against an engine. `rank` stands for the
/// engine invocation: handed the current token sequence, it returns the
/// vocabulary candidates ranked by descending score, or the error that
/// aborts the generation.
///
/// The loop consults the engine exactly once per step, and the state
/// invariant caps the steps at `max_new_tokens`, so a generation can never
/// invoke the engine more than `max_new_tokens` times: one possibly-failing
/// invocation is in flight per iteration, and a failing one aborts the
/// whole loop at once, never retried.
///
/// An error can only be the ranking call's own failure, or one of the two
/// errors a step raises (`Inference` for an empty ranking, `Decode` from
/// the tokenizer), and only from a state that still admitted a step; on a
/// state that admits none, the loop succeeds without consulting anything
/// and changes nothing.
pub fn run_decode_loop<F: Fn(&Vec<u32>) -> Result<Vec<u32>, DecodeError>>(
    st: &mut DecodeState,
    tok: &tokenizers::Tokenizer,
    rng: &mut rand::rngs::StdRng,
    rank: F,
) -> (r: Result<(), DecodeError>)
    requires
        old(st).wf(),
        forall|t: &Vec<u32>| #[trigger] call_requires(rank, (t,)),
    ensures
        final(st).wf(),
        final(st).cfg == old(st).cfg,
        final(st).prompt == old(st).prompt,
        final(st).prompt_len == old(st).prompt_len,
        final(st).steps <= final(st).cfg.max_new_tokens,
        final(st).steps >= old(st).steps,
        r is Ok ==> !final(st).spec_active(),
        !old(st).spec_active() ==> r is Ok && *final(st) == *old(st),
        r is Err ==> old(st).spec_active(),
        r matches Err(e) ==> (exists|t: &Vec<u32>|
            call_ensures(rank, (t,), Result::<Vec<u32>, DecodeError>::Err(e)))
            || e == DecodeError::Inference || e == DecodeError::Decode,
{
    while st.needs_engine()
        invariant
            st.wf(),
            st.cfg == old(st).cfg,
            st.prompt == old(st).prompt,
            st.prompt_len == old(st).prompt_len,
            st.steps >= old(st).steps,
            *st == *old(st) || old(st).spec_active(),
            forall|t: &Vec<u32>| #[trigger] call_requires(rank, (t,)),
        decreases st.cfg.max_new_tokens - st.steps,
    {
        let toks = st.token_ids();
        let ranked = match rank(toks) {
            Result::Ok(v) => v,
            Result::Err(e) => {
                proof {
                    assert(call_ensures(rank, (toks,), Result::<Vec<u32>, DecodeError>::Err(e)));
                }
                return Err(e);
            },
        };
        match st.apply_step(tok, rng, &ranked) {
            Result::Ok(()) => {},
            Result::Err(e) => return Err(e),
        }
    }
    Ok(())
}

/// One whole generation: encode the prompt, loop engine rankings against
/// decoding steps until a stop rule fires or the step budget is spent, and
/// cap the output at the configured word count. Whatever the engine and the
/// tokenizer return, a successful generation never exceeds the word cap,
/// and an error is only ever the tokenizer rejecting the prompt
/// (`Encode`), the ranking call's own failure propagated unchanged, or one
/// of the two errors a step raises — nothing is retried or fabricated.
pub fn generate_with<F: Fn(&Vec<u32>) -> Result<Vec<u32>, DecodeError>>(
    tok: &tokenizers::Tokenizer,
    rng: &mut rand::rngs::StdRng,
    cfg: GenerationConfig,
    prompt: &str,
    rank: F,
) -> (r: Result<String, DecodeError>)
    requires
        cfg.wf(),
        forall|t: &Vec<u32>| #[trigger] call_requires(rank, (t,)),
    ensures
        r matches Ok(out) ==> (cfg.max_output_words matches Some(m) ==> words(out@).len() <= m),
        r matches Err(e) ==> e == DecodeError::Encode || (exists|t: &Vec<u32>|
            call_ensures(rank, (t,), Result::<Vec<u32>, DecodeError>::Err(e)))
            || e == DecodeError::Inference || e == DecodeError::Decode,
{
    let mut st = match begin_generation(tok, cfg, prompt) {
        Result::Ok(s) => s,
        Result::Err(e) => return Err(e),
    };
    match run_decode_loop(&mut st, tok, rng, rank) {
        Result::Ok(()) => {},
        Result::Err(e) => return Err(e),
    }
    Ok(st.finish())
}

/// Encode the prompt and open a decode with it. Fails with
/// `DecodeError::Encode` exactly when the tokenizer rejects the prompt.
pub fn begin_generation(tok: &tokenizers::Tokenizer, cfg: GenerationConfig, prompt: &str) -> (r:
    Result<DecodeState, DecodeError>)
    requires
        cfg.wf(),
    ensures
        match r {
            Ok(s) => {
                &&& s.wf()
                &&& s.cfg == cfg
                &&& s.steps == 0
                &&& !s.stopped
                &&& s.text@ == Seq::<char>::empty()
                &&& s.tokens@ == s.prompt@
                &&& s.spec_active()
            },
            Err(e) => e == DecodeError::Encode,
        },
{
    match tokenizer_encode(tok, prompt) {
        Some(ids) => Ok(DecodeState::start(cfg, ids)),
        None => Err(DecodeError::Encode),
    }
}

} // verus!
