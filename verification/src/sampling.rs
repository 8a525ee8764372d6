//! Top-k selection: which of the ranked candidate token ids the decoder
//! takes at one step, under either selection policy.

use vstd::prelude::*;

use crate::config::GenerationConfig;
use crate::config::SelectionPolicy;

verus! {

/// How many candidates are actually in play at one step: `top_k`, clipped to
/// the number of ranked candidates available.
pub open spec fn spec_pool(ranked: Seq<u32>, cfg: GenerationConfig) -> int {
    if cfg.top_k <= ranked.len() {
        cfg.top_k as int
    } else {
        ranked.len() as int
    }
}

/// The id selected from `ranked` (candidates in descending score order) by
/// the configured policy, given the random draw `draw`.
pub open spec fn spec_select(ranked: Seq<u32>, cfg: GenerationConfig, draw: usize) -> u32
    recommends
        ranked.len() > 0,
        cfg.wf(),
{
    match cfg.policy {
        SelectionPolicy::Greedy => ranked[0],
        SelectionPolicy::Uniform => ranked[(draw as int) % spec_pool(ranked, cfg)],
    }
}

/// Pick the next token id from the ranked candidates.
///
/// Under `Greedy` this is the highest-scoring candidate; under `Uniform` it
/// is the candidate at `draw` modulo the pool size, so every random `draw`
/// lands in the pool and each candidate in the pool is reachable.
pub fn select_token(ranked: &Vec<u32>, cfg: &GenerationConfig, draw: usize) -> (id: u32)
    requires
        ranked@.len() > 0,
        cfg.wf(),
    ensures
        id == spec_select(ranked@, *cfg, draw),
{
    match cfg.policy {
        SelectionPolicy::Greedy => ranked[0],
        SelectionPolicy::Uniform => {
            let pool: usize = if cfg.top_k <= ranked.len() {
                cfg.top_k
            } else {
                ranked.len()
            };
            let idx: usize = draw % pool;
            ranked[idx]
        },
    }
}

/// Under the greedy policy the random draw has no influence: selection is a
/// function of the ranked candidates alone.
pub proof fn lemma_greedy_ignores_draw(
    ranked: Seq<u32>,
    cfg: GenerationConfig,
    d1: usize,
    d2: usize,
)
    requires
        cfg.policy == SelectionPolicy::Greedy,
    ensures
        spec_select(ranked, cfg, d1) == spec_select(ranked, cfg, d2),
{
}

/// With `top_k == 1` selection is deterministic under either policy: every
/// draw yields the single highest-scoring candidate.
pub proof fn lemma_top1_deterministic(
    ranked: Seq<u32>,
    cfg: GenerationConfig,
    d1: usize,
    d2: usize,
)
    requires
        ranked.len() > 0,
        cfg.wf(),
        cfg.top_k == 1,
    ensures
        spec_select(ranked, cfg, d1) == spec_select(ranked, cfg, d2),
        spec_select(ranked, cfg, d1) == ranked[0],
{
    assert(spec_pool(ranked, cfg) == 1);
    assert((d1 as int) % 1int == 0);
    assert((d2 as int) % 1int == 0);
}

} // verus!
