//! The decoder driven end to end with a real `tokenizers` tokenizer and
//! rankings supplied in place of the inference engine.

use gpt2_service::config::DecodeError;
use gpt2_service::config::GenerationConfig;
use gpt2_service::config::SelectionPolicy;
use gpt2_service::decode::begin_generation;
use gpt2_service::decode::generate_with;
use gpt2_service::decode::run_decode_loop;
use gpt2_service::text::count_words;
use rand::rngs::StdRng;
use rand::SeedableRng;
use tokenizers::models::bpe::Vocab;
use tokenizers::models::wordlevel::WordLevel;
use tokenizers::pre_tokenizers::whitespace::Whitespace;
use tokenizers::Tokenizer;

/// A small word-level tokenizer built in memory: each vocabulary entry is one
/// whitespace-delimited token.
fn tiny_tokenizer() -> Tokenizer {
    let vocab: Vocab = [
        ("<unk>".to_string(), 0u32),
        ("The".to_string(), 1),
        ("sky".to_string(), 2),
        ("is".to_string(), 3),
        ("blue".to_string(), 4),
        ("very".to_string(), 5),
        ("wide".to_string(), 6),
        (".".to_string(), 7),
    ]
    .into_iter()
    .collect();
    let model = WordLevel::builder()
        .vocab(vocab)
        .unk_token("<unk>".to_string())
        .build()
        .unwrap();
    let mut tok = Tokenizer::new(model);
    tok.with_pre_tokenizer(Some(Whitespace));
    tok
}

fn cfg(top_k: usize, max_new_tokens: usize) -> GenerationConfig {
    GenerationConfig {
        max_new_tokens,
        top_k,
        stop_on_terminal_punctuation: true,
        max_output_words: Some(50),
        policy: SelectionPolicy::Greedy,
    }
}

#[test]
fn empty_prompt_still_decodes() {
    let tok = tiny_tokenizer();
    let mut rng = StdRng::seed_from_u64(1);
    let mut st = begin_generation(&tok, cfg(1, 2), "").unwrap();
    assert_eq!(st.token_ids().len(), 0);
    assert!(st.needs_engine());
    let r = st.apply_step(&tok, &mut rng, &vec![4, 2]);
    assert_eq!(r, Ok(()));
    assert_eq!(st.token_ids(), &vec![4]);
    assert_eq!(st.text_so_far().as_str(), "blue");
}

#[test]
fn sampled_ids_extend_the_encoded_prompt() {
    let tok = tiny_tokenizer();
    let prompt = "The sky is";
    let prompt_ids = tok.encode(prompt, false).unwrap().get_ids().to_vec();
    assert_eq!(prompt_ids, vec![1, 2, 3]);

    let mut rng = StdRng::seed_from_u64(7);
    let mut st = begin_generation(&tok, cfg(5, 90), prompt).unwrap();
    assert_eq!(st.token_ids(), &prompt_ids);

    // rankings stand in for the engine, one per step; greedy takes the head
    let rankings: Vec<Vec<u32>> = vec![vec![5, 4, 2, 3, 1], vec![4, 5, 2, 3, 1], vec![7, 1, 2, 3, 4]];
    let mut fed = 0usize;
    while st.needs_engine() && fed < rankings.len() {
        let r = st.apply_step(&tok, &mut rng, &rankings[fed]);
        assert_eq!(r, Ok(()));
        fed += 1;
    }
    // the third fragment is ".", so generation stopped there
    assert_eq!(fed, 3);
    assert!(!st.needs_engine());
    // the token sequence is exactly the encoded prompt plus the sampled ids
    assert_eq!(st.token_ids(), &vec![1, 2, 3, 5, 4, 7]);
    let out = st.finish();
    assert!(!out.is_empty());
    assert_eq!(out, "veryblue.");
}

#[test]
fn greedy_decoding_is_repeatable() {
    let tok = tiny_tokenizer();
    let rankings: Vec<Vec<u32>> = vec![vec![4, 2], vec![5, 4], vec![7, 1]];
    let mut outputs: Vec<String> = Vec::new();
    for seed in [3u64, 99u64] {
        let mut rng = StdRng::seed_from_u64(seed);
        let mut st = begin_generation(&tok, cfg(1, 10), "The sky").unwrap();
        let mut fed = 0usize;
        while st.needs_engine() && fed < rankings.len() {
            st.apply_step(&tok, &mut rng, &rankings[fed]).unwrap();
            fed += 1;
        }
        outputs.push(st.finish());
    }
    // identical prompt and rankings give identical output whatever the seed
    assert_eq!(outputs[0], outputs[1]);
}

#[test]
fn empty_ranking_is_an_inference_error() {
    let tok = tiny_tokenizer();
    let mut rng = StdRng::seed_from_u64(5);
    let mut st = begin_generation(&tok, cfg(2, 4), "sky").unwrap();
    let before_tokens = st.token_ids().clone();
    let before_steps = st.steps;
    let r = st.apply_step(&tok, &mut rng, &Vec::new());
    assert_eq!(r, Err(DecodeError::Inference));
    // the failed step left the state unchanged
    assert_eq!(st.token_ids(), &before_tokens);
    assert_eq!(st.steps, before_steps);
}

#[test]
fn generate_with_runs_the_whole_loop() {
    let tok = tiny_tokenizer();
    let mut rng = StdRng::seed_from_u64(2);
    // the ranking function stands in for the engine; it keys on how many
    // tokens have accumulated so far
    let out = generate_with(&tok, &mut rng, cfg(1, 10), "The sky is", |t: &Vec<u32>| {
        match t.len() {
            3 => Ok(vec![5, 4]),
            4 => Ok(vec![4, 5]),
            _ => Ok(vec![7, 1]),
        }
    })
    .unwrap();
    // "very", then "blue", then "." which stops the generation
    assert_eq!(out, "veryblue.");
}

#[test]
fn generate_with_propagates_engine_failure() {
    let tok = tiny_tokenizer();
    let mut rng = StdRng::seed_from_u64(3);
    let r = generate_with(&tok, &mut rng, cfg(1, 10), "sky", |_t: &Vec<u32>| {
        Err(DecodeError::Inference)
    });
    assert_eq!(r, Err(DecodeError::Inference));
}

#[test]
fn word_cap_bounds_any_generation() {
    let tok = tiny_tokenizer();
    let mut rng = StdRng::seed_from_u64(4);
    let mut config = cfg(1, 40);
    config.stop_on_terminal_punctuation = false;
    config.max_output_words = Some(2);
    // fragments concatenate into one long word; the engine never stops
    let out = generate_with(&tok, &mut rng, config, "The sky is wide and", |_t: &Vec<u32>| {
        Ok(vec![6, 5])
    })
    .unwrap();
    assert!(count_words(&out) <= 2);
}

#[test]
fn stopped_state_gets_no_engine_call() {
    let tok = tiny_tokenizer();
    let mut rng = StdRng::seed_from_u64(6);
    let mut st = begin_generation(&tok, cfg(1, 5), "sky").unwrap();
    st.record_token(7);
    st.absorb_fragment(".");
    assert!(!st.needs_engine());
    let tokens_before = st.token_ids().clone();
    // an always-failing engine: were it consulted, the loop would fail
    let r = run_decode_loop(&mut st, &tok, &mut rng, |_t: &Vec<u32>| {
        Err(DecodeError::Inference)
    });
    assert_eq!(r, Ok(()));
    assert_eq!(st.token_ids(), &tokens_before);
    assert_eq!(st.finish(), ".");
}

#[test]
fn two_concurrent_style_decodes_stay_separate() {
    let tok = tiny_tokenizer();
    let mut rng = StdRng::seed_from_u64(11);
    let mut a = begin_generation(&tok, cfg(1, 5), "The sky").unwrap();
    let mut b = begin_generation(&tok, cfg(1, 5), "blue").unwrap();
    // interleave the two requests' steps, as concurrent service tasks would
    a.apply_step(&tok, &mut rng, &vec![3]).unwrap();
    b.apply_step(&tok, &mut rng, &vec![6]).unwrap();
    a.apply_step(&tok, &mut rng, &vec![4]).unwrap();
    assert_eq!(a.token_ids(), &vec![1, 2, 3, 4]);
    assert_eq!(b.token_ids(), &vec![4, 6]);
    assert_eq!(a.finish(), "isblue");
    assert_eq!(b.finish(), "wide");
}
