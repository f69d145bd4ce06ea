use ahash::AHashMap;
use tokenizers::models::wordlevel::WordLevel;
use tokenizers::pre_tokenizers::whitespace::WhitespaceSplit;
use tokenizers::Tokenizer;

use chatbench::counters::Counters;
use chatbench::errors::TaskError;
use chatbench::task::TaskState;
use chatbench::task::{account_chunks, finish_decode};
use chatbench::tokenize::{count_tokens, fragment_token_counts, process_chunk};

/// A tiny word-level tokenizer: one id per whitespace-separated word.
fn tiny_tokenizer() -> Tokenizer {
    let mut vocab: AHashMap<String, u32> = AHashMap::new();
    vocab.insert("hello".to_string(), 0);
    vocab.insert("hi".to_string(), 1);
    vocab.insert("there".to_string(), 2);
    vocab.insert("<unk>".to_string(), 3);
    let model = WordLevel::builder()
        .vocab(vocab)
        .unk_token("<unk>".to_string())
        .build()
        .unwrap();
    let mut tok = Tokenizer::new(model);
    tok.with_pre_tokenizer(Some(WhitespaceSplit));
    tok
}

/// A tokenizer without a usable unknown token: encoding an unknown word fails.
fn failing_tokenizer() -> Tokenizer {
    let mut vocab: AHashMap<String, u32> = AHashMap::new();
    vocab.insert("hello".to_string(), 0);
    let model = WordLevel::builder()
        .vocab(vocab)
        .unk_token("<unk>".to_string())
        .build()
        .unwrap();
    let mut tok = Tokenizer::new(model);
    tok.with_pre_tokenizer(Some(WhitespaceSplit));
    tok
}

#[test]
fn tokenizing_twice_yields_same_ids_and_count() {
    let tok = tiny_tokenizer();
    let first = tok.encode_fast("hello hi there", false).unwrap();
    let second = tok.encode_fast("hello hi there", false).unwrap();
    assert_eq!(first.get_ids(), second.get_ids());
    assert_eq!(first.get_ids().len(), second.get_ids().len());

    let c1 = count_tokens(&tok, "hello hi there").unwrap();
    let c2 = count_tokens(&tok, "hello hi there").unwrap();
    assert_eq!(c1, c2);
    assert_eq!(c1, 3);
}

#[test]
fn count_tokens_counts_the_encoding_ids() {
    let tok = tiny_tokenizer();
    assert_eq!(count_tokens(&tok, "hello").unwrap(), 1);
    assert_eq!(count_tokens(&tok, "hello hi").unwrap(), 2);
    assert_eq!(count_tokens(&tok, "hello hi there").unwrap(), 3);
}

#[test]
fn count_tokens_reports_tokenizer_errors() {
    let tok = failing_tokenizer();
    assert_eq!(count_tokens(&tok, "stranger"), Err(TaskError::Tokenize));
}

#[test]
fn fragment_counts_follow_the_fragments() {
    let tok = tiny_tokenizer();
    let frags = vec!["hi".to_string(), "hello hi there".to_string()];
    let counts = fragment_token_counts(&tok, &frags).unwrap();
    assert_eq!(counts, vec![1, 3]);
}

#[test]
fn single_prompt_single_chunk_scenario() {
    // Dataset ["hello"], concurrency 1, one chunk carrying fragment "hi".
    let tok = tiny_tokenizer();
    let mut state = TaskState::new();
    let mut counters = Counters::new();
    let deltas = vec![Some("hi".to_string())];

    let frags = process_chunk(&tok, "hello", &deltas, &mut state, &mut counters, 12).unwrap();
    assert_eq!(frags, vec!["hi".to_string()]);

    let expected_prefill = tok.encode_fast("hello", false).unwrap().get_ids().len() as u64;
    let expected_decode = tok.encode_fast("hi", false).unwrap().get_ids().len() as u64;
    assert_eq!(counters.prefill_tokens, expected_prefill);
    assert_eq!(counters.decode_tokens, expected_decode);
    assert_eq!(counters.prefill_latency_ms, 12);

    let avg = finish_decode(&state, &mut counters, 30);
    assert_eq!(avg, Some(30 / expected_decode));

    counters.task_completed();
    assert_eq!(counters.completed_tasks, 1);
}

#[test]
fn prefill_recorded_once_across_chunks() {
    let tok = tiny_tokenizer();
    let mut state = TaskState::new();
    let mut counters = Counters::new();
    let first = vec![Some("hi".to_string())];
    let second = vec![Some("hello there".to_string())];

    process_chunk(&tok, "hello hi", &first, &mut state, &mut counters, 8).unwrap();
    process_chunk(&tok, "hello hi", &second, &mut state, &mut counters, 99).unwrap();

    // The prompt's two tokens and the 8 ms are contributed exactly once.
    assert_eq!(counters.prefill_tokens, 2);
    assert_eq!(counters.prefill_latency_ms, 8);
    // The decode counter holds the fragments of both chunks.
    assert_eq!(counters.decode_tokens, 1 + 2);
    assert_eq!(state.decode_tokens, 3);
}

#[test]
fn missing_content_is_fatal_but_keeps_partial_credit() {
    let tok = tiny_tokenizer();
    let mut state = TaskState::new();
    let mut counters = Counters::new();
    let deltas = vec![Some("hi".to_string()), None];

    let res = process_chunk(&tok, "hello", &deltas, &mut state, &mut counters, 5);
    assert_eq!(res, Err(TaskError::MissingContent));
    // The prefill contribution of the first chunk is kept ...
    assert_eq!(counters.prefill_tokens, 1);
    assert_eq!(counters.prefill_latency_ms, 5);
    // ... but no decode tokens were accounted for the failed chunk.
    assert_eq!(counters.decode_tokens, 0);
    assert_eq!(state.decode_tokens, 0);

    // The task still counts as completed, exactly once.
    counters.task_completed();
    assert_eq!(counters.completed_tasks, 1);
}

#[test]
fn empty_fragment_list_needs_no_tokenizer() {
    let tok = failing_tokenizer();
    let frags: Vec<String> = Vec::new();
    assert_eq!(fragment_token_counts(&tok, &frags), Ok(Vec::new()));
}

#[test]
fn empty_chunk_after_prefill_always_succeeds() {
    let tok = tiny_tokenizer();
    let mut state = TaskState { prefill_recorded: true, decode_tokens: 5 };
    let mut counters = Counters::new();
    let deltas: Vec<Option<String>> = Vec::new();
    let frags = process_chunk(&tok, "hello", &deltas, &mut state, &mut counters, 0).unwrap();
    assert!(frags.is_empty());
    assert_eq!(counters, Counters::new());
    assert_eq!(state.decode_tokens, 5);
}

#[test]
fn missing_fragment_after_prefill_is_exactly_missing_content() {
    let tok = tiny_tokenizer();
    let mut state = TaskState { prefill_recorded: true, decode_tokens: 0 };
    let mut counters = Counters::new();
    let deltas = vec![None];
    let res = process_chunk(&tok, "hello", &deltas, &mut state, &mut counters, 0);
    assert_eq!(res, Err(TaskError::MissingContent));
    assert_eq!(counters, Counters::new());
}

#[test]
fn four_prompts_concurrency_two_all_succeed() {
    let tok = tiny_tokenizer();
    let prompts = ["hello", "hi", "there", "hello there"];
    let mut counters = Counters::new();
    let mut results: Vec<Result<(), TaskError>> = Vec::new();

    for prompt in prompts {
        let mut state = TaskState::new();
        let deltas = vec![Some("hi there".to_string())];
        let res = process_chunk(&tok, prompt, &deltas, &mut state, &mut counters, 3)
            .map(|_| ());
        finish_decode(&state, &mut counters, 10);
        counters.task_completed();
        results.push(res);
    }

    assert_eq!(counters.completed_tasks, 4);
    assert!(chatbench::run::run_outcome(&results).is_ok());
    assert!(chatbench::run::exit_success(&None, false));
}

#[test]
fn zero_chunk_task_contributes_nothing_but_counts() {
    let mut state = TaskState::new();
    let mut counters = Counters::new();
    let chunks: Vec<Vec<u64>> = Vec::new();
    account_chunks(&mut state, &mut counters, 42, 17, &chunks);
    assert_eq!(counters.prefill_tokens, 0);
    assert_eq!(counters.decode_tokens, 0);
    assert_eq!(counters.prefill_latency_ms, 0);
    assert_eq!(counters.decode_latency_ms, 0);
    assert!(!state.prefill_recorded);
    counters.task_completed();
    assert_eq!(counters.completed_tasks, 1);
}

#[test]
fn account_chunks_sums_fragments_and_records_prefill_once() {
    let mut state = TaskState::new();
    let mut counters = Counters::new();
    let chunks: Vec<Vec<u64>> = vec![vec![2, 3], vec![], vec![5]];
    account_chunks(&mut state, &mut counters, 4, 10, &chunks);
    assert_eq!(counters.prefill_tokens, 10);
    assert_eq!(counters.prefill_latency_ms, 4);
    assert_eq!(counters.decode_tokens, 10);
    assert_eq!(state.decode_tokens, 10);
    assert!(state.prefill_recorded);
}

#[test]
fn accumulators_saturate_instead_of_wrapping() {
    let mut state = TaskState::new();
    let mut counters = Counters::new();
    let chunks: Vec<Vec<u64>> = vec![vec![u64::MAX, 3]];
    account_chunks(&mut state, &mut counters, 0, 0, &chunks);
    assert_eq!(counters.decode_tokens, u64::MAX);
    assert_eq!(state.decode_tokens, u64::MAX);
}

#[test]
fn zero_decode_tokens_has_undefined_average_without_fault() {
    let state = TaskState::new();
    let mut counters = Counters::new();
    let avg = finish_decode(&state, &mut counters, 1234);
    assert_eq!(avg, None);
    assert_eq!(counters.decode_latency_ms, 0);
}

#[test]
fn nonzero_decode_tokens_average_is_added() {
    let mut state = TaskState::new();
    let mut counters = Counters::new();
    let chunks: Vec<Vec<u64>> = vec![vec![4]];
    account_chunks(&mut state, &mut counters, 0, 0, &chunks);
    let avg = finish_decode(&state, &mut counters, 100);
    assert_eq!(avg, Some(25));
    assert_eq!(counters.decode_latency_ms, 25);
}
