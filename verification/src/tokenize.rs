use vstd::prelude::*;

use crate::counters::Counters;
use crate::errors::TaskError;
use crate::task::{
    chunk_fragments, chunk_step, prefill_step, record_decode, record_prefill, TaskState,
};

verus! {

/// `tokenizers::Tokenizer`, carried opaquely: the token counter the run is
/// configured with, constructed once before any task starts and then shared
/// read-only by every task.
#[verifier::external_type_specification]
#[verifier::external_body]
pub struct ExTokenizer(tokenizers::Tokenizer);

/// Relies on `tokenizers::Tokenizer::encode_fast` (called without special
/// tokens) for the ordered token-id sequence of a string; the ids are used
/// for counting only, so nothing is assumed of them. An encoding failure is
/// mapped to the library's tokenizer error.
#[verifier::external_body]
fn encode_ids(tokenizer: &tokenizers::Tokenizer, text: &str) -> (r: Result<Vec<u32>, TaskError>)
    ensures
        r matches Err(e) ==> e == TaskError::Tokenize,
{
    match tokenizer.encode_fast(text, false) {
        Ok(encoding) => Ok(encoding.get_ids().to_vec()),
        Err(_) => Err(TaskError::Tokenize),
    }
}

/// The token count of an encoding: the number of its ids.
pub fn id_count(ids: &Vec<u32>) -> (r: u64)
    ensures
        r == ids@.len(),
{
    ids.len() as u64
}

/// Tokenize one string and count the ids of its encoding. The count is
/// whatever the run's tokenizer answers: the accounting functions are
/// verified for every value it may take.
pub fn count_tokens(tokenizer: &tokenizers::Tokenizer, text: &str) -> (r: Result<u64, TaskError>)
    ensures
        r matches Err(e) ==> e == TaskError::Tokenize,
{
    match encode_ids(tokenizer, text) {
        Ok(ids) => Ok(id_count(&ids)),
        Err(e) => Err(e),
    }
}

/// Tokenize every content fragment of one chunk, in order, giving the
/// per-fragment token counts. An empty fragment list makes no tokenizer
/// call and always succeeds.
pub fn fragment_token_counts(tokenizer: &tokenizers::Tokenizer, fragments: &Vec<String>) -> (r:
    Result<Vec<u64>, TaskError>)
    ensures
        r matches Ok(counts) ==> counts@.len() == fragments@.len(),
        r matches Err(e) ==> e == TaskError::Tokenize,
        fragments@.len() == 0 ==> r is Ok,
{
    let mut counts: Vec<u64> = Vec::new();
    let mut i: usize = 0;
    while i < fragments.len()
        invariant
            0 <= i <= fragments@.len(),
            counts@.len() == i,
        decreases fragments@.len() - i,
    {
        match count_tokens(tokenizer, fragments[i].as_str()) {
            Ok(n) => counts.push(n),
            Err(e) => {
                return Err(e);
            },
        }
        i = i + 1;
    }
    Ok(counts)
}

/// Drive one arrived chunk of a bench task, in arrival order: if this is
/// the task's first chunk, tokenize the prompt and record the prefill
/// phase, exactly once; then extract the chunk's content fragments (absence
/// of an expected fragment is fatal to the task), tokenize them, and
/// account their token counts. On success the extracted fragments are
/// returned, in order, for transcript writing. A chunk with a missing
/// fragment always fails, and once the prefill phase lies behind the task
/// it fails with exactly the missing-content error; a chunk with no choices
/// always succeeds once the prefill phase lies behind the task. On an error
/// nothing is rolled back: the decode accumulators are untouched, and the
/// prefill contribution, if it was just made, is kept.
pub fn process_chunk(
    tokenizer: &tokenizers::Tokenizer,
    prompt: &str,
    deltas: &Vec<Option<String>>,
    state: &mut TaskState,
    counters: &mut Counters,
    elapsed_ms: u64,
) -> (r: Result<Vec<String>, TaskError>)
    ensures
        r matches Ok(frags) ==> frags@.len() == deltas@.len() && (forall|i: int|
            #![trigger deltas@[i]]
            0 <= i < deltas@.len() ==> deltas@[i] is Some && frags@[i]@ == deltas@[i]->Some_0@)
            && final(state).prefill_recorded && (exists|pt: u64, counts: Seq<u64>|
            counts.len() == deltas@.len() && (*final(state), *final(counters)) == chunk_step(
                *old(state),
                *old(counters),
                elapsed_ms,
                pt,
                counts,
            )),
        r matches Err(e) ==> e == TaskError::MissingContent || e == TaskError::Tokenize,
        r matches Err(e) ==> (e == TaskError::MissingContent ==> exists|i: int|
            0 <= i < deltas@.len() && deltas@[i] is None),
        (exists|i: int| 0 <= i < deltas@.len() && deltas@[i] is None) ==> r is Err,
        old(state).prefill_recorded && (exists|i: int|
            0 <= i < deltas@.len() && deltas@[i] is None) ==> r
            == Err::<Vec<String>, TaskError>(TaskError::MissingContent),
        old(state).prefill_recorded && deltas@.len() == 0 ==> r is Ok,
        r is Err ==> final(state).decode_tokens == old(state).decode_tokens
            && final(counters).decode_tokens == old(counters).decode_tokens
            && ((*final(state), *final(counters)) == (*old(state), *old(counters))
            || (!old(state).prefill_recorded && exists|pt: u64|
            (*final(state), *final(counters)) == prefill_step(
                *old(state),
                *old(counters),
                elapsed_ms,
                pt,
            ))),
{
    let ghost s0 = *state;
    let ghost c0 = *counters;
    let ghost mut ptg: u64 = 0;
    if !state.prefill_recorded {
        let pt = match count_tokens(tokenizer, prompt) {
            Ok(n) => n,
            Err(e) => {
                return Err(e);
            },
        };
        record_prefill(state, counters, elapsed_ms, pt);
        proof {
            ptg = pt;
        }
    }
    let frags = match chunk_fragments(deltas) {
        Ok(f) => f,
        Err(e) => {
            proof {
                if !s0.prefill_recorded {
                    assert((*state, *counters) == prefill_step(s0, c0, elapsed_ms, ptg));
                }
            }
            return Err(e);
        },
    };
    let counts = match fragment_token_counts(tokenizer, &frags) {
        Ok(c) => c,
        Err(e) => {
            proof {
                if !s0.prefill_recorded {
                    assert((*state, *counters) == prefill_step(s0, c0, elapsed_ms, ptg));
                }
            }
            return Err(e);
        },
    };
    record_decode(state, counters, &counts);
    proof {
        assert((*state, *counters) == chunk_step(s0, c0, elapsed_ms, ptg, counts@));
    }
    Ok(frags)
}

} // verus!
