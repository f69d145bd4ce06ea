use vstd::prelude::*;

use crate::counters::{add_saturating, sat_add, Counters};
use crate::errors::TaskError;

verus! {

/// What a value clamped into a `u64` accumulator holds.
pub open spec fn clamp_u64(i: int) -> u64 {
    if i <= u64::MAX {
        i as u64
    } else {
        u64::MAX
    }
}

/// The exact sum of a sequence of per-fragment token counts.
pub open spec fn seq_sum(s: Seq<u64>) -> int
    decreases s.len(),
{
    if s.len() == 0 {
        0
    } else {
        seq_sum(s.drop_last()) + s.last()
    }
}

pub proof fn lemma_seq_sum_nonneg(s: Seq<u64>)
    ensures
        seq_sum(s) >= 0,
    decreases s.len(),
{
    if s.len() > 0 {
        lemma_seq_sum_nonneg(s.drop_last());
    }
}

proof fn lemma_sat_add_clamp(a: int, b: u64)
    requires
        a >= 0,
    ensures
        sat_add(clamp_u64(a), b) == clamp_u64(a + b),
{
}

/// The private bookkeeping of one bench task: whether the prefill phase
/// lies behind it (this flips exactly once, on the first chunk), and the
/// task-local decode token count.
#[derive(Clone, Copy, PartialEq, Eq, Structural, Debug)]
pub struct TaskState {
    pub prefill_recorded: bool,
    pub decode_tokens: u64,
}

impl TaskState {
    /// The state a task starts in: nothing recorded, nothing decoded.
    pub fn new() -> (r: Self)
        ensures
            r == (TaskState { prefill_recorded: false, decode_tokens: 0u64 }),
    {
        TaskState { prefill_recorded: false, decode_tokens: 0 }
    }
}

/// What recording the prefill phase does: the task's prompt token count goes
/// to the prefill rate counter, its time-to-first-chunk to the cumulative
/// prefill latency sum, and the task leaves the prefill phase for good.
pub open spec fn prefill_step(s: TaskState, c: Counters, elapsed_ms: u64, prompt_tokens: u64) -> (
    TaskState,
    Counters,
) {
    (
        TaskState { prefill_recorded: true, decode_tokens: s.decode_tokens },
        Counters {
            prefill_tokens: sat_add(c.prefill_tokens, prompt_tokens),
            decode_tokens: c.decode_tokens,
            prefill_latency_ms: sat_add(c.prefill_latency_ms, elapsed_ms),
            decode_latency_ms: c.decode_latency_ms,
            completed_tasks: c.completed_tasks,
        },
    )
}

/// What accounting one chunk's fragments does: the chunk's total fragment
/// token count goes to the decode rate counter and to the task-local count.
pub open spec fn decode_step(s: TaskState, c: Counters, frags: Seq<u64>) -> (TaskState, Counters) {
    (
        TaskState {
            prefill_recorded: s.prefill_recorded,
            decode_tokens: clamp_u64(s.decode_tokens + seq_sum(frags)),
        },
        Counters {
            prefill_tokens: c.prefill_tokens,
            decode_tokens: clamp_u64(c.decode_tokens + seq_sum(frags)),
            prefill_latency_ms: c.prefill_latency_ms,
            decode_latency_ms: c.decode_latency_ms,
            completed_tasks: c.completed_tasks,
        },
    )
}

/// One arrived chunk, in full: the prefill transition if and only if this is
/// the task's first chunk, then the decode accounting of its fragments.
pub open spec fn chunk_step(
    s: TaskState,
    c: Counters,
    elapsed_ms: u64,
    prompt_tokens: u64,
    frags: Seq<u64>,
) -> (TaskState, Counters) {
    if s.prefill_recorded {
        decode_step(s, c, frags)
    } else {
        decode_step(
            prefill_step(s, c, elapsed_ms, prompt_tokens).0,
            prefill_step(s, c, elapsed_ms, prompt_tokens).1,
            frags,
        )
    }
}

/// A whole stream of chunks, processed in arrival order.
pub open spec fn chunks_fold(
    s: TaskState,
    c: Counters,
    elapsed_ms: u64,
    prompt_tokens: u64,
    chunks: Seq<Seq<u64>>,
) -> (TaskState, Counters)
    decreases chunks.len(),
{
    if chunks.len() == 0 {
        (s, c)
    } else {
        chunks_fold(
            chunk_step(s, c, elapsed_ms, prompt_tokens, chunks.first()).0,
            chunk_step(s, c, elapsed_ms, prompt_tokens, chunks.first()).1,
            elapsed_ms,
            prompt_tokens,
            chunks.drop_first(),
        )
    }
}

/// The total fragment token count of a whole stream.
pub open spec fn chunks_sum(chunks: Seq<Seq<u64>>) -> int
    decreases chunks.len(),
{
    if chunks.len() == 0 {
        0
    } else {
        seq_sum(chunks.first()) + chunks_sum(chunks.drop_first())
    }
}

pub proof fn lemma_chunks_sum_nonneg(chunks: Seq<Seq<u64>>)
    ensures
        chunks_sum(chunks) >= 0,
    decreases chunks.len(),
{
    if chunks.len() > 0 {
        lemma_seq_sum_nonneg(chunks.first());
        lemma_chunks_sum_nonneg(chunks.drop_first());
    }
}

/// Record the prefill phase of a task, once: its prompt token count and its
/// time to first chunk enter the shared accumulators.
pub fn record_prefill(state: &mut TaskState, counters: &mut Counters, elapsed_ms: u64, prompt_tokens: u64)
    requires
        !old(state).prefill_recorded,
    ensures
        (*final(state), *final(counters)) == prefill_step(
            *old(state),
            *old(counters),
            elapsed_ms,
            prompt_tokens,
        ),
{
    counters.prefill_tokens = add_saturating(counters.prefill_tokens, prompt_tokens);
    counters.prefill_latency_ms = add_saturating(counters.prefill_latency_ms, elapsed_ms);
    state.prefill_recorded = true;
}

/// Account one chunk's fragments: their total token count enters the shared
/// decode rate counter and the task-local decode count.
pub fn record_decode(state: &mut TaskState, counters: &mut Counters, fragment_tokens: &Vec<u64>)
    ensures
        (*final(state), *final(counters)) == decode_step(*old(state), *old(counters), fragment_tokens@),
{
    let mut total: u64 = 0;
    let mut i: usize = 0;
    while i < fragment_tokens.len()
        invariant
            0 <= i <= fragment_tokens@.len(),
            total == clamp_u64(seq_sum(fragment_tokens@.take(i as int))),
        decreases fragment_tokens@.len() - i,
    {
        proof {
            assert(fragment_tokens@.take(i as int + 1).drop_last() =~= fragment_tokens@.take(
                i as int,
            ));
            lemma_seq_sum_nonneg(fragment_tokens@.take(i as int));
            lemma_sat_add_clamp(seq_sum(fragment_tokens@.take(i as int)), fragment_tokens@[i as int]);
        }
        total = add_saturating(total, fragment_tokens[i]);
        i = i + 1;
    }
    proof {
        assert(fragment_tokens@.take(fragment_tokens@.len() as int) =~= fragment_tokens@);
        lemma_seq_sum_nonneg(fragment_tokens@);
        lemma_sat_add_clamp(seq_sum(fragment_tokens@), state.decode_tokens);
        lemma_sat_add_clamp(seq_sum(fragment_tokens@), counters.decode_tokens);
    }
    state.decode_tokens = add_saturating(state.decode_tokens, total);
    counters.decode_tokens = add_saturating(counters.decode_tokens, total);
}

/// Process one arrived chunk whose fragment token counts are already known:
/// the prefill transition if this is the task's first chunk, then the decode
/// accounting.
pub fn record_chunk(
    state: &mut TaskState,
    counters: &mut Counters,
    elapsed_ms: u64,
    prompt_tokens: u64,
    fragment_tokens: &Vec<u64>,
)
    ensures
        (*final(state), *final(counters)) == chunk_step(
            *old(state),
            *old(counters),
            elapsed_ms,
            prompt_tokens,
            fragment_tokens@,
        ),
{
    if !state.prefill_recorded {
        record_prefill(state, counters, elapsed_ms, prompt_tokens);
    }
    record_decode(state, counters, fragment_tokens);
}

proof fn lemma_fold_push(
    s: TaskState,
    c: Counters,
    e: u64,
    pt: u64,
    chunks: Seq<Seq<u64>>,
    x: Seq<u64>,
)
    ensures
        chunks_fold(s, c, e, pt, chunks.push(x)) == chunk_step(
            chunks_fold(s, c, e, pt, chunks).0,
            chunks_fold(s, c, e, pt, chunks).1,
            e,
            pt,
            x,
        ),
    decreases chunks.len(),
{
    reveal_with_fuel(chunks_fold, 3);
    if chunks.len() == 0 {
        assert(chunks.push(x).first() == x);
        assert(chunks.push(x).drop_first() =~= Seq::<Seq<u64>>::empty());
    } else {
        assert(chunks.push(x).first() == chunks.first());
        assert(chunks.push(x).drop_first() =~= chunks.drop_first().push(x));
        lemma_fold_push(
            chunk_step(s, c, e, pt, chunks.first()).0,
            chunk_step(s, c, e, pt, chunks.first()).1,
            e,
            pt,
            chunks.drop_first(),
            x,
        );
    }
}

/// Account a whole stream of chunks, given each chunk's per-fragment token
/// counts in arrival order.
pub fn account_chunks(
    state: &mut TaskState,
    counters: &mut Counters,
    elapsed_ms: u64,
    prompt_tokens: u64,
    chunks: &Vec<Vec<u64>>,
)
    ensures
        (*final(state), *final(counters)) == chunks_fold(
            *old(state),
            *old(counters),
            elapsed_ms,
            prompt_tokens,
            chunks@.map_values(|v: Vec<u64>| v@),
        ),
{
    let ghost all = chunks@.map_values(|v: Vec<u64>| v@);
    let ghost s0 = *state;
    let ghost c0 = *counters;
    let mut i: usize = 0;
    while i < chunks.len()
        invariant
            0 <= i <= chunks@.len(),
            all == chunks@.map_values(|v: Vec<u64>| v@),
            (*state, *counters) == chunks_fold(s0, c0, elapsed_ms, prompt_tokens, all.take(i as int)),
        decreases chunks@.len() - i,
    {
        proof {
            lemma_fold_push(s0, c0, elapsed_ms, prompt_tokens, all.take(i as int), all[i as int]);
            assert(all.take(i as int).push(all[i as int]) =~= all.take(i as int + 1));
        }
        record_chunk(state, counters, elapsed_ms, prompt_tokens, &chunks[i]);
        i = i + 1;
    }
    proof {
        assert(all.take(chunks@.len() as int) =~= all);
    }
}

/// Law: once a task's prefill phase is recorded, no later chunk touches the
/// prefill accumulators again — the prefill contribution is made at most
/// once per task.
pub proof fn lemma_prefill_recorded_at_most_once(
    s: TaskState,
    c: Counters,
    e: u64,
    pt: u64,
    chunks: Seq<Seq<u64>>,
)
    requires
        s.prefill_recorded,
    ensures
        chunks_fold(s, c, e, pt, chunks).0.prefill_recorded,
        chunks_fold(s, c, e, pt, chunks).1.prefill_tokens == c.prefill_tokens,
        chunks_fold(s, c, e, pt, chunks).1.prefill_latency_ms == c.prefill_latency_ms,
    decreases chunks.len(),
{
    if chunks.len() > 0 {
        lemma_prefill_recorded_at_most_once(
            chunk_step(s, c, e, pt, chunks.first()).0,
            chunk_step(s, c, e, pt, chunks.first()).1,
            e,
            pt,
            chunks.drop_first(),
        );
    }
}

/// Law: a task that receives at least one chunk contributes its prompt's
/// token count to the prefill counter, and its time to first chunk to the
/// prefill latency sum, exactly once.
pub proof fn lemma_prefill_recorded_exactly_once(
    s: TaskState,
    c: Counters,
    e: u64,
    pt: u64,
    chunks: Seq<Seq<u64>>,
)
    requires
        !s.prefill_recorded,
        chunks.len() >= 1,
        c.prefill_tokens + pt <= u64::MAX,
        c.prefill_latency_ms + e <= u64::MAX,
    ensures
        chunks_fold(s, c, e, pt, chunks).0.prefill_recorded,
        chunks_fold(s, c, e, pt, chunks).1.prefill_tokens == c.prefill_tokens + pt,
        chunks_fold(s, c, e, pt, chunks).1.prefill_latency_ms == c.prefill_latency_ms + e,
{
    let s1 = chunk_step(s, c, e, pt, chunks.first()).0;
    let c1 = chunk_step(s, c, e, pt, chunks.first()).1;
    assert(s1.prefill_recorded);
    assert(c1.prefill_tokens == c.prefill_tokens + pt);
    assert(c1.prefill_latency_ms == c.prefill_latency_ms + e);
    lemma_prefill_recorded_at_most_once(s1, c1, e, pt, chunks.drop_first());
}

/// Law: over a whole stream, the decode tokens contributed to the shared
/// counter, and the task-local decode count, grow by exactly the total
/// fragment token count over all chunks, in arrival order.
pub proof fn lemma_decode_total(s: TaskState, c: Counters, e: u64, pt: u64, chunks: Seq<Seq<u64>>)
    requires
        s.decode_tokens + chunks_sum(chunks) <= u64::MAX,
        c.decode_tokens + chunks_sum(chunks) <= u64::MAX,
    ensures
        chunks_fold(s, c, e, pt, chunks).0.decode_tokens == s.decode_tokens + chunks_sum(chunks),
        chunks_fold(s, c, e, pt, chunks).1.decode_tokens == c.decode_tokens + chunks_sum(chunks),
    decreases chunks.len(),
{
    if chunks.len() > 0 {
        lemma_seq_sum_nonneg(chunks.first());
        lemma_chunks_sum_nonneg(chunks.drop_first());
        lemma_decode_total(
            chunk_step(s, c, e, pt, chunks.first()).0,
            chunk_step(s, c, e, pt, chunks.first()).1,
            e,
            pt,
            chunks.drop_first(),
        );
    }
}

/// Law: a task that receives no chunks contributes nothing — neither the
/// task state nor any shared accumulator moves. (Completing such a task
/// still counts it exactly once: `Counters::task_completed`.)
pub proof fn lemma_zero_chunks_contribute_nothing(s: TaskState, c: Counters, e: u64, pt: u64)
    ensures
        chunks_fold(s, c, e, pt, Seq::<Seq<u64>>::empty()) == (s, c),
{
}

/// When the stream ends, the task's average per-token decode latency joins
/// the cumulative latency total. A task with a zero decode token count has
/// an undefined average: it contributes nothing, and nothing faults.
pub fn finish_decode(state: &TaskState, counters: &mut Counters, decode_elapsed_ms: u64) -> (r:
    Option<u64>)
    ensures
        state.decode_tokens == 0 ==> r is None && *final(counters) == *old(counters),
        state.decode_tokens != 0 ==> r == Some((decode_elapsed_ms / state.decode_tokens) as u64)
            && *final(counters) == (Counters {
            decode_latency_ms: sat_add(
                old(counters).decode_latency_ms,
                (decode_elapsed_ms / state.decode_tokens) as u64,
            ),
            ..*old(counters)
        }),
{
    if state.decode_tokens == 0 {
        None
    } else {
        let avg = decode_elapsed_ms / state.decode_tokens;
        counters.decode_latency_ms = add_saturating(counters.decode_latency_ms, avg);
        Some(avg)
    }
}

/// Extract the content fragments of one chunk's choices, in order. A choice
/// whose content fragment is absent when one was expected is a fatal
/// missing-content error for the task.
pub fn chunk_fragments(deltas: &Vec<Option<String>>) -> (r: Result<Vec<String>, TaskError>)
    ensures
        r is Err <==> exists|i: int| 0 <= i < deltas@.len() && deltas@[i] is None,
        r matches Err(e) ==> e == TaskError::MissingContent,
        r matches Ok(frags) ==> frags@.len() == deltas@.len() && forall|i: int|
            #![trigger deltas@[i]]
            0 <= i < deltas@.len() ==> deltas@[i] is Some && frags@[i]@ == deltas@[i]->Some_0@,
{
    let mut frags: Vec<String> = Vec::new();
    let mut i: usize = 0;
    while i < deltas.len()
        invariant
            0 <= i <= deltas@.len(),
            frags@.len() == i,
            forall|j: int|
                #![trigger deltas@[j]]
                0 <= j < i ==> deltas@[j] is Some && frags@[j]@ == deltas@[j]->Some_0@,
        decreases deltas@.len() - i,
    {
        let d: &Option<String> = &deltas[i];
        match d {
            Option::Some(s) => {
                assert(deltas@[i as int] is Some);
                assert(deltas@[i as int]->Some_0 == *s);
                frags.push(s.clone());
                assert(frags@[i as int]@ == deltas@[i as int]->Some_0@);
            },
            Option::None => {
                assert(deltas@[i as int] is None);
                return Err(TaskError::MissingContent);
            },
        }
        i = i + 1;
    }
    Ok(frags)
}

} // verus!
