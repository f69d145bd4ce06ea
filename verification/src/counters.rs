use vstd::prelude::*;

verus! {

/// Addition on a metric accumulator. Accumulators never go backwards and
/// never wrap: an add that would overflow pegs the counter at the maximum.
pub open spec fn sat_add(a: u64, b: u64) -> u64 {
    if a + b <= u64::MAX {
        (a + b) as u64
    } else {
        u64::MAX
    }
}

/// Executable form of `sat_add`.
pub fn add_saturating(a: u64, b: u64) -> (r: u64)
    ensures
        r == sat_add(a, b),
{
    match a.checked_add(b) {
        Some(s) => s,
        None => u64::MAX,
    }
}

/// The shared metric accumulators of one run: two rate counters that the
/// reporter reads and resets every interval, two cumulative latency sums,
/// and the completed-task count. All five are independent non-negative
/// integers; each update touches exactly one group.
#[derive(Clone, Copy, PartialEq, Eq, Structural, Debug)]
pub struct Counters {
    /// Prompt tokens accounted since the last reporter sample.
    pub prefill_tokens: u64,
    /// Decoded tokens accounted since the last reporter sample.
    pub decode_tokens: u64,
    /// Cumulative time-to-first-token over all tasks, in milliseconds.
    pub prefill_latency_ms: u64,
    /// Cumulative average per-token decode latency over all tasks, in
    /// milliseconds.
    pub decode_latency_ms: u64,
    /// Number of tasks that have finished, successfully or not.
    pub completed_tasks: u64,
}

impl Counters {
    /// Fresh accumulators, all zero.
    pub fn new() -> (r: Self)
        ensures
            r == (Counters {
                prefill_tokens: 0u64,
                decode_tokens: 0u64,
                prefill_latency_ms: 0u64,
                decode_latency_ms: 0u64,
                completed_tasks: 0u64,
            }),
    {
        Counters {
            prefill_tokens: 0,
            decode_tokens: 0,
            prefill_latency_ms: 0,
            decode_latency_ms: 0,
            completed_tasks: 0,
        }
    }

    /// The reporter's per-interval step: read both rate counters and reset
    /// them to zero in the same step, leaving the cumulative group untouched.
    pub fn sample_rates(&mut self) -> (r: (u64, u64))
        ensures
            r.0 == old(self).prefill_tokens,
            r.1 == old(self).decode_tokens,
            final(self).prefill_tokens == 0,
            final(self).decode_tokens == 0,
            final(self).prefill_latency_ms == old(self).prefill_latency_ms,
            final(self).decode_latency_ms == old(self).decode_latency_ms,
            final(self).completed_tasks == old(self).completed_tasks,
    {
        let prefill = self.prefill_tokens;
        let decode = self.decode_tokens;
        self.prefill_tokens = 0;
        self.decode_tokens = 0;
        (prefill, decode)
    }

    /// A task has finished (with or without an error): count it, exactly
    /// once, touching nothing else.
    pub fn task_completed(&mut self)
        ensures
            final(self).completed_tasks == sat_add(old(self).completed_tasks, 1),
            final(self).prefill_tokens == old(self).prefill_tokens,
            final(self).decode_tokens == old(self).decode_tokens,
            final(self).prefill_latency_ms == old(self).prefill_latency_ms,
            final(self).decode_latency_ms == old(self).decode_latency_ms,
    {
        self.completed_tasks = add_saturating(self.completed_tasks, 1);
    }
}

/// The reporter's run totals: sums of the per-interval rate samples,
/// accumulated over the whole run. Owned by the reporter alone.
#[derive(Clone, Copy, PartialEq, Eq, Structural, Debug)]
pub struct RunTotals {
    pub prefill: u64,
    pub decode: u64,
}

impl RunTotals {
    /// Fresh totals, both zero.
    pub fn new() -> (r: Self)
        ensures
            r == (RunTotals { prefill: 0u64, decode: 0u64 }),
    {
        RunTotals { prefill: 0, decode: 0 }
    }

    /// Fold one interval's sampled rate pair into the running totals.
    pub fn absorb_interval(&mut self, prefill: u64, decode: u64)
        ensures
            final(self).prefill == sat_add(old(self).prefill, prefill),
            final(self).decode == sat_add(old(self).decode, decode),
    {
        self.prefill = add_saturating(self.prefill, prefill);
        self.decode = add_saturating(self.decode, decode);
    }
}

/// One touch of a rate counter over the life of a run: a task adds a token
/// count, or the reporter samples the counter and resets it to zero.
#[derive(Clone, Copy, PartialEq, Eq, Structural, Debug)]
pub enum RateEvent {
    Add(u64),
    Sample,
}

/// What a rate counter holds after a series of events, starting from zero:
/// every add lands in it, every sample empties it. (The exact, unbounded
/// value; the `u64` counter saturates instead of exceeding it.)
pub open spec fn pending_after(events: Seq<RateEvent>) -> int
    decreases events.len(),
{
    if events.len() == 0 {
        0
    } else {
        match events.last() {
            RateEvent::Add(n) => pending_after(events.drop_last()) + n,
            RateEvent::Sample => 0,
        }
    }
}

/// What the reporter's run total holds after a series of events: the sum of
/// everything its samples have read out of the counter.
pub open spec fn absorbed_after(events: Seq<RateEvent>) -> int
    decreases events.len(),
{
    if events.len() == 0 {
        0
    } else {
        match events.last() {
            RateEvent::Add(n) => absorbed_after(events.drop_last()),
            RateEvent::Sample => absorbed_after(events.drop_last()) + pending_after(
                events.drop_last(),
            ),
        }
    }
}

/// Everything the tasks ever added.
pub open spec fn added_total(events: Seq<RateEvent>) -> int
    decreases events.len(),
{
    if events.len() == 0 {
        0
    } else {
        match events.last() {
            RateEvent::Add(n) => added_total(events.drop_last()) + n,
            RateEvent::Sample => added_total(events.drop_last()),
        }
    }
}

/// Law: sampling loses nothing. However adds and samples interleave, what
/// the reporter has absorbed into its run total, plus the residual still
/// pending in the counter at shutdown, is exactly the sum of every token
/// count the tasks added.
pub proof fn lemma_sampling_conserves_tokens(events: Seq<RateEvent>)
    ensures
        absorbed_after(events) + pending_after(events) == added_total(events),
    decreases events.len(),
{
    if events.len() > 0 {
        lemma_sampling_conserves_tokens(events.drop_last());
    }
}

/// An average of `total` over `count` parts: undefined when there are no
/// parts, never a fault.
pub fn guarded_average(total: u64, count: u64) -> (r: Option<u64>)
    ensures
        count == 0 ==> r is None,
        count != 0 ==> r == Some((total / count) as u64),
{
    if count == 0 {
        None
    } else {
        Some(total / count)
    }
}

/// The end-of-run summary: everything the final report prints, with every
/// average that would divide by zero reported as undefined (`None`).
#[derive(Clone, Copy, PartialEq, Eq, Structural, Debug)]
pub struct Summary {
    /// Tasks that finished, out of `total_prompts` launched.
    pub completed_tasks: u64,
    /// Prompts the run was launched with.
    pub total_prompts: u64,
    /// Global prefill rate: run-total prefill tokens per second of wall
    /// clock; undefined for a zero-length run.
    pub prefill_rate: Option<u64>,
    /// Global decode rate, as above.
    pub decode_rate: Option<u64>,
    /// Average time-to-first-token per completed task, in milliseconds;
    /// undefined when no task completed.
    pub avg_prefill_latency_ms: Option<u64>,
    /// Average per-token decode latency per completed task, in
    /// milliseconds; undefined when no task completed.
    pub avg_decode_latency_ms: Option<u64>,
}

/// Compute the final summary from the reporter's run totals, the shared
/// accumulators and the measured wall-clock duration.
pub fn summarize(totals: &RunTotals, counters: &Counters, duration_secs: u64, total_prompts: u64) -> (r:
    Summary)
    ensures
        r.completed_tasks == counters.completed_tasks,
        r.total_prompts == total_prompts,
        duration_secs == 0 ==> r.prefill_rate is None && r.decode_rate is None,
        duration_secs != 0 ==> r.prefill_rate == Some((totals.prefill / duration_secs) as u64)
            && r.decode_rate == Some((totals.decode / duration_secs) as u64),
        counters.completed_tasks == 0 ==> r.avg_prefill_latency_ms is None
            && r.avg_decode_latency_ms is None,
        counters.completed_tasks != 0 ==> r.avg_prefill_latency_ms == Some(
            (counters.prefill_latency_ms / counters.completed_tasks) as u64,
        ) && r.avg_decode_latency_ms == Some(
            (counters.decode_latency_ms / counters.completed_tasks) as u64,
        ),
{
    Summary {
        completed_tasks: counters.completed_tasks,
        total_prompts,
        prefill_rate: guarded_average(totals.prefill, duration_secs),
        decode_rate: guarded_average(totals.decode, duration_secs),
        avg_prefill_latency_ms: guarded_average(counters.prefill_latency_ms, counters.completed_tasks),
        avg_decode_latency_ms: guarded_average(counters.decode_latency_ms, counters.completed_tasks),
    }
}

} // verus!
