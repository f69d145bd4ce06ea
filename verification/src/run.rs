use vstd::prelude::*;

use crate::errors::TaskError;

verus! {

/// The phases of one run. A run is a single pass: no retry, no resume.
#[derive(Clone, Copy, PartialEq, Eq, Structural, Debug)]
pub enum RunPhase {
    Starting,
    Running,
    Interrupted,
    AllTasksComplete,
    Reporting,
    Terminal,
}

/// The events the shutdown coordinator reacts to.
#[derive(Clone, Copy, PartialEq, Eq, Structural, Debug)]
pub enum RunEvent {
    /// The scheduler has fanned the tasks out.
    Launched,
    /// An external termination request arrived.
    TerminationSignal,
    /// Every bench task has finished and every permit is back.
    AllTasksDone,
    /// The coordinator has started computing the final summary.
    SummaryStarted,
    /// The final summary has been printed.
    SummaryPrinted,
}

/// The transition table of a run: `Starting → Running →
/// {Interrupted | AllTasksComplete} → Reporting → Terminal`. Whichever of
/// the signal and overall completion comes first ends the run; any other
/// event leaves the phase unchanged, and `Terminal` absorbs everything.
pub open spec fn phase_step_spec(p: RunPhase, e: RunEvent) -> RunPhase {
    match (p, e) {
        (RunPhase::Starting, RunEvent::Launched) => RunPhase::Running,
        (RunPhase::Running, RunEvent::TerminationSignal) => RunPhase::Interrupted,
        (RunPhase::Running, RunEvent::AllTasksDone) => RunPhase::AllTasksComplete,
        (RunPhase::Interrupted, RunEvent::SummaryStarted) => RunPhase::Reporting,
        (RunPhase::AllTasksComplete, RunEvent::SummaryStarted) => RunPhase::Reporting,
        (RunPhase::Reporting, RunEvent::SummaryPrinted) => RunPhase::Terminal,
        (_, _) => p,
    }
}

/// Advance the run by one observed event.
pub fn phase_step(p: RunPhase, e: RunEvent) -> (r: RunPhase)
    ensures
        r == phase_step_spec(p, e),
{
    match (p, e) {
        (RunPhase::Starting, RunEvent::Launched) => RunPhase::Running,
        (RunPhase::Running, RunEvent::TerminationSignal) => RunPhase::Interrupted,
        (RunPhase::Running, RunEvent::AllTasksDone) => RunPhase::AllTasksComplete,
        (RunPhase::Interrupted, RunEvent::SummaryStarted) => RunPhase::Reporting,
        (RunPhase::AllTasksComplete, RunEvent::SummaryStarted) => RunPhase::Reporting,
        (RunPhase::Reporting, RunEvent::SummaryPrinted) => RunPhase::Terminal,
        (_, _) => p,
    }
}

/// Law: `Terminal` is absorbing — no event restarts a finished run.
pub proof fn lemma_terminal_absorbing(e: RunEvent)
    ensures
        phase_step_spec(RunPhase::Terminal, e) == RunPhase::Terminal,
{
}

/// Law: the summary phase is entered only out of an ended run — after the
/// external signal or after overall completion, never straight from
/// `Running`.
pub proof fn lemma_reporting_only_after_end(p: RunPhase, e: RunEvent)
    ensures
        phase_step_spec(p, e) == RunPhase::Reporting ==> p == RunPhase::Reporting || p
            == RunPhase::Interrupted || p == RunPhase::AllTasksComplete,
{
}

/// The first task error in submission order, if any.
pub open spec fn first_error(results: Seq<Result<(), TaskError>>) -> Option<TaskError>
    decreases results.len(),
{
    if results.len() == 0 {
        None
    } else {
        match results.first() {
            Result::Err(e) => Some(e),
            Result::Ok(_) => first_error(results.drop_first()),
        }
    }
}

proof fn lemma_first_error_skip(results: Seq<Result<(), TaskError>>, i: int)
    requires
        0 <= i <= results.len(),
        forall|j: int| 0 <= j < i ==> #[trigger] results[j] is Ok,
    ensures
        first_error(results) == first_error(results.skip(i)),
    decreases i,
{
    if i > 0 {
        assert(results[0] is Ok);
        assert(results.first() == results[0]);
        assert(first_error(results) == first_error(results.drop_first()));
        assert(results.drop_first() =~= results.skip(1));
        assert(results.skip(1).skip(i - 1) =~= results.skip(i));
        assert(forall|j: int| 0 <= j < i - 1 ==> #[trigger] results.skip(1)[j] is Ok);
        lemma_first_error_skip(results.skip(1), i - 1);
    } else {
        assert(results.skip(0) =~= results);
    }
}

/// The scheduler's aggregate outcome: success only if every task finished
/// without error; otherwise the first error in submission order is
/// surfaced, and the other results are left as they are.
pub fn run_outcome(results: &Vec<Result<(), TaskError>>) -> (r: Result<(), TaskError>)
    ensures
        r is Ok <==> first_error(results@) is None,
        r matches Err(e) ==> Some(e) == first_error(results@),
{
    let mut i: usize = 0;
    while i < results.len()
        invariant
            0 <= i <= results@.len(),
            forall|j: int| 0 <= j < i ==> #[trigger] results@[j] is Ok,
        decreases results@.len() - i,
    {
        match &results[i] {
            Result::Err(e) => {
                proof {
                    lemma_first_error_skip(results@, i as int);
                    assert(results@.skip(i as int).first() == results@[i as int]);
                }
                return Err(*e);
            },
            Result::Ok(_) => {},
        }
        i = i + 1;
    }
    proof {
        lemma_first_error_skip(results@, results@.len() as int);
        assert(results@.skip(results@.len() as int) =~= Seq::<Result<(), TaskError>>::empty());
    }
    Ok(())
}

/// The process outcome at the end of a run: failure exactly when some task
/// failed. An external interruption alone is not a failure — a run cut
/// short by the termination signal still exits successfully if no task
/// erred.
pub fn exit_success(first_err: &Option<TaskError>, interrupted: bool) -> (r: bool)
    ensures
        r <==> first_err is None,
{
    let _ = interrupted;
    match first_err {
        Option::None => true,
        Option::Some(_) => false,
    }
}

} // verus!
