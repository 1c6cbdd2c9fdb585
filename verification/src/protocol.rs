use vstd::prelude::*;
use vstd::assert_by_contradiction;

verus! {

/// One observable event on a spin flag.
pub enum FlagStep {
    /// A successful acquisition: a blocking acquire completing, or a
    /// try-acquire that found the flag free.
    Acquire,
    /// A try-acquire that found the flag held and reported failure.
    TryFail,
    /// A release by the current holder.
    Release,
}

/// Whether a step can happen at all when the flag state is `locked`:
/// acquisitions succeed only on a free flag; failed attempts and releases
/// happen only on a held one.
pub open spec fn step_enabled(locked: bool, step: FlagStep) -> bool {
    match step {
        FlagStep::Acquire => !locked,
        FlagStep::TryFail => locked,
        FlagStep::Release => locked,
    }
}

/// The flag state immediately after a step.
pub open spec fn step_state(step: FlagStep) -> bool {
    match step {
        FlagStep::Acquire => true,
        FlagStep::TryFail => true,
        FlagStep::Release => false,
    }
}

/// A trace of events is valid from state `locked` when each event is
/// enabled in the state the events before it leave behind.
pub open spec fn valid_trace(locked: bool, trace: Seq<FlagStep>) -> bool
    decreases trace.len(),
{
    trace.len() == 0 || (step_enabled(locked, trace[0]) && valid_trace(
        step_state(trace[0]),
        trace.skip(1),
    ))
}

/// The flag state a trace leaves behind: the state after its last event,
/// or the starting state for an empty trace.
pub open spec fn state_after(locked: bool, trace: Seq<FlagStep>) -> bool {
    if trace.len() == 0 {
        locked
    } else {
        step_state(trace.last())
    }
}

/// In a valid trace, every event is enabled in the state left by the
/// events before it.
pub proof fn lemma_valid_trace_step(locked: bool, trace: Seq<FlagStep>, i: int)
    requires
        valid_trace(locked, trace),
        0 <= i < trace.len(),
    ensures
        step_enabled(state_after(locked, trace.take(i)), trace[i]),
    decreases i,
{
    if i == 0 {
        assert(trace.take(0).len() == 0);
    } else {
        lemma_valid_trace_step(step_state(trace[0]), trace.skip(1), i - 1);
        assert(trace.skip(1)[i - 1] == trace[i]);
        // The state before event i reads the same off the full trace and
        // off the trace with its first event removed.
        if i == 1 {
            assert(trace.take(1).last() == trace[0]);
        } else {
            assert(trace.skip(1).take(i - 1).last() == trace.skip(1)[i - 2]);
            assert(trace.skip(1)[i - 2] == trace[i - 1]);
            assert(trace.take(i).last() == trace[i - 1]);
        }
    }
}

/// Mutual exclusion: after a successful acquisition, as long as the holder
/// has not released, no further acquisition can succeed, so two holders'
/// critical sections never overlap.
pub proof fn lemma_mutual_exclusion(locked: bool, trace: Seq<FlagStep>, i: int, j: int)
    requires
        valid_trace(locked, trace),
        0 <= i < j < trace.len(),
        trace[i] is Acquire,
        forall|k: int| i < k < j ==> !(trace[k] is Release),
    ensures
        !(trace[j] is Acquire),
{
    lemma_valid_trace_step(locked, trace, j);
    assert(trace.take(j).last() == trace[j - 1]);
    if i < j - 1 {
        assert(!(trace[j - 1] is Release));
    }
    assert(state_after(locked, trace.take(j)));
}

/// The same, stated the other way round: between any two successful
/// acquisitions in a valid trace stands a release.
pub proof fn lemma_release_between_acquisitions(
    locked: bool,
    trace: Seq<FlagStep>,
    i: int,
    j: int,
)
    requires
        valid_trace(locked, trace),
        0 <= i < j < trace.len(),
        trace[i] is Acquire,
        trace[j] is Acquire,
    ensures
        exists|k: int| i < k < j && trace[k] is Release,
{
    assert_by_contradiction!(exists|k: int| i < k < j && trace[k] is Release, {
        assert(forall|k: int| i < k < j ==> !(trace[k] is Release));
        lemma_mutual_exclusion(locked, trace, i, j);
    });
}

} // verus!
