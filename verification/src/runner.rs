//! Running a plan: which partition is executed, how the failure of an
//! analysis is reported, and when the summary of a run is due.

use vstd::prelude::*;
use vstd::string::StringExecFns;
use crate::error::Error;

verus! {

/// The partition that is executed: a plan is run only where it has exactly
/// one partition, and that partition is the first. For every other number
/// of partitions the run is a violation: there is no partition to execute,
/// so nothing is executed and nothing is reported.
pub fn single_partition(partition_count: usize) -> (partition: Result<usize, Error>)
    ensures
        partition_count == 1 ==> partition == Ok::<usize, Error>(0),
        partition_count != 1 ==> partition == Err::<usize, Error>(
            Error::PartitionCount { found: partition_count },
        ),
{
    if partition_count == 1 {
        Ok(0)
    } else {
        Err(Error::PartitionCount { found: partition_count })
    }
}

/// The error for an analysis whose plan failed to execute, given the text
/// of the cause.
pub fn analyze_failure(cause: &str) -> (error: Error)
    ensures
        error matches Error::Io { message } && message@ == "Failed to execute analyze plan: "@
            + cause@,
{
    let mut message = String::from_str("Failed to execute analyze plan: ");
    message.append(cause);
    Error::Io { message }
}

/// What the stream of a run did when it was last touched.
#[derive(Debug, Clone, Copy, PartialEq, Eq, Structural)]
pub enum StreamEvent {
    /// It was polled and did not end: it gave a batch or an error, or is
    /// not ready.
    Polled,
    /// It was polled and has come to its end.
    Finished,
    /// It was dropped.
    Dropped,
}

/// Guards the summary of a run: it is due when the stream of the run first
/// ends or is dropped, and never again.
#[derive(Debug)]
pub struct ReportGuard {
    reported: bool,
}

/// Whether an event ends a run.
pub open spec fn is_final(event: StreamEvent) -> bool {
    event != StreamEvent::Polled
}

/// How many of the `events` end a run.
pub open spec fn final_events(events: Seq<StreamEvent>) -> nat
    decreases events.len(),
{
    if events.len() == 0 {
        0
    } else {
        final_events(events.drop_last()) + if is_final(events.last()) {
            1nat
        } else {
            0nat
        }
    }
}

impl ReportGuard {
    /// Whether the summary has been reported.
    pub closed spec fn reported(&self) -> bool {
        self.reported
    }

    /// Whether `notice` makes the guard `after` of `self` and calls for the
    /// report as `due` says.
    pub open spec fn notices(&self, event: StreamEvent, after: Self, due: bool) -> bool {
        &&& due == (!self.reported() && is_final(event))
        &&& after.reported() == (self.reported() || is_final(event))
    }

    /// Whether the guards `states` are those that a new guard goes through
    /// on `events`, with the report due as `dues` say.
    pub open spec fn follows(states: Seq<Self>, events: Seq<StreamEvent>, dues: Seq<bool>) -> bool {
        &&& states.len() == events.len() + 1
        &&& dues.len() == events.len()
        &&& !states[0].reported()
        &&& forall|i: int|
            0 <= i < events.len() ==> (#[trigger] states[i]).notices(
                events[i],
                states[i + 1],
                dues[i],
            )
    }

    /// A guard for a run whose summary has not been reported.
    pub fn new() -> (guard: Self)
        ensures
            !guard.reported(),
    {
        ReportGuard { reported: false }
    }

    /// Takes note of what the stream did. The result says whether the
    /// summary is to be reported now.
    pub fn notice(&mut self, event: StreamEvent) -> (due: bool)
        ensures
            old(self).notices(event, *final(self), due),
    {
        match event {
            StreamEvent::Polled => false,
            _ => {
                let due = !self.reported;
                self.reported = true;
                due
            },
        }
    }
}

/// How many times the report was due.
pub open spec fn times_due(dues: Seq<bool>) -> nat
    decreases dues.len(),
{
    if dues.len() == 0 {
        0
    } else {
        times_due(dues.drop_last()) + if dues.last() {
            1nat
        } else {
            0nat
        }
    }
}

/// Over the whole life of a stream the summary is reported exactly once if
/// the stream ends or is dropped, however often that is noticed, and not at
/// all before.
pub proof fn lemma_reported_exactly_once(
    states: Seq<ReportGuard>,
    events: Seq<StreamEvent>,
    dues: Seq<bool>,
)
    requires
        ReportGuard::follows(states, events, dues),
    ensures
        times_due(dues) == if final_events(events) > 0 {
            1nat
        } else {
            0nat
        },
        states.last().reported() == (final_events(events) > 0),
    decreases events.len(),
{
    if events.len() > 0 {
        let shorter_states = states.drop_last();
        let shorter_events = events.drop_last();
        let shorter_dues = dues.drop_last();
        assert(ReportGuard::follows(shorter_states, shorter_events, shorter_dues)) by {
            assert forall|i: int| 0 <= i < shorter_events.len() implies (
            #[trigger] shorter_states[i]).notices(
                shorter_events[i],
                shorter_states[i + 1],
                shorter_dues[i],
            ) by {
                assert(states[i].notices(events[i], states[i + 1], dues[i]));
            }
        }
        lemma_reported_exactly_once(shorter_states, shorter_events, shorter_dues);
        let last = events.len() - 1;
        assert(states[last].notices(events[last], states[last + 1], dues[last]));
        assert(shorter_states.last() == states[last]);
    }
}

} // verus!
