//! The collection of a stamp, one step at a time.
//!
//! The collector's questions are answered outside this library: a tool is
//! run, a clock is read. A `Collection` says which question comes next,
//! takes the answer, and ends as soon as the outcome is settled, so that
//! nothing is asked after a failure that ends the build.

use crate::compile_time::{
    clean_of, collected, git_clean, git_revision, git_status, outcome_view, revision_of, stamp_at,
    stamped, status_of, ClockReading, CollectedStamp, Policy, Probe, Query, StampError, ToolRun,
};
use crate::stamp::StampModel;
use vstd::prelude::*;

verus! {

/// What the caller of a collection is to do next.
#[derive(Clone, Copy, Debug, PartialEq, Eq, Structural)]
pub enum Step {
    /// Run the tool for this query, and record the run.
    Run(Query),
    /// Read the clock, and record the reading.
    ReadClock,
    /// Nothing: the outcome is settled.
    Stop,
}

/// How far the collection of a stamp has come.
#[derive(Clone, Debug)]
pub enum Collection {
    /// Nothing is known yet.
    AwaitsRevision,
    /// The revision is known.
    AwaitsCleanliness { revision: String },
    /// The revision and the cleanness are known.
    AwaitsStatus { revision: String, clean: bool },
    /// All is known but the time.
    AwaitsClock { revision: String, clean: bool, status: String },
    /// The stamp is made.
    Done(CollectedStamp),
    /// No stamp will be made.
    Failed(StampError),
}

/// A collection with its texts as sequences of characters.
pub enum CollectionModel {
    AwaitsRevision,
    AwaitsCleanliness { revision: Seq<char> },
    AwaitsStatus { revision: Seq<char>, clean: bool },
    AwaitsClock { revision: Seq<char>, clean: bool, status: Seq<char> },
    Done(StampModel),
    Failed(StampError),
}

impl View for Collection {
    type V = CollectionModel;

    open spec fn view(&self) -> CollectionModel {
        match self {
            Collection::AwaitsRevision => CollectionModel::AwaitsRevision,
            Collection::AwaitsCleanliness { revision } => CollectionModel::AwaitsCleanliness {
                revision: revision@,
            },
            Collection::AwaitsStatus { revision, clean } => CollectionModel::AwaitsStatus {
                revision: revision@,
                clean: *clean,
            },
            Collection::AwaitsClock { revision, clean, status } => CollectionModel::AwaitsClock {
                revision: revision@,
                clean: *clean,
                status: status@,
            },
            Collection::Done(stamp) => CollectionModel::Done(stamp@),
            Collection::Failed(error) => CollectionModel::Failed(*error),
        }
    }
}

/// What is to be done next in `state`: the three queries in their order,
/// then the clock, and nothing once a stamp is made or the collection failed.
pub open spec fn next_step_of(state: CollectionModel) -> Step {
    match state {
        CollectionModel::AwaitsRevision => Step::Run(Query::Revision),
        CollectionModel::AwaitsCleanliness { .. } => Step::Run(Query::Cleanliness),
        CollectionModel::AwaitsStatus { .. } => Step::Run(Query::Status),
        CollectionModel::AwaitsClock { .. } => Step::ReadClock,
        CollectionModel::Done(_) => Step::Stop,
        CollectionModel::Failed(_) => Step::Stop,
    }
}

/// The state that follows `state` once `run` is recorded under `policy`:
/// the run answers the query that `state` waits for, and a failure that the
/// policy does not forgive fails the collection. A state that waits for no
/// run stays as it is.
pub open spec fn after_run(
    state: CollectionModel,
    run: Option<Seq<u8>>,
    policy: Policy,
) -> CollectionModel {
    match state {
        CollectionModel::AwaitsRevision => match revision_of(run, policy) {
            Ok(revision) => CollectionModel::AwaitsCleanliness { revision },
            Err(error) => CollectionModel::Failed(error),
        },
        CollectionModel::AwaitsCleanliness { revision } => match clean_of(run, policy) {
            Ok(clean) => CollectionModel::AwaitsStatus { revision, clean },
            Err(error) => CollectionModel::Failed(error),
        },
        CollectionModel::AwaitsStatus { revision, clean } => match status_of(run, policy) {
            Ok(status) => CollectionModel::AwaitsClock { revision, clean, status },
            Err(error) => CollectionModel::Failed(error),
        },
        other => other,
    }
}

/// The state that follows `state` once the reading of the clock is
/// recorded: the stamp is made, or the collection fails on a clock before
/// the epoch. A state that does not wait for the clock stays as it is.
pub open spec fn after_clock(state: CollectionModel, clock: ClockReading) -> CollectionModel {
    match state {
        CollectionModel::AwaitsClock { revision, clean, status } => match stamped(
            revision,
            clean,
            status,
            clock,
        ) {
            Ok(stamp) => CollectionModel::Done(stamp),
            Err(error) => CollectionModel::Failed(error),
        },
        other => other,
    }
}

/// The outcome of a collection that is settled; `None` while it is not.
pub open spec fn outcome_of(state: CollectionModel) -> Option<Result<StampModel, StampError>> {
    match state {
        CollectionModel::Done(stamp) => Some(Ok(stamp)),
        CollectionModel::Failed(error) => Some(Err(error)),
        _ => None,
    }
}

/// The state of a collection after all that a probe holds is recorded in
/// the order of the steps.
pub open spec fn after_probe(probe: Probe, policy: Policy) -> CollectionModel {
    after_clock(
        after_run(
            after_run(
                after_run(CollectionModel::AwaitsRevision, probe.revision@, policy),
                probe.porcelain@,
                policy,
            ),
            probe.status@,
            policy,
        ),
        probe.clock,
    )
}

/// A collection that is taken step by step ends in the outcome that the
/// whole probe stands for. It is settled after the four steps at the latest,
/// and from the first failure on: what is recorded after that changes nothing.
pub proof fn lemma_steps_give_collected(probe: Probe, policy: Policy)
    ensures
        outcome_of(after_probe(probe, policy)) == Some(collected(probe, policy)),
        next_step_of(after_probe(probe, policy)) == Step::Stop,
{
}

/// A collection that is settled asks for nothing more and stays as it is,
/// whatever is recorded.
pub proof fn lemma_settled_stays(
    state: CollectionModel,
    run: Option<Seq<u8>>,
    clock: ClockReading,
    policy: Policy,
)
    requires
        outcome_of(state) is Some,
    ensures
        next_step_of(state) == Step::Stop,
        after_run(state, run, policy) == state,
        after_clock(state, clock) == state,
{
}

impl Collection {
    /// A collection at its start.
    pub fn new() -> (start: Collection)
        ensures
            start@ == CollectionModel::AwaitsRevision,
    {
        Collection::AwaitsRevision
    }

    /// What is to be done next.
    pub fn next_step(&self) -> (step: Step)
        ensures
            step == next_step_of(self@),
    {
        match self {
            Collection::AwaitsRevision => Step::Run(Query::Revision),
            Collection::AwaitsCleanliness { .. } => Step::Run(Query::Cleanliness),
            Collection::AwaitsStatus { .. } => Step::Run(Query::Status),
            Collection::AwaitsClock { .. } => Step::ReadClock,
            Collection::Done(_) => Step::Stop,
            Collection::Failed(_) => Step::Stop,
        }
    }

    /// Records the run of the tool for the query that the collection waits for.
    pub fn record_run(self, run: &ToolRun, policy: Policy) -> (next: Collection)
        ensures
            next@ == after_run(self@, run@, policy),
    {
        match self {
            Collection::AwaitsRevision => match git_revision(run, policy) {
                Ok(revision) => Collection::AwaitsCleanliness { revision },
                Err(error) => Collection::Failed(error),
            },
            Collection::AwaitsCleanliness { revision } => match git_clean(run, policy) {
                Ok(clean) => Collection::AwaitsStatus { revision, clean },
                Err(error) => Collection::Failed(error),
            },
            Collection::AwaitsStatus { revision, clean } => match git_status(run, policy) {
                Ok(status) => Collection::AwaitsClock { revision, clean, status },
                Err(error) => Collection::Failed(error),
            },
            other => other,
        }
    }

    /// Records the reading of the clock.
    pub fn record_clock(self, clock: ClockReading) -> (next: Collection)
        ensures
            next@ == after_clock(self@, clock),
    {
        match self {
            Collection::AwaitsClock { revision, clean, status } => match stamp_at(
                revision,
                clean,
                status,
                clock,
            ) {
                Ok(stamp) => Collection::Done(stamp),
                Err(error) => Collection::Failed(error),
            },
            other => other,
        }
    }

    /// The outcome of the collection: the stamp or the error once it is
    /// settled, `None` while a step is left to do.
    pub fn into_outcome(self) -> (outcome: Option<Result<CollectedStamp, StampError>>)
        ensures
            match outcome {
                Some(result) => outcome_of(self@) == Some(outcome_view(result)),
                None => outcome_of(self@) is None,
            },
    {
        match self {
            Collection::Done(stamp) => Some(Ok(stamp)),
            Collection::Failed(error) => Some(Err(error)),
            _ => None,
        }
    }
}

} // verus!
