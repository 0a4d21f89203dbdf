use build_stamp::collection::{Collection, Step};
use build_stamp::compile_time::{
    collect_stamp, ClockReading, CollectedStamp, Policy, Probe, Query, StampError, ToolRun,
};

const HEAD: &str = "0123456789abcdef0123456789abcdef01234567";

fn output(text: &str) -> ToolRun {
    ToolRun::Output(text.as_bytes().to_vec())
}

fn at(seconds: u64, nanos: u32) -> ClockReading {
    ClockReading::SinceEpoch { seconds, nanos }
}

fn probe_of(revision: ToolRun, porcelain: ToolRun, status: ToolRun, clock: ClockReading) -> Probe {
    Probe { revision, porcelain, status, clock }
}

/// Follows a collection as a caller would, and tells what it asked for.
fn follow(probe: &Probe, policy: Policy) -> (Vec<Step>, Option<Result<CollectedStamp, StampError>>) {
    let mut asked = Vec::new();
    let mut collection = Collection::new();
    loop {
        let step = collection.next_step();
        asked.push(step);
        collection = match step {
            Step::Run(Query::Revision) => collection.record_run(&probe.revision, policy),
            Step::Run(Query::Cleanliness) => collection.record_run(&probe.porcelain, policy),
            Step::Run(Query::Status) => collection.record_run(&probe.status, policy),
            Step::ReadClock => collection.record_clock(probe.clock),
            Step::Stop => break,
        };
        assert!(asked.len() <= 4);
    }
    (asked, collection.into_outcome())
}

fn same(a: &Result<CollectedStamp, StampError>, b: &Result<CollectedStamp, StampError>) -> bool {
    match (a, b) {
        (Ok(a), Ok(b)) => {
            a.git_revision == b.git_revision
                && a.git_revision_cleanness == b.git_revision_cleanness
                && a.git_clean == b.git_clean
                && a.git_status == b.git_status
                && a.build_time_seconds == b.build_time_seconds
                && a.build_time_nanos == b.build_time_nanos
        }
        (Err(a), Err(b)) => a == b,
        _ => false,
    }
}

#[test]
fn collection_asks_for_revision_cleanness_status_and_clock() {
    let probe = probe_of(output(HEAD), output(" M a\n"), output("status"), at(5, 6));
    let (asked, outcome) = follow(&probe, Policy::Strict);
    assert_eq!(
        asked,
        vec![
            Step::Run(Query::Revision),
            Step::Run(Query::Cleanliness),
            Step::Run(Query::Status),
            Step::ReadClock,
            Step::Stop,
        ]
    );
    let stamp = outcome.unwrap().unwrap();
    assert_eq!(stamp.git_revision, HEAD);
    assert_eq!(stamp.git_revision_cleanness, format!("{}*", HEAD));
    assert!(!stamp.git_clean);
    assert_eq!(stamp.git_status, "status");
    assert_eq!(stamp.build_time_seconds, 5);
    assert_eq!(stamp.build_time_nanos, 6);
}

#[test]
fn strict_collection_stops_at_the_first_failure() {
    let probe = probe_of(ToolRun::Failed, output(""), output("status"), at(0, 0));
    let (asked, outcome) = follow(&probe, Policy::Strict);
    assert_eq!(asked, vec![Step::Run(Query::Revision), Step::Stop]);
    assert_eq!(outcome.unwrap().unwrap_err(), StampError::ToolInvocation(Query::Revision));

    let probe = probe_of(output("short"), output(""), output("status"), at(0, 0));
    let (asked, outcome) = follow(&probe, Policy::Strict);
    assert_eq!(asked, vec![Step::Run(Query::Revision), Step::Stop]);
    assert_eq!(outcome.unwrap().unwrap_err(), StampError::Format);

    let probe = probe_of(output(HEAD), ToolRun::Output(vec![0xff]), output("status"), at(0, 0));
    let (asked, outcome) = follow(&probe, Policy::Strict);
    assert_eq!(asked, vec![Step::Run(Query::Revision), Step::Run(Query::Cleanliness), Step::Stop]);
    assert_eq!(outcome.unwrap().unwrap_err(), StampError::Encoding(Query::Cleanliness));

    let probe = probe_of(output(HEAD), output(""), ToolRun::Failed, at(0, 0));
    let (asked, outcome) = follow(&probe, Policy::Strict);
    assert_eq!(
        asked,
        vec![
            Step::Run(Query::Revision),
            Step::Run(Query::Cleanliness),
            Step::Run(Query::Status),
            Step::Stop,
        ]
    );
    assert_eq!(outcome.unwrap().unwrap_err(), StampError::ToolInvocation(Query::Status));
}

#[test]
fn lenient_collection_goes_on_after_a_failed_query() {
    let probe = probe_of(ToolRun::Failed, ToolRun::Failed, ToolRun::Failed, at(3, 4));
    let (asked, outcome) = follow(&probe, Policy::Lenient);
    assert_eq!(asked.len(), 5);
    assert_eq!(asked[3], Step::ReadClock);
    let stamp = outcome.unwrap().unwrap();
    assert_eq!(stamp.git_revision, "unavailable revision");
    assert_eq!(stamp.git_revision_cleanness, "unavailable revision");
    assert!(stamp.git_clean);
    assert_eq!(stamp.git_status, "unavailable status");
}

#[test]
fn clock_before_epoch_fails_the_collection_at_its_last_step() {
    for policy in [Policy::Strict, Policy::Lenient] {
        let probe = probe_of(output(HEAD), output(""), output("s"), ClockReading::BeforeEpoch);
        let (asked, outcome) = follow(&probe, policy);
        assert_eq!(asked.len(), 5);
        assert_eq!(outcome.unwrap().unwrap_err(), StampError::Clock);
    }
}

#[test]
fn collection_by_steps_is_the_collection_of_the_whole_probe() {
    let runs = [
        ToolRun::Failed,
        output(""),
        output(HEAD),
        output("0123456789abcdef0123456789abcdef01234567 HEAD\n"),
        output(" M a\n"),
        ToolRun::Output(vec![0xc3]),
    ];
    let clocks = [ClockReading::BeforeEpoch, at(0, 0), at(u64::MAX, 999_999_999)];
    for revision in &runs {
        for porcelain in &runs {
            for status in &runs {
                for clock in clocks {
                    for policy in [Policy::Strict, Policy::Lenient] {
                        let probe =
                            probe_of(revision.clone(), porcelain.clone(), status.clone(), clock);
                        let (_, by_steps) = follow(&probe, policy);
                        let whole = collect_stamp(&probe, policy);
                        assert!(same(&by_steps.unwrap(), &whole));
                    }
                }
            }
        }
    }
}

#[test]
fn unsettled_collection_has_no_outcome() {
    assert!(Collection::new().into_outcome().is_none());
    let collection = Collection::new().record_run(&output(HEAD), Policy::Strict);
    assert_eq!(collection.next_step(), Step::Run(Query::Cleanliness));
    assert!(collection.into_outcome().is_none());
}

#[test]
fn record_that_is_not_awaited_changes_nothing() {
    let collection = Collection::new().record_clock(at(1, 1));
    assert_eq!(collection.next_step(), Step::Run(Query::Revision));
    let collection = collection
        .record_run(&output(HEAD), Policy::Strict)
        .record_run(&output(""), Policy::Strict)
        .record_run(&output("s"), Policy::Strict);
    assert_eq!(collection.next_step(), Step::ReadClock);
    let collection = collection.record_run(&ToolRun::Failed, Policy::Strict);
    assert_eq!(collection.next_step(), Step::ReadClock);
    let collection = collection.record_clock(at(9, 9));
    assert_eq!(collection.next_step(), Step::Stop);
    let collection = collection
        .record_run(&ToolRun::Failed, Policy::Strict)
        .record_clock(ClockReading::BeforeEpoch);
    let stamp = collection.into_outcome().unwrap().unwrap();
    assert_eq!(stamp.git_revision, HEAD);
    assert_eq!(stamp.build_time_seconds, 9);

    let failed = Collection::new().record_run(&ToolRun::Failed, Policy::Strict);
    let failed = failed.record_run(&output(HEAD), Policy::Strict).record_clock(at(1, 1));
    assert_eq!(failed.next_step(), Step::Stop);
    assert_eq!(
        failed.into_outcome().unwrap().unwrap_err(),
        StampError::ToolInvocation(Query::Revision)
    );
}
