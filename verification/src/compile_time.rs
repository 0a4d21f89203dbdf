//! The collector: what a build finds out about its repository and its clock,
//! and the stamp file it writes down from that.
//!
//! Running the version-control tool, reading the clock and writing the file
//! are left to the caller. The caller hands over what the tool printed and
//! what the clock said, and gets back the stamp and the text of the file.

use crate::literal::{
    bool_literal, bool_literal_value, bool_text, decimal, decimal_value, lemma_bool_round_trip,
    lemma_decimal_round_trip, lemma_text_literal_round_trip, push_decimal, push_text_literal,
    text_literal, text_literal_value,
};
use crate::stamp::{marked_revision, StampModel, DIRTY_MARK};
use crate::text::{decode_text, text_is_blank, trimmed};
use vstd::prelude::*;
use vstd::string::{StrSliceExecFns, StringExecFns};
use vstd::utf8::{decode_utf8, valid_utf8};

verus! {

/// The number of characters of a revision: that of a SHA-1 hash in hexadecimal.
pub const REVISION_WIDTH: usize = 40;

/// The revision of a stamp whose revision could not be found.
pub const UNAVAILABLE_REVISION: &'static str = "unavailable revision";

/// The status of a stamp whose status could not be found.
pub const UNAVAILABLE_STATUS: &'static str = "unavailable status";

/// What to do where a query to the version-control tool fails.
#[derive(Clone, Copy, Debug, PartialEq, Eq, Structural)]
pub enum Policy {
    /// Give up: the first failure is the collector's error.
    Strict,
    /// Go on: the field that failed gets its fallback value.
    Lenient,
}

/// The three questions that the collector puts to the version-control tool.
#[derive(Clone, Copy, Debug, PartialEq, Eq, Structural)]
pub enum Query {
    /// `git show-ref --head HEAD`
    Revision,
    /// `git status --porcelain`
    Cleanliness,
    /// `git status`
    Status,
}

/// The name of the version-control tool, as it is run.
pub const TOOL: &'static str = "git";

/// The arguments that the tool is run with for `query`.
pub open spec fn query_arguments_of(query: Query) -> Seq<Seq<char>> {
    match query {
        Query::Revision => seq!["show-ref"@, "--head"@, "HEAD"@],
        Query::Cleanliness => seq!["status"@, "--porcelain"@],
        Query::Status => seq!["status"@],
    }
}

/// The arguments that the tool is run with for `query`, in their order.
pub fn query_arguments(query: Query) -> (args: Vec<&'static str>)
    ensures
        args@.len() == query_arguments_of(query).len(),
        forall|i: int|
            0 <= i < args@.len() ==> (#[trigger] args@[i])@ == query_arguments_of(query)[i],
{
    let mut args: Vec<&'static str> = Vec::new();
    match query {
        Query::Revision => {
            args.push("show-ref");
            args.push("--head");
            args.push("HEAD");
        },
        Query::Cleanliness => {
            args.push("status");
            args.push("--porcelain");
        },
        Query::Status => {
            args.push("status");
        },
    }
    args
}

/// Why no stamp was collected.
#[derive(Clone, Copy, Debug, PartialEq, Eq, Structural)]
pub enum StampError {
    /// The tool could not be run, or reported a failure.
    ToolInvocation(Query),
    /// The tool printed something that is not text.
    Encoding(Query),
    /// The tool printed a revision of fewer characters than a revision has.
    Format,
    /// The clock stands before the Unix epoch.
    Clock,
}

/// What one run of the version-control tool gave.
#[derive(Clone, Debug)]
pub enum ToolRun {
    /// The tool could not be run, or reported a failure.
    Failed,
    /// The tool ran; this is its standard output, byte for byte.
    Output(Vec<u8>),
}

impl ToolRun {
    /// The run of a tool that was started and has ended: its output where it
    /// ended in success, a failure where it did not, whatever it printed.
    pub fn from_exit(success: bool, stdout: Vec<u8>) -> (run: ToolRun)
        ensures
            run@ == if success {
                Some(stdout@)
            } else {
                None
            },
    {
        if success {
            ToolRun::Output(stdout)
        } else {
            ToolRun::Failed
        }
    }
}

impl View for ToolRun {
    type V = Option<Seq<u8>>;

    open spec fn view(&self) -> Option<Seq<u8>> {
        match self {
            ToolRun::Failed => None,
            ToolRun::Output(bytes) => Some(bytes@),
        }
    }
}

/// The text that a run printed, or the error that this run is for `query`.
pub open spec fn query_text(run: Option<Seq<u8>>, query: Query) -> Result<Seq<char>, StampError> {
    match run {
        None => Err(StampError::ToolInvocation(query)),
        Some(bytes) => if valid_utf8(bytes) {
            Ok(decode_utf8(bytes))
        } else {
            Err(StampError::Encoding(query))
        },
    }
}

/// A result with the value it holds taken by its view.
pub open spec fn outcome_view<T: View>(outcome: Result<T, StampError>) -> Result<T::V, StampError> {
    match outcome {
        Ok(value) => Ok(value@),
        Err(error) => Err(error),
    }
}

/// The text that the tool printed for `query`.
pub fn tool_text<'a>(run: &'a ToolRun, query: Query) -> (text: Result<&'a str, StampError>)
    ensures
        outcome_view(text) == query_text(run@, query),
{
    match run {
        ToolRun::Failed => Err(StampError::ToolInvocation(query)),
        ToolRun::Output(bytes) => match decode_text(bytes.as_slice()) {
            Some(text) => Ok(text),
            None => Err(StampError::Encoding(query)),
        },
    }
}

/// The revision that a run of the revision query stands for, failures not
/// forgiven: the first `REVISION_WIDTH` characters of what the tool printed.
pub open spec fn strict_revision(run: Option<Seq<u8>>) -> Result<Seq<char>, StampError> {
    match query_text(run, Query::Revision) {
        Err(error) => Err(error),
        Ok(text) => if text.len() < REVISION_WIDTH {
            Err(StampError::Format)
        } else {
            Ok(text.subrange(0, REVISION_WIDTH as int))
        },
    }
}

/// The revision that a run of the revision query stands for under `policy`.
pub open spec fn revision_of(run: Option<Seq<u8>>, policy: Policy) -> Result<
    Seq<char>,
    StampError,
> {
    match (strict_revision(run), policy) {
        (Err(_), Policy::Lenient) => Ok(UNAVAILABLE_REVISION@),
        (outcome, _) => outcome,
    }
}

/// Whether a run of the porcelain status query shows a clean working tree
/// under `policy`: nothing is left of what the tool printed once it is trimmed.
pub open spec fn clean_of(run: Option<Seq<u8>>, policy: Policy) -> Result<bool, StampError> {
    match (query_text(run, Query::Cleanliness), policy) {
        (Ok(text), _) => Ok(trimmed(text).len() == 0),
        (Err(_), Policy::Lenient) => Ok(true),
        (Err(error), Policy::Strict) => Err(error),
    }
}

/// The status that a run of the status query stands for under `policy`: what
/// the tool printed, as it stands.
pub open spec fn status_of(run: Option<Seq<u8>>, policy: Policy) -> Result<Seq<char>, StampError> {
    match (query_text(run, Query::Status), policy) {
        (Err(_), Policy::Lenient) => Ok(UNAVAILABLE_STATUS@),
        (outcome, _) => outcome,
    }
}

/// The revision of `HEAD`, from a run of `git show-ref --head HEAD`.
///
/// The revision is the first `REVISION_WIDTH` characters of the output. A
/// run that failed, an output that is not UTF-8 and an output of fewer
/// characters are errors under `Policy::Strict`, and give
/// `UNAVAILABLE_REVISION` under `Policy::Lenient`.
pub fn git_revision(run: &ToolRun, policy: Policy) -> (revision: Result<String, StampError>)
    ensures
        outcome_view(revision) == revision_of(run@, policy),
{
    let strict = match tool_text(run, Query::Revision) {
        Err(error) => Err(error),
        Ok(text) => if text.unicode_len() < REVISION_WIDTH {
            Err(StampError::Format)
        } else {
            Ok(String::from_str(text.substring_char(0, REVISION_WIDTH)))
        },
    };
    assert(outcome_view(strict) == strict_revision(run@));
    match (strict, policy) {
        (Err(_), Policy::Lenient) => Ok(String::from_str(UNAVAILABLE_REVISION)),
        (strict, _) => strict,
    }
}

/// Whether the working tree is clean, from a run of `git status --porcelain`.
///
/// The tree is clean where the output, trimmed, is empty. A run that failed
/// and an output that is not UTF-8 are errors under `Policy::Strict`, and
/// count as clean under `Policy::Lenient`.
pub fn git_clean(run: &ToolRun, policy: Policy) -> (clean: Result<bool, StampError>)
    ensures
        clean == clean_of(run@, policy),
{
    match (tool_text(run, Query::Cleanliness), policy) {
        (Ok(text), _) => Ok(text_is_blank(text)),
        (Err(_), Policy::Lenient) => Ok(true),
        (Err(error), Policy::Strict) => Err(error),
    }
}

/// The status, from a run of `git status`: the output as it stands.
///
/// A run that failed and an output that is not UTF-8 are errors under
/// `Policy::Strict`, and give `UNAVAILABLE_STATUS` under `Policy::Lenient`.
pub fn git_status(run: &ToolRun, policy: Policy) -> (status: Result<String, StampError>)
    ensures
        outcome_view(status) == status_of(run@, policy),
{
    match (tool_text(run, Query::Status), policy) {
        (Ok(text), _) => Ok(String::from_str(text)),
        (Err(_), Policy::Lenient) => Ok(String::from_str(UNAVAILABLE_STATUS)),
        (Err(error), Policy::Strict) => Err(error),
    }
}

/// The revision with its mark of cleanness: `rev` itself where `clean`
/// holds, `rev` followed by one `*` where it does not.
pub fn git_revision_cleanness(rev: &str, clean: bool) -> (marked: String)
    ensures
        marked@ == marked_revision(rev@, clean),
        rev@.is_prefix_of(marked@),
        clean <==> marked@ == rev@,
        !clean <==> marked@ == rev@ + seq!['*'],
{
    let mut marked = String::from_str(rev);
    if !clean {
        proof {
            reveal_strlit("*");
        }
        marked.append("*");
        assert("*"@ =~= seq![DIRTY_MARK]);
    }
    assert(marked@ =~= marked_revision(rev@, clean));
    assert(marked@.subrange(0, rev@.len() as int) =~= rev@);
    assert(rev@.push(DIRTY_MARK) =~= rev@ + seq!['*']);
    assert(rev@.push(DIRTY_MARK).len() == rev@.len() + 1);
    marked
}

/// What the clock said when it was asked for the time of the build.
#[derive(Clone, Copy, Debug, PartialEq, Eq, Structural)]
pub enum ClockReading {
    /// A time before the Unix epoch.
    BeforeEpoch,
    /// A time at or after the Unix epoch, by its distance from it.
    SinceEpoch {
        /// Whole seconds since the epoch.
        seconds: u64,
        /// The rest, in nanoseconds.
        nanos: u32,
    },
}

/// All that a build found out: the three runs of the version-control tool
/// and the reading of the clock.
#[derive(Clone, Debug)]
pub struct Probe {
    /// The run of `git show-ref --head HEAD`.
    pub revision: ToolRun,
    /// The run of `git status --porcelain`.
    pub porcelain: ToolRun,
    /// The run of `git status`.
    pub status: ToolRun,
    /// The time of the build.
    pub clock: ClockReading,
}

/// A stamp as the collector holds it, before it is written down.
#[derive(Clone, Debug)]
pub struct CollectedStamp {
    /// Commit hash of `HEAD`.
    pub git_revision: String,
    /// The revision, followed by a `*` if the working tree was not clean.
    pub git_revision_cleanness: String,
    /// Whether the working tree was clean.
    pub git_clean: bool,
    /// Output of `git status`.
    pub git_status: String,
    /// Whole seconds from the Unix epoch to the build.
    pub build_time_seconds: u64,
    /// Nanoseconds to add to `build_time_seconds`.
    pub build_time_nanos: u64,
}

impl View for CollectedStamp {
    type V = StampModel;

    open spec fn view(&self) -> StampModel {
        StampModel {
            revision: self.git_revision@,
            revision_cleanness: self.git_revision_cleanness@,
            clean: self.git_clean,
            status: self.git_status@,
            seconds: self.build_time_seconds as nat,
            nanos: self.build_time_nanos as nat,
        }
    }
}

/// The stamp that a probe stands for under `policy`, or the error of the
/// first of its parts that fails: revision, cleanness, status and clock are
/// looked at in this order.
pub open spec fn collected(probe: Probe, policy: Policy) -> Result<StampModel, StampError> {
    match (
        revision_of(probe.revision@, policy),
        clean_of(probe.porcelain@, policy),
        status_of(probe.status@, policy),
        probe.clock,
    ) {
        (Err(error), _, _, _) => Err(error),
        (_, Err(error), _, _) => Err(error),
        (_, _, Err(error), _) => Err(error),
        (Ok(revision), Ok(clean), Ok(status), clock) => stamped(revision, clean, status, clock),
    }
}

/// The stamp of a revision, a cleanness and a status at the time that the
/// clock gave, or the clock's error.
pub open spec fn stamped(
    revision: Seq<char>,
    clean: bool,
    status: Seq<char>,
    clock: ClockReading,
) -> Result<StampModel, StampError> {
    match clock {
        ClockReading::BeforeEpoch => Err(StampError::Clock),
        ClockReading::SinceEpoch { seconds, nanos } => Ok(
            StampModel {
                revision,
                revision_cleanness: marked_revision(revision, clean),
                clean,
                status,
                seconds: seconds as nat,
                nanos: nanos as nat,
            },
        ),
    }
}

/// Puts a revision, a cleanness, a status and the time of the build
/// together into a stamp, with the marked revision that goes with them.
pub fn stamp_at(revision: String, clean: bool, status: String, clock: ClockReading) -> (stamp:
    Result<CollectedStamp, StampError>)
    ensures
        outcome_view(stamp) == stamped(revision@, clean, status@, clock),
        stamp matches Ok(made) ==> made@.is_consistent(),
{
    match clock {
        ClockReading::BeforeEpoch => Err(StampError::Clock),
        ClockReading::SinceEpoch { seconds, nanos } => {
            let git_revision_cleanness = git_revision_cleanness(revision.as_str(), clean);
            Ok(
                CollectedStamp {
                    git_revision: revision,
                    git_revision_cleanness,
                    git_clean: clean,
                    git_status: status,
                    build_time_seconds: seconds,
                    build_time_nanos: nanos as u64,
                },
            )
        },
    }
}

/// Makes the stamp of a build from what the build found out.
///
/// Under `Policy::Strict` the first failure among revision, cleanness and
/// status, in this order, is the error. Under `Policy::Lenient` each of the
/// three falls back on its own. A clock before the epoch is an error under
/// both.
pub fn collect_stamp(probe: &Probe, policy: Policy) -> (stamp: Result<CollectedStamp, StampError>)
    ensures
        outcome_view(stamp) == collected(*probe, policy),
        stamp matches Ok(made) ==> made@.is_consistent(),
{
    let revision = match git_revision(&probe.revision, policy) {
        Ok(revision) => revision,
        Err(error) => { return Err(error); },
    };
    let clean = match git_clean(&probe.porcelain, policy) {
        Ok(clean) => clean,
        Err(error) => { return Err(error); },
    };
    let status = match git_status(&probe.status, policy) {
        Ok(status) => status,
        Err(error) => { return Err(error); },
    };
    stamp_at(revision, clean, status, probe.clock)
}

/// The texts of a stamp hang on the three runs of the tool alone, not on
/// the clock: two probes with the same runs give, where both give a stamp,
/// the same revision, marked revision, cleanness and status. With the same
/// clock reading too they give the same outcome altogether.
pub proof fn lemma_texts_do_not_depend_on_clock(first: Probe, second: Probe, policy: Policy)
    requires
        first.revision@ == second.revision@,
        first.porcelain@ == second.porcelain@,
        first.status@ == second.status@,
    ensures
        first.clock == second.clock ==> collected(first, policy) == collected(second, policy),
        match (collected(first, policy), collected(second, policy)) {
            (Ok(a), Ok(b)) => {
                &&& a.revision == b.revision
                &&& a.revision_cleanness == b.revision_cleanness
                &&& a.clean == b.clean
                &&& a.status == b.status
            },
            _ => true,
        },
{
}

/// The name of the stamp file inside the directory it is written to.
pub const STAMP_FILE_NAME: &'static str = "generated_stamp.rs";

/// How a stamp file starts: two empty lines, then the constant's name and
/// type and the opening of the record.
pub const STAMP_FILE_OPENING: &'static str =
    "\n\npub const BUILD_STAMP: build_stamp::BuildStamp = build_stamp::BuildStamp{\n";

/// How a stamp file ends: the closing of the record, then an empty line.
pub const STAMP_FILE_CLOSING: &'static str = "};\n\n";

/// One line of the record: the field's name and its value as a literal.
pub open spec fn field_line(name: Seq<char>, value: Seq<char>) -> Seq<char> {
    "    "@ + name + ": "@ + value + ",\n"@
}

/// The text of the stamp file for a stamp: a constant of the name
/// `BUILD_STAMP` whose value is the record of the stamp's six fields, the
/// texts as the literals that hold them, the numbers in decimal.
pub open spec fn stamp_file(stamp: StampModel) -> Seq<char> {
    STAMP_FILE_OPENING@ + field_line("git_revision"@, text_literal(stamp.revision)) + field_line(
        "git_revision_cleanness"@,
        text_literal(stamp.revision_cleanness),
    ) + field_line("git_clean"@, bool_literal(stamp.clean)) + field_line(
        "git_status"@,
        text_literal(stamp.status),
    ) + field_line("build_time_seconds"@, decimal(stamp.seconds)) + field_line(
        "build_time_nanos"@,
        decimal(stamp.nanos),
    ) + STAMP_FILE_CLOSING@
}

/// Appends to `out` the start of a field's line, up to its value.
fn open_field(out: &mut String, name: &str)
    ensures
        final(out)@ == old(out)@ + "    "@ + name@ + ": "@,
{
    out.append("    ");
    out.append(name);
    out.append(": ");
}

/// Appends to `out` the line of a field whose value is a text.
fn push_text_field(out: &mut String, name: &str, value: &str)
    ensures
        final(out)@ == old(out)@ + field_line(name@, text_literal(value@)),
{
    open_field(out, name);
    push_text_literal(out, value);
    out.append(",\n");
    assert(final(out)@ =~= old(out)@ + field_line(name@, text_literal(value@)));
}

/// Appends to `out` the line of a field whose value is a boolean.
fn push_bool_field(out: &mut String, name: &str, value: bool)
    ensures
        final(out)@ == old(out)@ + field_line(name@, bool_literal(value)),
{
    open_field(out, name);
    out.append(bool_text(value));
    out.append(",\n");
    assert(final(out)@ =~= old(out)@ + field_line(name@, bool_literal(value)));
}

/// Appends to `out` the line of a field whose value is a number.
fn push_number_field(out: &mut String, name: &str, value: u64)
    ensures
        final(out)@ == old(out)@ + field_line(name@, decimal(value as nat)),
{
    open_field(out, name);
    push_decimal(out, value);
    out.append(",\n");
    assert(final(out)@ =~= old(out)@ + field_line(name@, decimal(value as nat)));
}

/// The text of the stamp file for `stamp`.
pub fn stamp_file_text(stamp: &CollectedStamp) -> (text: String)
    ensures
        text@ == stamp_file(stamp@),
{
    let mut text = String::from_str(STAMP_FILE_OPENING);
    push_text_field(&mut text, "git_revision", stamp.git_revision.as_str());
    push_text_field(&mut text, "git_revision_cleanness", stamp.git_revision_cleanness.as_str());
    push_bool_field(&mut text, "git_clean", stamp.git_clean);
    push_text_field(&mut text, "git_status", stamp.git_status.as_str());
    push_number_field(&mut text, "build_time_seconds", stamp.build_time_seconds);
    push_number_field(&mut text, "build_time_nanos", stamp.build_time_nanos);
    text.append(STAMP_FILE_CLOSING);
    text
}

/// The text of the stamp file for what a build found out: the stamp is
/// collected under `policy` and written down.
pub fn stamp_file_contents(probe: &Probe, policy: Policy) -> (text: Result<String, StampError>)
    ensures
        outcome_view(text) == match collected(*probe, policy) {
            Ok(stamp) => Ok::<Seq<char>, StampError>(stamp_file(stamp)),
            Err(error) => Err(error),
        },
{
    match collect_stamp(probe, policy) {
        Ok(stamp) => Ok(stamp_file_text(&stamp)),
        Err(error) => Err(error),
    }
}

/// Each field of a stamp, written as the literal that the stamp file holds
/// for it, is read back as the value it was written from.
pub proof fn lemma_stamp_fields_round_trip(stamp: StampModel)
    ensures
        text_literal_value(text_literal(stamp.revision)) == Some(stamp.revision),
        text_literal_value(text_literal(stamp.revision_cleanness)) == Some(
            stamp.revision_cleanness,
        ),
        bool_literal_value(bool_literal(stamp.clean)) == Some(stamp.clean),
        text_literal_value(text_literal(stamp.status)) == Some(stamp.status),
        decimal_value(decimal(stamp.seconds)) == stamp.seconds,
        decimal_value(decimal(stamp.nanos)) == stamp.nanos,
{
    lemma_text_literal_round_trip(stamp.revision);
    lemma_text_literal_round_trip(stamp.revision_cleanness);
    lemma_bool_round_trip(stamp.clean);
    lemma_text_literal_round_trip(stamp.status);
    lemma_decimal_round_trip(stamp.seconds);
    lemma_decimal_round_trip(stamp.nanos);
}

} // verus!
