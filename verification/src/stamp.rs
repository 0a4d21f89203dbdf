//! The stamp as a running program holds it, and what it says.

use vstd::prelude::*;

verus! {

/// The character that follows the revision of a build whose working tree
/// was not clean.
pub const DIRTY_MARK: char = '*';

/// Nanoseconds in a second.
pub const NANOS_PER_SECOND: u64 = 1_000_000_000;

/// The revision with its mark of cleanness: the revision alone for a clean
/// working tree, the revision and one `*` otherwise.
pub open spec fn marked_revision(revision: Seq<char>, clean: bool) -> Seq<char> {
    if clean {
        revision
    } else {
        revision.push(DIRTY_MARK)
    }
}

/// What a stamp says: the texts as sequences of characters, the build time
/// as the two numbers it is kept in.
pub struct StampModel {
    pub revision: Seq<char>,
    pub revision_cleanness: Seq<char>,
    pub clean: bool,
    pub status: Seq<char>,
    pub seconds: nat,
    pub nanos: nat,
}

impl StampModel {
    /// Whether the marked revision is the one that goes with the revision
    /// and the cleanness. Every stamp that the collector makes is consistent.
    pub open spec fn is_consistent(self) -> bool {
        self.revision_cleanness == marked_revision(self.revision, self.clean)
    }

    /// The build time in nanoseconds from the Unix epoch.
    pub open spec fn nanos_since_epoch(self) -> nat {
        self.seconds * (NANOS_PER_SECOND as nat) + self.nanos
    }
}

/// The marked revision of a consistent stamp starts with the revision.
pub proof fn lemma_marked_revision_starts_with_revision(stamp: StampModel)
    requires
        stamp.is_consistent(),
    ensures
        stamp.revision.is_prefix_of(stamp.revision_cleanness),
{
    assert(stamp.revision_cleanness.subrange(0, stamp.revision.len() as int) =~= stamp.revision);
}

/// A consistent stamp is clean exactly where its marked revision is the
/// revision itself.
pub proof fn lemma_clean_iff_unmarked(stamp: StampModel)
    requires
        stamp.is_consistent(),
    ensures
        stamp.clean <==> stamp.revision_cleanness == stamp.revision,
{
    if !stamp.clean {
        assert(stamp.revision_cleanness.len() == stamp.revision.len() + 1);
    }
}

/// A consistent stamp is not clean exactly where its marked revision is the
/// revision and one `*` behind it.
pub proof fn lemma_dirty_iff_marked_once(stamp: StampModel)
    requires
        stamp.is_consistent(),
    ensures
        !stamp.clean <==> stamp.revision_cleanness == stamp.revision + seq!['*'],
{
    assert(stamp.revision.push(DIRTY_MARK) =~= stamp.revision + seq!['*']);
    if stamp.clean {
        assert((stamp.revision + seq!['*']).len() == stamp.revision.len() + 1);
    }
}

/// A point in time, given by its distance from the Unix epoch.
#[derive(Clone, Copy, Debug, PartialEq, Eq, Structural)]
pub struct BuildTime {
    /// Whole seconds since the epoch.
    pub seconds: u128,
    /// The rest, in nanoseconds: less than a second.
    pub subsec_nanos: u32,
}

impl BuildTime {
    /// Whether the nanoseconds stay under one second.
    pub open spec fn is_normal(self) -> bool {
        self.subsec_nanos < NANOS_PER_SECOND
    }

    /// The distance from the Unix epoch in nanoseconds.
    pub open spec fn nanos_since_epoch(self) -> nat {
        (self.seconds * (NANOS_PER_SECOND as nat) + self.subsec_nanos) as nat
    }
}

/// Parameters from build time. Note that cargo won't regenerate this if source files don't change.
/// A post-commit hook that touches `build.rs` keeps revisions marked clean.
#[derive(Clone, Debug)]
pub struct BuildStamp {
    /// Commit hash of `HEAD` at build time.
    pub git_revision: &'static str,
    /// Git revision followed by a `*` if the status was not clean at the time.
    pub git_revision_cleanness: &'static str,
    /// Whether the working directory was clean at build time.
    pub git_clean: bool,
    /// Output of git status at build time.
    pub git_status: &'static str,
    /// Whole seconds from the Unix epoch to the build.
    pub build_time_seconds: u64,
    /// Nanoseconds to add to `build_time_seconds`.
    pub build_time_nanos: u64,
}

impl View for BuildStamp {
    type V = StampModel;

    open spec fn view(&self) -> StampModel {
        StampModel {
            revision: self.git_revision@,
            revision_cleanness: self.git_revision_cleanness@,
            clean: self.git_clean,
            status: self.git_status@,
            seconds: self.build_time_seconds as nat,
            nanos: self.build_time_nanos as nat,
        }
    }
}

impl BuildStamp {
    /// Commit hash of `HEAD` at build time.
    pub fn git_revision(&self) -> (revision: &'static str)
        ensures
            revision@ == self@.revision,
    {
        self.git_revision
    }

    /// Whether the working directory was clean at build time.
    pub fn git_clean(&self) -> (clean: bool)
        ensures
            clean == self@.clean,
    {
        self.git_clean
    }

    /// Git revision followed by a `*` if the status was not clean at the time.
    pub fn git_revision_cleanness(&self) -> (marked: &'static str)
        ensures
            marked@ == self@.revision_cleanness,
    {
        self.git_revision_cleanness
    }

    /// Output of git status at build time.
    pub fn git_status(&self) -> (status: &'static str)
        ensures
            status@ == self@.status,
    {
        self.git_status
    }

    /// Time of the build: the Unix epoch, the seconds and the nanoseconds of
    /// the stamp added up, with the nanoseconds carried into the seconds.
    pub fn build_time(&self) -> (time: BuildTime)
        ensures
            time.is_normal(),
            time.nanos_since_epoch() == self@.nanos_since_epoch(),
    {
        let carry: u64 = self.build_time_nanos / NANOS_PER_SECOND;
        let rest: u64 = self.build_time_nanos % NANOS_PER_SECOND;
        let seconds: u128 = self.build_time_seconds as u128 + carry as u128;
        assert(self.build_time_nanos == carry * NANOS_PER_SECOND + rest) by (nonlinear_arith)
            requires
                carry == self.build_time_nanos / NANOS_PER_SECOND,
                rest == self.build_time_nanos % NANOS_PER_SECOND,
        ;
        assert((self.build_time_seconds + carry) * NANOS_PER_SECOND == self.build_time_seconds
            * NANOS_PER_SECOND + carry * NANOS_PER_SECOND) by (nonlinear_arith);
        BuildTime { seconds, subsec_nanos: rest as u32 }
    }
}

} // verus!
