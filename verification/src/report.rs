//! What an import run tells of itself when it has ended.

use vstd::prelude::*;
use crate::category::MediaCategory;
use crate::relocate::RelocationError;

verus! {

/// Why a file was left out of the library. None of these ends the run.
#[derive(Clone, Copy, Debug, PartialEq, Eq, Structural)]
pub enum FailureKind {
    /// The date of the file could not be told: the file stays where it is.
    MetadataUnavailable,
    /// The file could not be copied: the file stays where it is.
    CopyFailed,
    /// The file was copied, but the source could not be removed: the file now
    /// exists twice, and the source is left to be removed by hand.
    SourceDeleteFailed,
}

/// The kind of failure that a failed move is reported as.
pub open spec fn failure_of(error: RelocationError) -> FailureKind {
    match error {
        RelocationError::CopyFailed => FailureKind::CopyFailed,
        RelocationError::SourceDeleteFailed => FailureKind::SourceDeleteFailed,
    }
}

impl FailureKind {
    /// The kind of failure that a failed move is reported as.
    pub fn of_relocation(error: RelocationError) -> (kind: FailureKind)
        ensures
            kind == failure_of(error),
    {
        match error {
            RelocationError::CopyFailed => FailureKind::CopyFailed,
            RelocationError::SourceDeleteFailed => FailureKind::SourceDeleteFailed,
        }
    }
}

/// How the move of one file ended: at the path it was moved to, or in a failure.
#[derive(Debug, PartialEq, Eq)]
pub struct FileOutcome {
    pub path: String,
    pub category: MediaCategory,
    pub result: Result<String, FailureKind>,
}

/// A file outcome with texts in place of strings.
pub struct Outcome {
    pub path: Seq<char>,
    pub category: MediaCategory,
    pub result: Result<Seq<char>, FailureKind>,
}

impl View for FileOutcome {
    type V = Outcome;

    open spec fn view(&self) -> Outcome {
        Outcome {
            path: self.path@,
            category: self.category,
            result: match self.result {
                Ok(destination) => Ok(destination@),
                Err(kind) => Err(kind),
            },
        }
    }
}

/// The outcomes of a list of file outcomes.
pub open spec fn outcomes_of(files: Seq<FileOutcome>) -> Seq<Outcome> {
    files.map_values(|f: FileOutcome| f@)
}

/// How many files of a kind were moved, where `moved` is true, or failed,
/// where it is false.
pub open spec fn tally(outcomes: Seq<Outcome>, category: MediaCategory, moved: bool) -> nat
    decreases outcomes.len(),
{
    if outcomes.len() == 0 {
        0
    } else {
        tally(outcomes.drop_last(), category, moved) + if outcomes.last().category == category
            && outcomes.last().result.is_ok() == moved {
            1nat
        } else {
            0nat
        }
    }
}

/// A file that was left out of the library, with texts in place of strings.
pub struct Failure {
    pub path: Seq<char>,
    pub category: MediaCategory,
    pub kind: FailureKind,
}

/// The failures among the outcomes, in the order of the outcomes.
pub open spec fn failures_among(outcomes: Seq<Outcome>) -> Seq<Failure>
    decreases outcomes.len(),
{
    if outcomes.len() == 0 {
        Seq::empty()
    } else {
        let before = failures_among(outcomes.drop_last());
        let last = outcomes.last();
        match last.result {
            Ok(_) => before,
            Err(kind) => before.push(Failure { path: last.path, category: last.category, kind }),
        }
    }
}

/// A file that was left out of the library, and why.
#[derive(Debug, PartialEq, Eq)]
pub struct FileFailure {
    pub path: String,
    pub category: MediaCategory,
    pub kind: FailureKind,
}

impl View for FileFailure {
    type V = Failure;

    open spec fn view(&self) -> Failure {
        Failure { path: self.path@, category: self.category, kind: self.kind }
    }
}

/// The failures of a list of file failures.
pub open spec fn failures_of(files: Seq<FileFailure>) -> Seq<Failure> {
    files.map_values(|f: FileFailure| f@)
}

/// The report of an import run.
#[derive(Debug, PartialEq, Eq)]
pub struct ImportReport {
    /// The number of regular files that the scan found.
    pub scanned: usize,
    /// The number of those without a kind: they stay where they are.
    pub unclassified: usize,
    /// The number of entries that the scan could not read.
    pub unreadable: usize,
    /// The files that the run tried to move, each with how it ended, in the
    /// order in which they were tried.
    pub outcomes: Vec<FileOutcome>,
}

/// A report with numbers and texts in place of machine values.
pub struct Report {
    pub scanned: nat,
    pub unclassified: nat,
    pub unreadable: nat,
    pub outcomes: Seq<Outcome>,
}

impl View for ImportReport {
    type V = Report;

    open spec fn view(&self) -> Report {
        Report {
            scanned: self.scanned as nat,
            unclassified: self.unclassified as nat,
            unreadable: self.unreadable as nat,
            outcomes: outcomes_of(self.outcomes@),
        }
    }
}

impl ImportReport {
    /// The report of a run that has found and moved nothing.
    pub fn new() -> (report: Self)
        ensures
            report@ == (Report { scanned: 0, unclassified: 0, unreadable: 0, outcomes: Seq::empty() }),
    {
        let report = ImportReport {
            scanned: 0,
            unclassified: 0,
            unreadable: 0,
            outcomes: Vec::new(),
        };
        assert(report@.outcomes =~= Seq::empty());
        report
    }

    fn count(&self, category: MediaCategory, moved: bool) -> (n: usize)
        ensures
            n == tally(self@.outcomes, category, moved),
    {
        let mut n: usize = 0;
        let mut i: usize = 0;
        while i < self.outcomes.len()
            invariant
                i <= self.outcomes.len(),
                n <= i,
                n == tally(self@.outcomes.take(i as int), category, moved),
            decreases self.outcomes.len() - i,
        {
            assert(self@.outcomes.take(i + 1).drop_last() == self@.outcomes.take(i as int));
            assert(self@.outcomes.take(i + 1).last() == self.outcomes@[i as int]@);
            let outcome = &self.outcomes[i];
            if outcome.category == category && outcome.result.is_ok() == moved {
                n += 1;
            }
            i += 1;
        }
        assert(self@.outcomes.take(self.outcomes.len() as int) == self@.outcomes);
        n
    }

    /// The files that were left out of the library, each with the kind of its
    /// failure, in the order in which they were tried.
    pub fn failures(&self) -> (failed: Vec<FileFailure>)
        ensures
            failures_of(failed@) == failures_among(self@.outcomes),
    {
        let mut failed: Vec<FileFailure> = Vec::new();
        let mut i: usize = 0;
        assert(failures_of(failed@) =~= Seq::empty());
        while i < self.outcomes.len()
            invariant
                i <= self.outcomes.len(),
                failures_of(failed@) == failures_among(self@.outcomes.take(i as int)),
            decreases self.outcomes.len() - i,
        {
            assert(self@.outcomes.take(i + 1).drop_last() == self@.outcomes.take(i as int));
            assert(self@.outcomes.take(i + 1).last() == self.outcomes@[i as int]@);
            let outcome = &self.outcomes[i];
            match &outcome.result {
                Ok(_) => {},
                Err(kind) => {
                    let ghost before = failed@;
                    let failure = FileFailure {
                        path: outcome.path.clone(),
                        category: outcome.category,
                        kind: *kind,
                    };
                    failed.push(failure);
                    assert(failures_of(failed@) =~= failures_of(before).push(failure@));
                },
            }
            i += 1;
        }
        assert(self@.outcomes.take(self.outcomes.len() as int) == self@.outcomes);
        failed
    }

    /// The number of files of a kind that were moved.
    pub fn moved(&self, category: MediaCategory) -> (n: usize)
        ensures
            n == tally(self@.outcomes, category, true),
    {
        self.count(category, true)
    }

    /// The number of files of a kind that could not be moved.
    pub fn failed(&self, category: MediaCategory) -> (n: usize)
        ensures
            n == tally(self@.outcomes, category, false),
    {
        self.count(category, false)
    }
}

/// Every file that was tried is counted once: as moved or as failed, under its
/// kind. The failures listed are as many as the files counted as failed.
pub proof fn law_report_adds_up(outcomes: Seq<Outcome>)
    ensures
        outcomes.len() == tally(outcomes, MediaCategory::Audio, true) + tally(
            outcomes,
            MediaCategory::Audio,
            false,
        ) + tally(outcomes, MediaCategory::Image, true) + tally(
            outcomes,
            MediaCategory::Image,
            false,
        ) + tally(outcomes, MediaCategory::Video, true) + tally(
            outcomes,
            MediaCategory::Video,
            false,
        ),
        failures_among(outcomes).len() == tally(outcomes, MediaCategory::Audio, false) + tally(
            outcomes,
            MediaCategory::Image,
            false,
        ) + tally(outcomes, MediaCategory::Video, false),
    decreases outcomes.len(),
{
    if outcomes.len() > 0 {
        law_report_adds_up(outcomes.drop_last());
    }
}

} // verus!
