//! An import run as a state machine: what it asks for next, and how it goes on
//! when it is told what came of that.

use vstd::prelude::*;
use crate::calendar::CalendarDate;
use crate::category::MediaCategory;
use crate::date::{creation_date, lemma_creation_date_exists};
use crate::import_set::Buckets;
use crate::path::has_file_name;
use crate::relocate::{
    after_step,
    destination,
    destination_directory,
    first_step,
    Relocation,
    RelocationStep,
};
use crate::report::{failure_of, FailureKind, Outcome, Report};
use crate::scan::{
    law_members_have_names,
    law_scan_accounts_for_every_file,
    regular_files,
    scanned_buckets,
    unclassified_files,
    unreadable_entries,
    ScanEntry,
};

verus! {

/// The phase of an import run. No file is moved before the scan has ended.
#[derive(Clone, Copy, Debug, PartialEq, Eq, Structural)]
pub enum PipelineState {
    /// The directory is being walked.
    Scanning,
    /// The files that the scan found are being moved, one after the other.
    Relocating,
    /// Every file that the scan found has been tried once.
    Done,
    /// The run was given up: the directory could not be walked, or the library
    /// could not be reached.
    Failed,
}

/// What came of the last thing that the run asked for.
#[derive(Debug, PartialEq, Eq)]
pub enum Event {
    /// The walk has ended: these are its entries, in its order.
    Scanned { entries: Vec<ScanEntry> },
    /// The times of creation and of the last change of the file asked about,
    /// in seconds since 1 January 1970, each `None` where it could not be read.
    Times { created: Option<i64>, modified: Option<i64> },
    /// The step asked for was taken, with or without success.
    Step { succeeded: bool },
    /// The run cannot go on.
    Fatal,
}

/// The next thing for the run to have done, with texts in place of strings.
pub enum Request {
    /// Walk the directory: the entries are handed back as `Scanned`.
    Scan,
    /// Read the times of a file: handed back as `Times`.
    ReadTimes { path: Seq<char> },
    /// Create a directory, and those above it: handed back as `Step`.
    CreateDirectory { path: Seq<char> },
    /// Copy a file: handed back as `Step`.
    CopyFile { from: Seq<char>, to: Seq<char> },
    /// Remove a file: handed back as `Step`.
    RemoveFile { path: Seq<char> },
    /// Nothing: the run has ended.
    Stop,
}

/// The paths of one bucket, each with the kind of the bucket.
pub open spec fn tagged(paths: Seq<Seq<char>>, category: MediaCategory) -> Seq<
    (MediaCategory, Seq<char>),
> {
    Seq::new(paths.len(), |i: int| (category, paths[i]))
}

/// The files of an import set in the order in which they are moved: the audio
/// files, then the images, then the videos.
pub open spec fn queue(set: Buckets) -> Seq<(MediaCategory, Seq<char>)> {
    tagged(set.audio, MediaCategory::Audio) + tagged(set.images, MediaCategory::Image) + tagged(
        set.videos,
        MediaCategory::Video,
    )
}

/// The move of one file that is under way.
pub struct Move {
    /// The date of the file, which chooses its place.
    pub date: CalendarDate,
    /// The step that was asked for.
    pub step: RelocationStep,
}

/// An import run, as the laws speak of it.
pub struct Run {
    pub state: PipelineState,
    /// The root of the library.
    pub target_root: Seq<char>,
    /// What the scan found.
    pub imports: Buckets,
    /// The report so far: it holds one outcome for each file tried.
    pub report: Report,
    /// The move of the file in turn, once its date is known.
    pub moving: Option<Move>,
}

impl Run {
    /// A run that has not begun.
    pub open spec fn start(target_root: Seq<char>) -> Run {
        Run {
            state: PipelineState::Scanning,
            target_root,
            imports: Buckets::empty(),
            report: Report { scanned: 0, unclassified: 0, unreadable: 0, outcomes: Seq::empty() },
            moving: None,
        }
    }

    /// The number of files that were tried.
    pub open spec fn tried(self) -> int {
        self.report.outcomes.len() as int
    }

    /// The file in turn, while there is one.
    pub open spec fn current(self) -> (MediaCategory, Seq<char>) {
        queue(self.imports)[self.tried()]
    }

    /// What holds of every run.
    pub open spec fn wf(self) -> bool {
        let files = queue(self.imports);
        &&& forall|i: int| 0 <= i < files.len() ==> has_file_name((#[trigger] files[i]).1)
        &&& self.tried() <= files.len()
        &&& forall|i: int|
            0 <= i < self.tried() ==> (#[trigger] self.report.outcomes[i]).category == files[i].0
                && self.report.outcomes[i].path == files[i].1
        &&& self.report.scanned == self.report.unclassified + files.len()
        &&& match self.state {
            PipelineState::Scanning => self == Run::start(self.target_root),
            PipelineState::Relocating => self.tried() < files.len(),
            PipelineState::Done => self.tried() == files.len() && self.moving is None,
            PipelineState::Failed => true,
        }
        &&& self.moving matches Some(m) ==> self.tried() < files.len() && m.date.valid()
    }

    /// The next thing to have done.
    pub open spec fn next_action(self) -> Request {
        match self.state {
            PipelineState::Scanning => Request::Scan,
            PipelineState::Relocating => {
                let (category, path) = self.current();
                match self.moving {
                    None => Request::ReadTimes { path },
                    Some(m) => match m.step {
                        RelocationStep::CreateDirectory => Request::CreateDirectory {
                            path: destination_directory(self.target_root, category, m.date),
                        },
                        RelocationStep::CopyFile => Request::CopyFile {
                            from: path,
                            to: destination(self.target_root, category, m.date, path),
                        },
                        RelocationStep::RemoveSource => Request::RemoveFile { path },
                    },
                }
            },
            PipelineState::Done => Request::Stop,
            PipelineState::Failed => Request::Stop,
        }
    }

    /// The run once the file in turn has ended in `result`: the outcome is put
    /// down, and the next file is in turn, or the run is done.
    pub open spec fn finish_file(self, result: Result<Seq<char>, FailureKind>) -> Run {
        let (category, path) = self.current();
        let outcomes = self.report.outcomes.push(Outcome { path, category, result });
        Run {
            state: if outcomes.len() == queue(self.imports).len() {
                PipelineState::Done
            } else {
                PipelineState::Relocating
            },
            report: Report { outcomes, ..self.report },
            moving: None,
            ..self
        }
    }

    /// The run after the scan has given its entries.
    pub open spec fn scanned(self, entries: Seq<ScanEntry>) -> Run {
        let imports = scanned_buckets(entries);
        Run {
            state: if queue(imports).len() == 0 {
                PipelineState::Done
            } else {
                PipelineState::Relocating
            },
            imports,
            report: Report {
                scanned: regular_files(entries),
                unclassified: unclassified_files(entries),
                unreadable: unreadable_entries(entries),
                outcomes: Seq::empty(),
            },
            ..self
        }
    }

    /// Whether an event answers what the run asked for last. `Fatal` does
    /// while the run has not ended.
    pub open spec fn accepts(self, event: Event) -> bool {
        match event {
            Event::Scanned { .. } => self.next_action() is Scan,
            Event::Times { .. } => self.next_action() is ReadTimes,
            Event::Step { .. } => self.state is Relocating && self.moving is Some,
            Event::Fatal => self.state is Scanning || self.state is Relocating,
        }
    }

    /// The run after an event. An event that answers nothing asked for leaves
    /// the run as it is.
    pub open spec fn after(self, event: Event) -> Run {
        if !self.accepts(event) {
            self
        } else {
            match event {
                Event::Scanned { entries } => self.scanned(entries@),
                Event::Times { created, modified } => match creation_date(created, modified) {
                    Some(date) => Run { moving: Some(Move { date, step: first_step() }), ..self },
                    None => self.finish_file(Err(FailureKind::MetadataUnavailable)),
                },
                Event::Step { succeeded } => {
                    let m = self.moving->0;
                    let (category, path) = self.current();
                    match after_step(m.step, succeeded) {
                        Relocation::Next(step) => Run {
                            moving: Some(Move { date: m.date, step }),
                            ..self
                        },
                        Relocation::Finished(Ok(_)) => self.finish_file(
                            Ok(destination(self.target_root, category, m.date, path)),
                        ),
                        Relocation::Finished(Err(error)) => self.finish_file(
                            Err(failure_of(error)),
                        ),
                    }
                },
                Event::Fatal => Run { state: PipelineState::Failed, ..self },
            }
        }
    }
}

/// The kind and the path of an outcome.
pub open spec fn file_of(outcome: Outcome) -> (MediaCategory, Seq<char>) {
    (outcome.category, outcome.path)
}

/// The files that the outcomes are of, in the order of the outcomes.
pub open spec fn files_of(outcomes: Seq<Outcome>) -> Seq<(MediaCategory, Seq<char>)> {
    outcomes.map_values(|o: Outcome| file_of(o))
}

/// Every file of the queue is in the import set.
pub proof fn lemma_queued_files_are_members(set: Buckets, i: int)
    requires
        0 <= i < queue(set).len(),
    ensures
        set.members(queue(set)[i].0).contains(queue(set)[i].1),
        set.contains(queue(set)[i].1),
        queue(set).len() == set.in_order().len(),
{
    if i < set.audio.len() {
        assert(set.audio[i] == queue(set)[i].1);
    } else if i < set.audio.len() + set.images.len() {
        assert(set.images[i - set.audio.len()] == queue(set)[i].1);
    } else {
        assert(set.videos[i - set.audio.len() - set.images.len()] == queue(set)[i].1);
    }
}

/// What holds of every run holds after every event.
pub proof fn law_run_stays_well_formed(run: Run, event: Event)
    requires
        run.wf(),
    ensures
        run.after(event).wf(),
{
    let next = run.after(event);
    if run.accepts(event) {
        match event {
            Event::Scanned { entries } => {
                let files = queue(next.imports);
                law_scan_accounts_for_every_file(entries@);
                assert(files.len() == next.imports.in_order().len());
                assert forall|i: int| 0 <= i < files.len() implies has_file_name(
                    (#[trigger] files[i]).1,
                ) by {
                    lemma_queued_files_are_members(next.imports, i);
                    law_members_have_names(entries@, files[i].1);
                }
            },
            Event::Times { created, modified } => {
                if creation_date(created, modified) is None {
                    lemma_finished_file_keeps_run_well_formed(
                        run,
                        Err(FailureKind::MetadataUnavailable),
                    );
                } else {
                    lemma_creation_date_exists(created, modified);
                }
            },
            Event::Step { succeeded } => {
                let m = run.moving->0;
                let (category, path) = run.current();
                match after_step(m.step, succeeded) {
                    Relocation::Next(step) => {},
                    Relocation::Finished(Ok(_)) => {
                        lemma_finished_file_keeps_run_well_formed(
                            run,
                            Ok(destination(run.target_root, category, m.date, path)),
                        );
                    },
                    Relocation::Finished(Err(error)) => {
                        lemma_finished_file_keeps_run_well_formed(run, Err(failure_of(error)));
                    },
                }
            },
            Event::Fatal => {},
        }
    }
}

/// A run stays well formed when the file in turn has ended.
pub proof fn lemma_finished_file_keeps_run_well_formed(
    run: Run,
    result: Result<Seq<char>, FailureKind>,
)
    requires
        run.wf(),
        run.state is Relocating,
    ensures
        run.finish_file(result).wf(),
{
    let next = run.finish_file(result);
    assert forall|i: int| 0 <= i < next.tried() implies (#[trigger] next.report.outcomes[i]).category
        == queue(next.imports)[i].0 && next.report.outcomes[i].path == queue(next.imports)[i].1 by {
        if i < run.tried() {
            assert(next.report.outcomes[i] == run.report.outcomes[i]);
        }
    }
}

/// A run that is done or was given up takes no more events: it stays as it is.
pub proof fn law_ended_run_is_final(run: Run, event: Event)
    requires
        run.state is Done || run.state is Failed,
    ensures
        run.after(event) == run,
        run.next_action() is Stop,
{
}

/// The phases follow one another: a scan is followed by the moves or, where
/// nothing was found, by the end; no run goes back to scanning; and only
/// `Fatal` makes a run fail, whatever happens to a file.
pub proof fn law_phases_in_order(run: Run, event: Event)
    requires
        run.wf(),
    ensures
        run.state is Scanning ==> run.after(event).report.outcomes.len() == 0,
        run.after(event).state is Scanning ==> run.state is Scanning,
        run.after(event).state is Relocating ==> run.state is Scanning || run.state is Relocating,
        run.after(event).state is Failed <==> run.state is Failed || (event is Fatal
            && !(run.state is Done)),
        !(run.state is Scanning) ==> run.after(event).imports == run.imports,
{
}

/// An event ends the move of at most one file, the one in turn, and the
/// outcomes of the files before it stay as they are.
pub proof fn law_one_file_at_a_time(run: Run, event: Event)
    requires
        run.wf(),
    ensures
        run.after(event).report.outcomes == run.report.outcomes || (run.state is Relocating
            && run.after(event).report.outcomes.len() == run.tried() + 1
            && run.after(event).report.outcomes.drop_last() == run.report.outcomes && file_of(
            run.after(event).report.outcomes.last(),
        ) == run.current()),
{
    let next = run.after(event);
    if next.report.outcomes != run.report.outcomes {
        assert(next.report.outcomes.drop_last() =~= run.report.outcomes);
    }
}

/// When a run is done, every file that the scan found was tried exactly once,
/// in the order audio, images, videos: the outcomes are those of the queue,
/// file by file.
pub proof fn law_done_means_every_file_tried_once(run: Run)
    requires
        run.wf(),
        run.state is Done,
    ensures
        files_of(run.report.outcomes) == queue(run.imports),
        run.report.scanned == run.report.unclassified + run.report.outcomes.len(),
{
    assert(files_of(run.report.outcomes) =~= queue(run.imports));
}

/// A scan that finds nothing ends the run at once, with nothing in its report.
pub proof fn law_empty_scan_is_done(target_root: Seq<char>, entries: Vec<ScanEntry>)
    requires
        entries@.len() == 0,
    ensures
        Run::start(target_root).after(Event::Scanned { entries }).state is Done,
        Run::start(target_root).after(Event::Scanned { entries }).report == (Report {
            scanned: 0,
            unclassified: 0,
            unreadable: 0,
            outcomes: Seq::empty(),
        }),
{
}

} // verus!
