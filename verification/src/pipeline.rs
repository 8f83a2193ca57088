//! The import run that a program drives: it names the next thing to do on
//! disk, takes what came of it, and keeps the report.

use vstd::prelude::*;
use crate::category::MediaCategory;
use crate::config::UserConfig;
use crate::date::{resolve_creation_date, ImportDate};
use crate::import_set::{texts, ImportSet};
use crate::relocate::{
    begin_relocation,
    continue_relocation,
    destination,
    destination_directory,
    plan_relocation,
    Relocation,
    RelocationPlan,
    RelocationStep,
};
use crate::report::{outcomes_of, FailureKind, FileOutcome, ImportReport};
use crate::run::{
    law_run_stays_well_formed,
    lemma_finished_file_keeps_run_well_formed,
    queue,
    tagged,
    Event,
    Move,
    PipelineState,
    Request,
    Run,
};
use crate::scan::{scan, ScanEntry, ScanResult};

verus! {

/// The next thing for the run to have done.
#[derive(Debug, PartialEq, Eq)]
pub enum Action {
    /// Walk the directory; hand back `Event::Scanned`.
    Scan,
    /// Read the times of a file; hand back `Event::Times`.
    ReadTimes { path: String },
    /// Create a directory and those above it; hand back `Event::Step`.
    CreateDirectory { path: String },
    /// Copy a file; hand back `Event::Step`.
    CopyFile { from: String, to: String },
    /// Remove a file; hand back `Event::Step`.
    RemoveFile { path: String },
    /// Nothing: the run has ended.
    Stop,
}

impl View for Action {
    type V = Request;

    open spec fn view(&self) -> Request {
        match self {
            Action::Scan => Request::Scan,
            Action::ReadTimes { path } => Request::ReadTimes { path: path@ },
            Action::CreateDirectory { path } => Request::CreateDirectory { path: path@ },
            Action::CopyFile { from, to } => Request::CopyFile { from: from@, to: to@ },
            Action::RemoveFile { path } => Request::RemoveFile { path: path@ },
            Action::Stop => Request::Stop,
        }
    }
}

struct QueuedFile {
    category: MediaCategory,
    path: String,
}

struct Moving {
    date: ImportDate,
    plan: RelocationPlan,
    step: RelocationStep,
}

spec fn queued(files: Seq<QueuedFile>) -> Seq<(MediaCategory, Seq<char>)> {
    files.map_values(|f: QueuedFile| (f.category, f.path@))
}

fn enqueue(files: &mut Vec<QueuedFile>, paths: &Vec<String>, category: MediaCategory)
    ensures
        queued(final(files)@) == queued(old(files)@) + tagged(texts(paths@), category),
{
    let mut i: usize = 0;
    while i < paths.len()
        invariant
            i <= paths.len(),
            queued(files@) == queued(old(files)@) + tagged(texts(paths@), category).take(i as int),
        decreases paths.len() - i,
    {
        let ghost before = files@;
        files.push(QueuedFile { category, path: paths[i].clone() });
        assert(queued(files@) =~= queued(before).push((category, paths@[i as int]@)));
        assert(tagged(texts(paths@), category).take(i + 1) =~= tagged(
            texts(paths@),
            category,
        ).take(i as int).push((category, paths@[i as int]@)));
        i += 1;
    }
    assert(tagged(texts(paths@), category).take(paths.len() as int) =~= tagged(
        texts(paths@),
        category,
    ));
}

/// An import run: it sorts what a scan found, has each file moved to its place
/// in the library, and keeps the report.
pub struct MediaImport {
    state: PipelineState,
    target_root: String,
    imports: ImportSet,
    files: Vec<QueuedFile>,
    moving: Option<Moving>,
    report: ImportReport,
}

impl View for MediaImport {
    type V = Run;

    closed spec fn view(&self) -> Run {
        Run {
            state: self.state,
            target_root: self.target_root@,
            imports: self.imports@,
            report: self.report@,
            moving: match self.moving {
                Some(m) => Some(Move { date: m.date@, step: m.step }),
                None => None,
            },
        }
    }
}

impl MediaImport {
    #[verifier::type_invariant]
    spec fn well_formed(self) -> bool {
        &&& self@.wf()
        &&& queued(self.files@) == queue(self.imports@)
        &&& self.moving matches Some(m) ==> {
            let (category, path) = self@.current();
            &&& m.plan.source@ == path
            &&& m.plan.directory@ == destination_directory(self.target_root@, category, m.date@)
            &&& m.plan.destination@ == destination(self.target_root@, category, m.date@, path)
        }
    }

    /// A run that has not begun, for the library that the settings name.
    pub fn new(config: &UserConfig) -> (run: Self)
        ensures
            run@ == Run::start(config@),
            run@.wf(),
    {
        let target_root = config.target_path().clone();
        let imports = ImportSet::new();
        let files: Vec<QueuedFile> = Vec::new();
        let report = ImportReport::new();
        assert(queued(files@) =~= queue(imports@));
        MediaImport {
            state: PipelineState::Scanning,
            target_root,
            imports,
            files,
            moving: None,
            report,
        }
    }

    /// The phase of the run.
    pub fn state(&self) -> (state: PipelineState)
        ensures
            state == self@.state,
            self@.wf(),
    {
        proof {
            use_type_invariant(self);
        }
        self.state
    }

    /// The report so far.
    pub fn report(&self) -> (report: &ImportReport)
        ensures
            report@ == self@.report,
    {
        &self.report
    }

    /// What the scan found.
    pub fn imports(&self) -> (imports: &ImportSet)
        ensures
            imports@ == self@.imports,
    {
        &self.imports
    }

    /// The next thing to have done.
    pub fn next_action(&self) -> (action: Action)
        ensures
            action@ == self@.next_action(),
    {
        proof {
            use_type_invariant(self);
        }
        match self.state {
            PipelineState::Scanning => Action::Scan,
            PipelineState::Relocating => {
                let at = self.report.outcomes.len();
                assert(queued(self.files@)[at as int] == self@.current());
                let file = &self.files[at];
                match &self.moving {
                    None => Action::ReadTimes { path: file.path.clone() },
                    Some(m) => match m.step {
                        RelocationStep::CreateDirectory => Action::CreateDirectory {
                            path: m.plan.directory.clone(),
                        },
                        RelocationStep::CopyFile => Action::CopyFile {
                            from: m.plan.source.clone(),
                            to: m.plan.destination.clone(),
                        },
                        RelocationStep::RemoveSource => Action::RemoveFile {
                            path: m.plan.source.clone(),
                        },
                    },
                }
            },
            PipelineState::Done => Action::Stop,
            PipelineState::Failed => Action::Stop,
        }
    }
}

/// The text of the path that a file was moved to, or the failure.
pub open spec fn result_view(result: Result<String, FailureKind>) -> Result<Seq<char>, FailureKind> {
    match result {
        Ok(destination) => Ok(destination@),
        Err(kind) => Err(kind),
    }
}

impl MediaImport {
    fn finish_file(self, result: Result<String, FailureKind>) -> (next: MediaImport)
        requires
            self@.state is Relocating,
        ensures
            next@ == self@.finish_file(result_view(result)),
    {
        proof {
            use_type_invariant(&self);
            lemma_finished_file_keeps_run_well_formed(self@, result_view(result));
        }
        let ghost before = self@;
        let MediaImport { state: _, target_root, imports, files, moving: _, report } = self;
        let ImportReport { scanned, unclassified, unreadable, mut outcomes } = report;
        let at = outcomes.len();
        assert(queued(files@)[at as int] == before.current());
        let file = &files[at];
        let ghost earlier = outcomes@;
        let outcome = FileOutcome { path: file.path.clone(), category: file.category, result };
        outcomes.push(outcome);
        assert(outcomes_of(outcomes@) =~= outcomes_of(earlier).push(outcome@));
        let state = if outcomes.len() == files.len() {
            PipelineState::Done
        } else {
            PipelineState::Relocating
        };
        let report = ImportReport { scanned, unclassified, unreadable, outcomes };
        assert(report@ == before.finish_file(result_view(result)).report);
        MediaImport { state, target_root, imports, files, moving: None, report }
    }

    fn begin(self, entries: Vec<ScanEntry>) -> (next: MediaImport)
        requires
            self@.state is Scanning,
        ensures
            next@ == self@.scanned(entries@),
    {
        proof {
            use_type_invariant(&self);
            law_run_stays_well_formed(self@, Event::Scanned { entries });
        }
        let MediaImport { state: _, target_root, imports: _, files: _, moving: _, report: _ } = self;
        let ScanResult { imports, scanned, unclassified, unreadable } = scan(&entries);
        let mut files: Vec<QueuedFile> = Vec::new();
        assert(queued(files@) =~= Seq::empty());
        enqueue(&mut files, imports.audio(), MediaCategory::Audio);
        enqueue(&mut files, imports.images(), MediaCategory::Image);
        enqueue(&mut files, imports.videos(), MediaCategory::Video);
        assert(queued(files@) =~= queue(imports@));
        let state = if files.len() == 0 {
            PipelineState::Done
        } else {
            PipelineState::Relocating
        };
        let outcomes: Vec<FileOutcome> = Vec::new();
        assert(outcomes_of(outcomes@) =~= Seq::empty());
        let report = ImportReport { scanned, unclassified, unreadable, outcomes };
        MediaImport { state, target_root, imports, files, moving: None, report }
    }

    fn date_current(self, created: Option<i64>, modified: Option<i64>) -> (next: MediaImport)
        requires
            self@.state is Relocating,
            self@.moving is None,
        ensures
            next@ == self@.after(Event::Times { created, modified }),
    {
        proof {
            use_type_invariant(&self);
            law_run_stays_well_formed(self@, Event::Times { created, modified });
        }
        match resolve_creation_date(created, modified) {
            Ok(date) => {
                let ghost before = self@;
                let MediaImport { state, target_root, imports, files, moving: _, report } = self;
                let at = report.outcomes.len();
                assert(queued(files@)[at as int] == before.current());
                let file = &files[at];
                let plan = plan_relocation(
                    target_root.as_str(),
                    file.category,
                    &date,
                    file.path.as_str(),
                );
                let moving = Some(Moving { date, plan, step: begin_relocation() });
                MediaImport { state, target_root, imports, files, moving, report }
            },
            Err(_) => self.finish_file(Err(FailureKind::MetadataUnavailable)),
        }
    }

    fn step_current(self, succeeded: bool) -> (next: MediaImport)
        requires
            self@.state is Relocating,
        ensures
            next@ == self@.after(Event::Step { succeeded }),
    {
        proof {
            use_type_invariant(&self);
            law_run_stays_well_formed(self@, Event::Step { succeeded });
        }
        let MediaImport { state, target_root, imports, files, moving, report } = self;
        match moving {
            Some(Moving { date, plan, step }) => match continue_relocation(step, succeeded) {
                Relocation::Next(step) => {
                    let moving = Some(Moving { date, plan, step });
                    MediaImport { state, target_root, imports, files, moving, report }
                },
                Relocation::Finished(result) => {
                    let result = match result {
                        Ok(_) => Ok(plan.destination),
                        Err(error) => Err(FailureKind::of_relocation(error)),
                    };
                    let run = MediaImport { state, target_root, imports, files, moving: None, report };
                    run.finish_file(result)
                },
            },
            None => MediaImport { state, target_root, imports, files, moving: None, report },
        }
    }

    fn give_up(self) -> (next: MediaImport)
        requires
            self@.state is Scanning || self@.state is Relocating,
        ensures
            next@ == self@.after(Event::Fatal),
    {
        proof {
            use_type_invariant(&self);
            law_run_stays_well_formed(self@, Event::Fatal);
        }
        let MediaImport { state: _, target_root, imports, files, moving, report } = self;
        MediaImport { state: PipelineState::Failed, target_root, imports, files, moving, report }
    }

    /// The run after an event: what came of the last action. An event that
    /// answers nothing that the run asked for leaves the run as it is.
    pub fn handle(self, event: Event) -> (next: MediaImport)
        ensures
            next@ == self@.after(event),
            next@.wf(),
    {
        proof {
            use_type_invariant(&self);
            law_run_stays_well_formed(self@, event);
        }
        match event {
            Event::Scanned { entries } => match self.state {
                PipelineState::Scanning => self.begin(entries),
                _ => self,
            },
            Event::Times { created, modified } => match self.state {
                PipelineState::Relocating => if self.moving.is_none() {
                    self.date_current(created, modified)
                } else {
                    self
                },
                _ => self,
            },
            Event::Step { succeeded } => match self.state {
                PipelineState::Relocating => self.step_current(succeeded),
                _ => self,
            },
            Event::Fatal => match self.state {
                PipelineState::Scanning => self.give_up(),
                PipelineState::Relocating => self.give_up(),
                _ => self,
            },
        }
    }

    /// Takes what came of the last action, and gives the run after it with the
    /// next thing to have done.
    pub fn import(self, event: Event) -> (next: (MediaImport, Action))
        ensures
            next.0@ == self@.after(event),
            next.0@.wf(),
            next.1@ == next.0@.next_action(),
    {
        let run = self.handle(event);
        let action = run.next_action();
        (run, action)
    }
}

} // verus!
