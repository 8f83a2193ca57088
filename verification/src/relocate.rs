//! Where a file goes in the library, and the steps that move it there.

use vstd::prelude::*;
use crate::category::{folder_name, MediaCategory};
use crate::calendar::CalendarDate;
use crate::date::ImportDate;
use crate::path::{
    as_directory,
    file_name,
    file_name_chars,
    has_file_name,
    join,
    lemma_file_name_has_no_separator,
    lemma_last_index_unique,
    push_separator,
};
use crate::text::{
    chars_of,
    push_signed_decimal,
    push_text,
    push_two_digits,
    signed_decimal,
    string_of,
    two_digits,
};

verus! {

/// The name of the folder of a day below that of its year: month and day in
/// two digits each.
pub open spec fn day_folder(date: CalendarDate) -> Seq<char> {
    two_digits(date.month) + two_digits(date.day)
}

/// The directory that takes the files of one kind and one date: below the root
/// of the library the year, below it the day, below it the kind.
pub open spec fn destination_directory(
    target_root: Seq<char>,
    category: MediaCategory,
    date: CalendarDate,
) -> Seq<char> {
    join(join(join(target_root, signed_decimal(date.year)), day_folder(date)), folder_name(category))
}

/// The path that a file is moved to: its own name in the directory of its kind
/// and date.
pub open spec fn destination(
    target_root: Seq<char>,
    category: MediaCategory,
    date: CalendarDate,
    file_path: Seq<char>,
) -> Seq<char> {
    join(destination_directory(target_root, category, date), file_name(file_path))
}

/// A file keeps its name when it is moved, and lies in the directory of its
/// kind and date, not below it.
pub proof fn law_moved_file_keeps_its_name(
    target_root: Seq<char>,
    category: MediaCategory,
    date: CalendarDate,
    file_path: Seq<char>,
)
    requires
        has_file_name(file_path),
    ensures
        file_name(destination(target_root, category, date, file_path)) == file_name(file_path),
        destination(target_root, category, date, file_path) == destination_directory(
            target_root,
            category,
            date,
        ) + seq!['/'] + file_name(file_path),
{
    let directory = destination_directory(target_root, category, date);
    let name = file_name(file_path);
    let moved = destination(target_root, category, date, file_path);
    assert(directory.len() > 0 && directory.last() != '/') by {
        let folder = folder_name(category);
        assert(folder.len() > 0 && folder.last() != '/');
        assert(directory.last() == folder.last());
    }
    assert(as_directory(directory) == directory.push('/'));
    assert(moved =~= directory + seq!['/'] + name);
    lemma_file_name_has_no_separator(file_path);
    assert forall|j: int| directory.len() < j < moved.len() implies moved[j] != '/' by {
        assert(moved[j] == name[j - directory.len() - 1]);
    }
    lemma_last_index_unique(moved, '/', directory.len() as int);
    assert(file_name(moved) =~= name);
}

/// What moving one file takes: the file, the directory that must exist, and
/// the path that the file is copied to.
#[derive(Debug, PartialEq, Eq)]
pub struct RelocationPlan {
    pub source: String,
    pub directory: String,
    pub destination: String,
}

/// Where a file of a kind and a date goes below the root of the library.
/// Nothing is said of a path that ends in no file name: no file has one.
pub fn plan_relocation(
    target_root: &str,
    category: MediaCategory,
    date: &ImportDate,
    file_path: &str,
) -> (plan: RelocationPlan)
    requires
        has_file_name(file_path@),
    ensures
        plan.source@ == file_path@,
        plan.directory@ == destination_directory(target_root@, category, date@),
        plan.destination@ == destination(target_root@, category, date@, file_path@),
{
    let mut path = chars_of(target_root);
    push_separator(&mut path);
    push_signed_decimal(&mut path, date.year());
    push_separator(&mut path);
    push_two_digits(&mut path, date.month());
    push_two_digits(&mut path, date.day());
    assert(path@ == join(join(target_root@, signed_decimal(date@.year)), day_folder(date@)));
    push_separator(&mut path);
    let folder = chars_of(category.folder_name());
    push_text(&mut path, &folder);
    let directory = string_of(&path);
    push_separator(&mut path);
    let source = chars_of(file_path);
    let name = file_name_chars(&source);
    push_text(&mut path, &name);
    RelocationPlan { source: string_of(&source), directory, destination: string_of(&path) }
}

/// One step of moving a file. A file is copied and its source removed, never
/// renamed: source and library may lie on different volumes.
#[derive(Clone, Copy, Debug, PartialEq, Eq, Structural)]
pub enum RelocationStep {
    /// Create the destination directory and those above it, where they are missing.
    CreateDirectory,
    /// Copy the file to its destination, over a file of that name if there is one.
    CopyFile,
    /// Remove the source.
    RemoveSource,
}

/// Why a file could not be moved.
#[derive(Clone, Copy, Debug, PartialEq, Eq, Structural)]
pub enum RelocationError {
    /// The file was not copied: the source is as it was.
    CopyFailed,
    /// The file was copied but its source could not be removed: it now exists twice.
    SourceDeleteFailed,
}

/// How far the move of a file has come.
#[derive(Clone, Copy, Debug, PartialEq, Eq)]
pub enum Relocation {
    /// The step to take next.
    Next(RelocationStep),
    /// The move has ended, well or not.
    Finished(Result<(), RelocationError>),
}

/// The step that a move begins with.
pub open spec fn first_step() -> RelocationStep {
    RelocationStep::CreateDirectory
}

/// What follows a step, given whether it succeeded. The source is removed only
/// once the copy is made; a failure ends the move.
pub open spec fn after_step(step: RelocationStep, succeeded: bool) -> Relocation {
    match step {
        RelocationStep::CreateDirectory => if succeeded {
            Relocation::Next(RelocationStep::CopyFile)
        } else {
            Relocation::Finished(Err(RelocationError::CopyFailed))
        },
        RelocationStep::CopyFile => if succeeded {
            Relocation::Next(RelocationStep::RemoveSource)
        } else {
            Relocation::Finished(Err(RelocationError::CopyFailed))
        },
        RelocationStep::RemoveSource => if succeeded {
            Relocation::Finished(Ok(()))
        } else {
            Relocation::Finished(Err(RelocationError::SourceDeleteFailed))
        },
    }
}

/// The step that a move begins with.
pub fn begin_relocation() -> (step: RelocationStep)
    ensures
        step == first_step(),
{
    RelocationStep::CreateDirectory
}

/// What follows a step, given whether it succeeded.
pub fn continue_relocation(step: RelocationStep, succeeded: bool) -> (progress: Relocation)
    ensures
        progress == after_step(step, succeeded),
{
    match step {
        RelocationStep::CreateDirectory => if succeeded {
            Relocation::Next(RelocationStep::CopyFile)
        } else {
            Relocation::Finished(Err(RelocationError::CopyFailed))
        },
        RelocationStep::CopyFile => if succeeded {
            Relocation::Next(RelocationStep::RemoveSource)
        } else {
            Relocation::Finished(Err(RelocationError::CopyFailed))
        },
        RelocationStep::RemoveSource => if succeeded {
            Relocation::Finished(Ok(()))
        } else {
            Relocation::Finished(Err(RelocationError::SourceDeleteFailed))
        },
    }
}

/// How a move stands after a number of steps were tried, where `succeeds`
/// says of each step whether it succeeds when tried.
pub open spec fn progress_after(tried: nat, succeeds: spec_fn(RelocationStep) -> bool) -> Relocation
    decreases tried,
{
    if tried == 0 {
        Relocation::Next(first_step())
    } else {
        match progress_after((tried - 1) as nat, succeeds) {
            Relocation::Next(step) => after_step(step, succeeds(step)),
            Relocation::Finished(result) => Relocation::Finished(result),
        }
    }
}

/// How a move ends: after three steps at most.
pub open spec fn relocation_result(succeeds: spec_fn(RelocationStep) -> bool) -> Result<
    (),
    RelocationError,
> {
    match progress_after(3, succeeds) {
        Relocation::Finished(result) => result,
        Relocation::Next(_) => Ok(()),
    }
}

/// Whether a step is tried at all in the course of a move.
pub open spec fn is_tried(step: RelocationStep, succeeds: spec_fn(RelocationStep) -> bool) -> bool {
    exists|tried: nat| progress_after(tried, succeeds) == Relocation::Next(step)
}

/// How every move goes.
/// It ends after three steps. It ends well if and only if all three steps
/// succeed. The source is removed only after the directory was made and the
/// copy succeeded, so a failed copy leaves the source as it was. A copy that
/// succeeded and a removal that failed give `SourceDeleteFailed`, and nothing
/// else gives it: both files then exist.
pub proof fn law_relocation(succeeds: spec_fn(RelocationStep) -> bool)
    ensures
        progress_after(3, succeeds) is Finished,
        relocation_result(succeeds) is Ok <==> succeeds(RelocationStep::CreateDirectory)
            && succeeds(RelocationStep::CopyFile) && succeeds(RelocationStep::RemoveSource),
        is_tried(RelocationStep::RemoveSource, succeeds) <==> succeeds(
            RelocationStep::CreateDirectory,
        ) && succeeds(RelocationStep::CopyFile),
        relocation_result(succeeds) == Err::<(), RelocationError>(
            RelocationError::SourceDeleteFailed,
        ) <==> succeeds(RelocationStep::CreateDirectory) && succeeds(RelocationStep::CopyFile)
            && !succeeds(RelocationStep::RemoveSource),
        relocation_result(succeeds) == Err::<(), RelocationError>(RelocationError::CopyFailed)
            <==> !(succeeds(RelocationStep::CreateDirectory) && succeeds(RelocationStep::CopyFile)),
{
    reveal_with_fuel(progress_after, 4);
    if succeeds(RelocationStep::CreateDirectory) && succeeds(RelocationStep::CopyFile) {
        assert(progress_after(2, succeeds) == Relocation::Next(RelocationStep::RemoveSource));
    }
    if is_tried(RelocationStep::RemoveSource, succeeds) {
        let tried = choose|tried: nat|
            progress_after(tried, succeeds) == Relocation::Next(RelocationStep::RemoveSource);
        lemma_finished_stays(3, tried, succeeds);
        assert(tried < 3);
    }
}

/// A move that has ended stays as it ended.
pub proof fn lemma_finished_stays(
    earlier: nat,
    later: nat,
    succeeds: spec_fn(RelocationStep) -> bool,
)
    requires
        progress_after(earlier, succeeds) is Finished,
    ensures
        earlier <= later ==> progress_after(later, succeeds) == progress_after(earlier, succeeds),
    decreases later,
{
    if earlier < later {
        lemma_finished_stays(earlier, (later - 1) as nat, succeeds);
    }
}

} // verus!
