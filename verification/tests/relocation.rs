use media_import::date::ImportDate;
use media_import::relocate::{
    begin_relocation, continue_relocation, plan_relocation, Relocation, RelocationError,
    RelocationStep,
};
use media_import::report::FailureKind;
use media_import::MediaCategory;

fn date(year: i32, month: u32, day: u32) -> ImportDate {
    ImportDate::new(year, month, day).unwrap()
}

fn relocate(succeeds: [bool; 3]) -> (Vec<RelocationStep>, Result<(), RelocationError>) {
    let mut taken = Vec::new();
    let mut step = begin_relocation();
    loop {
        let succeeded = match step {
            RelocationStep::CreateDirectory => succeeds[0],
            RelocationStep::CopyFile => succeeds[1],
            RelocationStep::RemoveSource => succeeds[2],
        };
        taken.push(step);
        match continue_relocation(step, succeeded) {
            Relocation::Next(next) => step = next,
            Relocation::Finished(result) => return (taken, result),
        }
    }
}

#[test]
fn destination_is_root_year_day_kind_name() {
    let plan = plan_relocation("/lib", MediaCategory::Image, &date(2021, 3, 5), "/in/photo.jpg");
    assert_eq!(plan.source, "/in/photo.jpg");
    assert_eq!(plan.directory, "/lib/2021/0305/Images");
    assert_eq!(plan.destination, "/lib/2021/0305/Images/photo.jpg");
}

#[test]
fn destination_folder_follows_the_kind() {
    let day = date(2019, 12, 31);
    let audio = plan_relocation("/lib", MediaCategory::Audio, &day, "a/track.mp3");
    let video = plan_relocation("/lib", MediaCategory::Video, &day, "clip.mov");
    assert_eq!(audio.destination, "/lib/2019/1231/Audio/track.mp3");
    assert_eq!(video.destination, "/lib/2019/1231/Videos/clip.mov");
}

#[test]
fn month_and_day_take_two_digits_each() {
    let plan = plan_relocation("/lib", MediaCategory::Image, &date(2021, 1, 2), "p.png");
    assert_eq!(plan.directory, "/lib/2021/0102/Images");
    let plan = plan_relocation("/lib", MediaCategory::Image, &date(2021, 10, 20), "p.png");
    assert_eq!(plan.directory, "/lib/2021/1020/Images");
}

#[test]
fn year_is_written_without_padding() {
    let plan = plan_relocation("/lib", MediaCategory::Image, &date(987, 6, 5), "p.png");
    assert_eq!(plan.directory, "/lib/987/0605/Images");
    let plan = plan_relocation("/lib", MediaCategory::Image, &date(0, 6, 5), "p.png");
    assert_eq!(plan.directory, "/lib/0/0605/Images");
    let plan = plan_relocation("/lib", MediaCategory::Image, &date(-44, 3, 15), "p.png");
    assert_eq!(plan.directory, "/lib/-44/0315/Images");
    let plan = plan_relocation("/lib", MediaCategory::Image, &date(262_142, 12, 31), "p.png");
    assert_eq!(plan.directory, "/lib/262142/1231/Images");
    let plan = plan_relocation("/lib", MediaCategory::Image, &date(i32::MIN, 1, 1), "p.png");
    assert_eq!(plan.directory, "/lib/-2147483648/0101/Images");
}

#[test]
fn root_with_a_separator_at_its_end_gets_no_second_one() {
    let plan = plan_relocation("/lib/", MediaCategory::Audio, &date(2021, 3, 5), "/in/a.wav");
    assert_eq!(plan.destination, "/lib/2021/0305/Audio/a.wav");
    let plan = plan_relocation("/", MediaCategory::Audio, &date(2021, 3, 5), "/in/a.wav");
    assert_eq!(plan.destination, "/2021/0305/Audio/a.wav");
}

#[test]
fn relative_and_empty_roots_give_relative_destinations() {
    let plan = plan_relocation("lib", MediaCategory::Audio, &date(2021, 3, 5), "a.wav");
    assert_eq!(plan.destination, "lib/2021/0305/Audio/a.wav");
    let plan = plan_relocation("", MediaCategory::Audio, &date(2021, 3, 5), "a.wav");
    assert_eq!(plan.destination, "2021/0305/Audio/a.wav");
}

#[test]
fn directory_is_the_same_for_every_file_of_a_kind_and_date() {
    let day = date(2021, 3, 5);
    let first = plan_relocation("/lib", MediaCategory::Image, &day, "/in/a.jpg");
    let second = plan_relocation("/lib", MediaCategory::Image, &day, "/elsewhere/b.png");
    let again = plan_relocation("/lib", MediaCategory::Image, &day, "/in/a.jpg");
    assert_eq!(first.directory, second.directory);
    assert_eq!(first, again);
}

#[test]
fn a_move_takes_three_steps_in_order() {
    let (taken, result) = relocate([true, true, true]);
    assert_eq!(
        taken,
        vec![RelocationStep::CreateDirectory, RelocationStep::CopyFile, RelocationStep::RemoveSource]
    );
    assert_eq!(result, Ok(()));
}

#[test]
fn a_failed_copy_leaves_the_source() {
    let (taken, result) = relocate([true, false, true]);
    assert_eq!(taken, vec![RelocationStep::CreateDirectory, RelocationStep::CopyFile]);
    assert_eq!(result, Err(RelocationError::CopyFailed));
}

#[test]
fn a_missing_directory_is_a_failed_copy() {
    let (taken, result) = relocate([false, true, true]);
    assert_eq!(taken, vec![RelocationStep::CreateDirectory]);
    assert_eq!(result, Err(RelocationError::CopyFailed));
}

#[test]
fn a_failed_removal_is_told_apart_from_a_failed_copy() {
    let (taken, result) = relocate([true, true, false]);
    assert_eq!(taken.len(), 3);
    assert_eq!(result, Err(RelocationError::SourceDeleteFailed));
    assert_ne!(result, Err(RelocationError::CopyFailed));
}

#[test]
fn each_step_has_its_follower() {
    assert_eq!(begin_relocation(), RelocationStep::CreateDirectory);
    assert_eq!(
        continue_relocation(RelocationStep::CreateDirectory, true),
        Relocation::Next(RelocationStep::CopyFile)
    );
    assert_eq!(
        continue_relocation(RelocationStep::CopyFile, true),
        Relocation::Next(RelocationStep::RemoveSource)
    );
    assert_eq!(continue_relocation(RelocationStep::RemoveSource, true), Relocation::Finished(Ok(())));
}

#[test]
fn failures_of_moves_keep_their_kind_in_the_report() {
    assert_eq!(FailureKind::of_relocation(RelocationError::CopyFailed), FailureKind::CopyFailed);
    assert_eq!(
        FailureKind::of_relocation(RelocationError::SourceDeleteFailed),
        FailureKind::SourceDeleteFailed
    );
}
