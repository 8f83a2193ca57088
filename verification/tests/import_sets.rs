use media_import::mime_type::MediaType;
use media_import::scan::{scan, ScanEntry};
use media_import::{ImportSet, MediaCategory, UserConfig};

fn found(path: &str, is_regular_file: bool, sniffed: Option<&str>) -> ScanEntry {
    ScanEntry::Found {
        path: path.to_string(),
        is_regular_file,
        sniffed: sniffed.map(|s| s.to_string()),
    }
}

#[test]
fn a_new_set_is_empty() {
    let set = ImportSet::new();
    assert!(set.audio().is_empty());
    assert!(set.images().is_empty());
    assert!(set.videos().is_empty());
}

#[test]
fn an_added_path_is_in_the_bucket_of_its_kind_only() {
    let mut set = ImportSet::new();
    set.add("/in/a.jpg".to_string(), MediaCategory::Image);
    assert_eq!(set.images(), &vec!["/in/a.jpg".to_string()]);
    assert!(set.audio().is_empty());
    assert!(set.videos().is_empty());
    set.add("/in/b.mp3".to_string(), MediaCategory::Audio);
    set.add("/in/c.mp4".to_string(), MediaCategory::Video);
    assert_eq!(set.audio(), &vec!["/in/b.mp3".to_string()]);
    assert_eq!(set.images(), &vec!["/in/a.jpg".to_string()]);
    assert_eq!(set.videos(), &vec!["/in/c.mp4".to_string()]);
    for path in ["/in/a.jpg", "/in/b.mp3", "/in/c.mp4"] {
        let buckets = [set.audio(), set.images(), set.videos()];
        let holding = buckets.iter().filter(|b| b.iter().any(|p| p == path)).count();
        assert_eq!(holding, 1, "{}", path);
    }
}

#[test]
fn a_bucket_keeps_the_order_in_which_paths_were_added() {
    let mut set = ImportSet::new();
    set.add("z".to_string(), MediaCategory::Audio);
    set.add("a".to_string(), MediaCategory::Audio);
    set.add("m".to_string(), MediaCategory::Audio);
    assert_eq!(set.audio(), &vec!["z".to_string(), "a".to_string(), "m".to_string()]);
}

#[test]
fn category_members_gives_the_bucket_of_a_kind() {
    let mut set = ImportSet::new();
    set.add("a".to_string(), MediaCategory::Audio);
    set.add("i".to_string(), MediaCategory::Image);
    set.add("v".to_string(), MediaCategory::Video);
    assert_eq!(set.category_members(MediaCategory::Audio), &vec!["a".to_string()]);
    assert_eq!(set.category_members(MediaCategory::Image), &vec!["i".to_string()]);
    assert_eq!(set.category_members(MediaCategory::Video), &vec!["v".to_string()]);
}

#[test]
fn add_media_adds_what_has_a_kind() {
    let mut set = ImportSet::new();
    let png = MediaType::parse("image/png").unwrap();
    let mpeg = MediaType::parse("AUDIO/MPEG").unwrap();
    let mp4 = MediaType::parse("video/mp4").unwrap();
    let binary = MediaType::parse("application/octet-stream").unwrap();
    assert!(set.add_media("/in/a.png".to_string(), true, png));
    assert!(set.add_media("/in/b".to_string(), true, mpeg));
    assert!(set.add_media("/in/c.mp3".to_string(), true, mp4));
    assert!(set.add_media("/in/d.WAV".to_string(), true, binary));
    assert_eq!(set.images(), &vec!["/in/a.png".to_string()]);
    assert_eq!(set.audio(), &vec!["/in/b".to_string(), "/in/d.WAV".to_string()]);
    assert_eq!(set.videos(), &vec!["/in/c.mp3".to_string()]);
}

#[test]
fn add_media_leaves_out_what_has_no_kind() {
    let mut set = ImportSet::new();
    let text = MediaType::parse("text/plain").unwrap();
    let png = || MediaType::parse("image/png").unwrap();
    assert!(!set.add_media("/in/notes.txt".to_string(), true, text));
    assert!(!set.add_media("/in/photos".to_string(), false, png()));
    assert!(!set.add_media("/in/photos/".to_string(), true, png()));
    assert!(set.audio().is_empty());
    assert!(set.images().is_empty());
    assert!(set.videos().is_empty());
}

#[test]
fn scan_sorts_files_and_counts_the_rest() {
    let entries = vec![
        found("/in", false, None),
        found("/in/a.jpg", true, Some("image/jpeg")),
        ScanEntry::Unreadable,
        found("/in/b.txt", true, Some("text/plain")),
        found("/in/c.mp3", true, Some("application/octet-stream")),
        found("/in/d.mov", true, Some("video/quicktime")),
        found("/in/e.jpg", true, None),
        found("/in/sub", false, Some("inode/directory")),
        found("/in/sub/f.png", true, Some("image/png")),
        ScanEntry::Unreadable,
    ];
    let result = scan(&entries);
    assert_eq!(result.imports.audio(), &vec!["/in/c.mp3".to_string()]);
    assert_eq!(
        result.imports.images(),
        &vec!["/in/a.jpg".to_string(), "/in/sub/f.png".to_string()]
    );
    assert_eq!(result.imports.videos(), &vec!["/in/d.mov".to_string()]);
    assert_eq!(result.scanned, 6);
    assert_eq!(result.unclassified, 2);
    assert_eq!(result.unreadable, 2);
}

#[test]
fn scan_of_nothing_finds_nothing() {
    let result = scan(&Vec::new());
    assert!(result.imports.audio().is_empty());
    assert!(result.imports.images().is_empty());
    assert!(result.imports.videos().is_empty());
    assert_eq!((result.scanned, result.unclassified, result.unreadable), (0, 0, 0));
}

#[test]
fn scan_accounts_for_every_regular_file() {
    let entries = vec![
        found("/in/a.jpg", true, Some("image/jpeg")),
        found("/in/b", true, Some("application/zip")),
        found("/in/c.wav", true, Some("broken")),
        found("/in/d", false, Some("image/png")),
    ];
    let result = scan(&entries);
    let kept =
        result.imports.audio().len() + result.imports.images().len() + result.imports.videos().len();
    assert_eq!(result.scanned, result.unclassified + kept);
    assert_eq!(result.scanned, 3);
    assert_eq!(kept, 2);
}

#[test]
fn user_config_keeps_the_target_path() {
    let config = UserConfig::new("/home/me/library".to_string());
    assert_eq!(config.target_path(), "/home/me/library");
    assert_eq!(UserConfig::new(String::new()).target_path(), "");
}
