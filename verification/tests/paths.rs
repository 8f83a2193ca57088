use media_import::path::{extension_of, file_name_of};
use media_import::text::{chars_of, same_text, string_of};

#[test]
fn file_name_is_the_part_after_the_last_separator() {
    assert_eq!(file_name_of("/in/2021/photo.jpg"), "photo.jpg");
    assert_eq!(file_name_of("photo.jpg"), "photo.jpg");
    assert_eq!(file_name_of("/photo"), "photo");
    assert_eq!(file_name_of("a/b/"), "");
    assert_eq!(file_name_of(""), "");
    assert_eq!(file_name_of("/"), "");
}

#[test]
fn file_name_keeps_characters_beyond_ascii() {
    assert_eq!(file_name_of("/bilder/größe/straße.jpg"), "straße.jpg");
    assert_eq!(file_name_of("写真/東京.png"), "東京.png");
}

#[test]
fn extension_is_the_part_after_the_last_dot_of_the_name() {
    assert_eq!(extension_of("/in/photo.jpg"), Some("jpg".to_string()));
    assert_eq!(extension_of("/in/archive.tar.gz"), Some("gz".to_string()));
    assert_eq!(extension_of("/in/photo."), Some("".to_string()));
    assert_eq!(extension_of("/in/photo"), None);
    assert_eq!(extension_of("/in/.hidden"), None);
    assert_eq!(extension_of("/in/.hidden.mp3"), Some("mp3".to_string()));
    assert_eq!(extension_of("/in.d/photo"), None);
    assert_eq!(extension_of("/in.d/"), None);
    assert_eq!(extension_of(""), None);
}

#[test]
fn characters_and_strings_convert_both_ways() {
    assert_eq!(chars_of("aß東"), vec!['a', 'ß', '東']);
    assert_eq!(chars_of(""), Vec::<char>::new());
    assert_eq!(string_of(&vec!['a', 'ß', '東']), "aß東");
    assert_eq!(string_of(&Vec::new()), "");
}

#[test]
fn same_text_compares_character_by_character() {
    assert!(same_text("audio", "audio"));
    assert!(same_text("", ""));
    assert!(!same_text("audio", "audi"));
    assert!(!same_text("audio", "audiO"));
    assert!(!same_text("", "a"));
}
