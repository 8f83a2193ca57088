use media_import::classify::{classify, classify_by_type, classify_media};
use media_import::mime_type::{category_of, MediaType};
use media_import::MediaCategory;

#[test]
fn content_decides_whatever_the_extension() {
    assert_eq!(classify(true, Some("image/png"), "/in/photo.mp3"), Some(MediaCategory::Image));
    assert_eq!(classify(true, Some("video/mp4"), "/in/clip.wav"), Some(MediaCategory::Video));
    assert_eq!(classify(true, Some("audio/mpeg"), "/in/song.jpg"), Some(MediaCategory::Audio));
    assert_eq!(classify(true, Some("image/jpeg"), "/in/no_extension"), Some(MediaCategory::Image));
}

#[test]
fn content_type_is_read_without_regard_to_case_and_parameters() {
    assert_eq!(classify(true, Some("IMAGE/PNG"), "/in/a.bin"), Some(MediaCategory::Image));
    assert_eq!(classify(true, Some("Video/Mp4"), "/in/a.bin"), Some(MediaCategory::Video));
    assert_eq!(
        classify(true, Some("audio/ogg; codecs=opus"), "/in/a.bin"),
        Some(MediaCategory::Audio)
    );
}

#[test]
fn audio_extension_decides_where_content_is_inconclusive() {
    for name in ["track.mp3", "track.wav", "track.MP3", "track.WAV"] {
        assert_eq!(
            classify(true, Some("application/octet-stream"), name),
            Some(MediaCategory::Audio),
            "{}",
            name
        );
    }
}

#[test]
fn audio_extension_is_taken_in_any_case() {
    assert_eq!(classify(true, Some("text/plain"), "a/b/Track.Mp3"), Some(MediaCategory::Audio));
    assert_eq!(classify(true, Some("text/plain"), "a/b/Track.wAv"), Some(MediaCategory::Audio));
}

#[test]
fn unknown_content_and_extension_have_no_kind() {
    assert_eq!(classify(true, Some("application/octet-stream"), "/in/notes.txt"), None);
    assert_eq!(classify(true, Some("text/plain"), "/in/mp3"), None);
    assert_eq!(classify(true, Some("application/pdf"), "/in/a.mp4"), None);
    assert_eq!(classify(true, Some("application/pdf"), "/in/a.mp33"), None);
    assert_eq!(classify(true, Some("application/pdf"), "/in/a.mp"), None);
    assert_eq!(classify(true, Some("application/pdf"), "/in/a.jpg"), None);
}

#[test]
fn a_name_that_is_only_an_extension_has_none() {
    assert_eq!(classify(true, Some("application/octet-stream"), "/in/.mp3"), None);
    assert_eq!(classify(true, Some("application/octet-stream"), "/in/.x.mp3"), Some(MediaCategory::Audio));
}

#[test]
fn the_extension_is_that_of_the_file_name_only() {
    assert_eq!(classify(true, Some("application/octet-stream"), "/in/album.mp3/cover"), None);
}

#[test]
fn a_text_that_is_no_mime_type_is_inconclusive() {
    assert_eq!(classify(true, Some("no mime type"), "/in/track.mp3"), Some(MediaCategory::Audio));
    assert_eq!(classify(true, Some("no mime type"), "/in/track.txt"), None);
    assert_eq!(classify(true, Some(""), "/in/track.wav"), Some(MediaCategory::Audio));
    assert_eq!(classify(true, Some("audio"), "/in/track.txt"), None);
}

#[test]
fn unreadable_content_has_no_kind() {
    assert_eq!(classify(true, None, "/in/track.mp3"), None);
    assert_eq!(classify(true, None, "/in/photo.jpg"), None);
}

#[test]
fn what_is_no_regular_file_has_no_kind() {
    assert_eq!(classify(false, Some("image/png"), "/in/photo.png"), None);
    assert_eq!(classify(false, Some("inode/directory"), "/in/music.mp3"), None);
}

#[test]
fn a_path_without_a_file_name_has_no_kind() {
    assert_eq!(classify(true, Some("image/png"), "/in/photos/"), None);
    assert_eq!(classify(true, Some("image/png"), ""), None);
}

#[test]
fn classify_by_type_takes_the_top_level_type() {
    assert_eq!(classify_by_type(Some("image"), "a.txt"), Some(MediaCategory::Image));
    assert_eq!(classify_by_type(Some("video"), "a.mp3"), Some(MediaCategory::Video));
    assert_eq!(classify_by_type(Some("audio"), "a"), Some(MediaCategory::Audio));
    assert_eq!(classify_by_type(Some("application"), "a.wav"), Some(MediaCategory::Audio));
    assert_eq!(classify_by_type(Some("application"), "a.txt"), None);
    assert_eq!(classify_by_type(None, "a.MP3"), Some(MediaCategory::Audio));
    assert_eq!(classify_by_type(None, "a.ogg"), None);
    assert_eq!(classify_by_type(Some("Image"), "a.txt"), None);
}

#[test]
fn classify_media_reads_the_type_of_a_parsed_mime() {
    let png = MediaType::parse("image/png").unwrap();
    let upper = MediaType::parse("VIDEO/MP4").unwrap();
    let text = MediaType::parse("text/plain").unwrap();
    assert_eq!(classify_media(true, &png, "/in/a.mp3"), Some(MediaCategory::Image));
    assert_eq!(classify_media(true, &upper, "/in/a"), Some(MediaCategory::Video));
    assert_eq!(classify_media(true, &text, "/in/a.wav"), Some(MediaCategory::Audio));
    assert_eq!(classify_media(true, &text, "/in/a.txt"), None);
    assert_eq!(classify_media(false, &png, "/in/a.png"), None);
    assert_eq!(classify_media(true, &png, "/in/"), None);
}

fn top_level(text: &str) -> Option<String> {
    MediaType::parse(text).map(|m| m.top_level().clone())
}

#[test]
fn top_level_type_of_a_text() {
    assert_eq!(top_level("image/svg+xml"), Some("image".to_string()));
    assert_eq!(top_level("Application/JSON; charset=utf-8"), Some("application".to_string()));
    assert_eq!(top_level("X-Custom.Type/a/b"), None);
    assert_eq!(top_level("vIdEo/x-msvideo;a=\"B/c\""), Some("video".to_string()));
    assert_eq!(top_level("*/*"), Some("*".to_string()));
    assert_eq!(top_level("image"), None);
    assert_eq!(top_level("/png"), None);
    assert_eq!(top_level("ima ge/png"), None);
    assert_eq!(top_level("image/"), Some("image".to_string()));
    assert_eq!(top_level("bild/größe"), None);
}

#[test]
fn top_level_type_agrees_with_the_mime_crate() {
    for text in ["image/png", "AUDIO/mpeg", "text/plain; charset=UTF-8", "a/b+c", "x", ""] {
        let by_crate = text.parse::<mime::Mime>().ok().map(|m| m.type_().to_string());
        assert_eq!(top_level(text), by_crate, "{}", text);
    }
}

#[test]
fn media_type_tells_its_category() {
    assert_eq!(MediaType::parse("audio/flac").unwrap().category(), Some(MediaCategory::Audio));
    assert_eq!(MediaType::parse("Image/GIF").unwrap().category(), Some(MediaCategory::Image));
    assert_eq!(MediaType::parse("video/webm").unwrap().category(), Some(MediaCategory::Video));
    assert_eq!(MediaType::parse("font/woff").unwrap().category(), None);
}

#[test]
fn category_of_a_top_level_type() {
    assert_eq!(category_of("audio"), Some(MediaCategory::Audio));
    assert_eq!(category_of("image"), Some(MediaCategory::Image));
    assert_eq!(category_of("video"), Some(MediaCategory::Video));
    assert_eq!(category_of("text"), None);
    assert_eq!(category_of("audi"), None);
    assert_eq!(category_of("audios"), None);
    assert_eq!(category_of(""), None);
}

#[test]
fn folder_names_of_the_kinds() {
    assert_eq!(MediaCategory::Audio.folder_name(), "Audio");
    assert_eq!(MediaCategory::Image.folder_name(), "Images");
    assert_eq!(MediaCategory::Video.folder_name(), "Videos");
}
