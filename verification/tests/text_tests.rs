use music_player::text::{file_uri, format_time, has_music_extension};

#[test]
fn format_zero() {
    assert_eq!(format_time(0), "0:00");
}

#[test]
fn format_seconds_are_padded() {
    assert_eq!(format_time(5_000), "0:05");
    assert_eq!(format_time(59_999), "0:59");
}

#[test]
fn format_minutes() {
    assert_eq!(format_time(61_000), "1:01");
    assert_eq!(format_time(600_000), "10:00");
    assert_eq!(format_time(3_599_000), "59:59");
}

#[test]
fn format_hours() {
    assert_eq!(format_time(3_600_000), "1:00:00");
    assert_eq!(format_time(3_661_000), "1:01:01");
    assert_eq!(format_time(36_000_000), "10:00:00");
}

#[test]
fn uri_prefixes_plain_path() {
    assert_eq!(file_uri("/home/me/song.mp3"), "file:///home/me/song.mp3");
}

#[test]
fn uri_escapes_spaces() {
    assert_eq!(
        file_uri("/music/my song.mp3"),
        "file:///music/my%20song.mp3"
    );
    assert_eq!(file_uri("a b c"), "file://a%20b%20c");
}

#[test]
fn uri_of_empty_path() {
    assert_eq!(file_uri(""), "file://");
}

#[test]
fn extension_matches_known_kinds() {
    assert!(has_music_extension("song.mp3"));
    assert!(has_music_extension("/a/b/song.flac"));
    assert!(has_music_extension("song.wav"));
    assert!(has_music_extension("song.ogg"));
    assert!(has_music_extension("song.m4a"));
}

#[test]
fn extension_matching_ignores_case() {
    assert!(has_music_extension("song.MP3"));
    assert!(has_music_extension("song.FlAc"));
    assert!(has_music_extension("SONG.Ogg"));
}

#[test]
fn extension_rejects_other_kinds() {
    assert!(!has_music_extension("song.txt"));
    assert!(!has_music_extension("song"));
    assert!(!has_music_extension(""));
    assert!(!has_music_extension("song."));
    assert!(!has_music_extension("mp3"));
}

#[test]
fn extension_needs_a_file_stem() {
    assert!(!has_music_extension(".mp3"));
    assert!(!has_music_extension("/a/.mp3"));
}

#[test]
fn extension_belongs_to_last_component() {
    assert!(!has_music_extension("a.mp3/file"));
    assert!(has_music_extension("a.txt/file.mp3"));
}
