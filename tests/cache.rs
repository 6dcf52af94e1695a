use qobuz_player_controls::cache::{cache_path, guess_extension, sanitize_name};
use qobuz_player_controls::text::{decimal_text, mark_explicit_and_hifi, mseconds_to_mm_ss};
use qobuz_player_controls::track::{Track, TrackStatus};

fn track() -> Track {
    Track {
        id: 1,
        number: 3,
        title: "Song: Part 1?".to_string(),
        album_title: Some("Best / Of".to_string()),
        album_id: Some("xyz9".to_string()),
        artist_name: None,
        artist_id: Some(42),
        duration_seconds: 200,
        explicit: false,
        hires_available: false,
        available: true,
        image: None,
        status: TrackStatus::Unplayed,
    }
}

#[test]
fn sanitize_reserved_characters() {
    assert_eq!(sanitize_name("A/B: C?"), "A_B_C");
}

#[test]
fn sanitize_is_idempotent_on_examples() {
    for s in ["A/B: C?", "  ..hi.. ", "a__b", "x\u{7}y", "", "___", "long name"] {
        let once = sanitize_name(s);
        assert_eq!(sanitize_name(&once), once);
    }
}

#[test]
fn sanitize_keeps_alphanumeric_names() {
    assert_eq!(sanitize_name("Abc123"), "Abc123");
    assert_ne!(sanitize_name("AbcD"), sanitize_name("Abcd"));
}

#[test]
fn sanitize_empty_is_unknown() {
    assert_eq!(sanitize_name(""), "unknown");
    assert_eq!(sanitize_name(" . _ "), "unknown");
}

#[test]
fn sanitize_collapses_and_trims() {
    assert_eq!(sanitize_name("  a   b  "), "a_b");
    assert_eq!(sanitize_name("..x.."), "x");
    assert_eq!(sanitize_name("tab\there"), "tab_here");
}

#[test]
fn sanitize_caps_length() {
    let long: String = std::iter::repeat('a').take(250).collect();
    assert_eq!(sanitize_name(&long).chars().count(), 100);
}

#[test]
fn extension_from_mime() {
    assert_eq!(guess_extension("audio/mp4"), "mp4");
    assert_eq!(guess_extension("audio/mp3"), "mp3");
    assert_eq!(guess_extension("audio/flac"), "flac");
    assert_eq!(guess_extension("audio/ogg"), "unknown");
}

#[test]
fn cache_path_layout() {
    let e = cache_path(&track(), "audio/flac");
    assert_eq!(e.artist_dir, "unknown (42)");
    assert_eq!(e.album_dir, "Best_Of (xyz9)");
    assert_eq!(e.file_name(), "3_Song_Part_1.flac");
    assert_eq!(e.partial_file_name(), "3_Song_Part_1.partial");
    assert_eq!(cache_path(&track(), "audio/flac"), e);
}

#[test]
fn minutes_and_seconds() {
    assert_eq!(mseconds_to_mm_ss(0), "00:00");
    assert_eq!(mseconds_to_mm_ss(65_999), "01:05");
    assert_eq!(mseconds_to_mm_ss(6_000_000), "100:00");
}

#[test]
fn decimal_digits() {
    assert_eq!(decimal_text(0), "0");
    assert_eq!(decimal_text(1907), "1907");
}

#[test]
fn badges_on_titles() {
    assert_eq!(mark_explicit_and_hifi("T".to_string(), false, false), "T");
    assert_eq!(
        mark_explicit_and_hifi("T".to_string(), true, true),
        "T \u{1F174} \u{301C}"
    );
    assert_eq!(mark_explicit_and_hifi("T".to_string(), false, true), "T \u{301C}");
}
