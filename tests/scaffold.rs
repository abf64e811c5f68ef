use release_kit::scaffold::{is_valid_email, toml_escape_string};

#[test]
fn test_toml_escape_string() {
    assert_eq!(toml_escape_string(r#"Test "Quote""#), r#"Test \"Quote\""#);
    assert_eq!(toml_escape_string(r"Test\Back"), r"Test\\Back");
    assert_eq!(toml_escape_string("Test\nNewline"), r"Test\nNewline");
    assert_eq!(
        toml_escape_string(r#"Test "Quote" and\Back"#),
        r#"Test \"Quote\" and\\Back"#
    );
    assert_eq!(toml_escape_string("Normal String"), "Normal String");
}

#[test]
fn test_is_valid_email() {
    assert!(is_valid_email("user@example.com"));
    assert!(is_valid_email("test.user@domain.co.uk"));
    assert!(is_valid_email("name+tag@example.org"));

    assert!(!is_valid_email("user"));
    assert!(!is_valid_email(""));

    assert!(!is_valid_email("user@@example.com"));
    assert!(!is_valid_email("user@name@example.com"));

    assert!(!is_valid_email("@example.com"));
    assert!(!is_valid_email("user@"));

    assert!(!is_valid_email("user@domain"));
    assert!(!is_valid_email("user@.com"));
    assert!(!is_valid_email("user@domain."));
    assert!(!is_valid_email("user@domain.c"));
    assert!(!is_valid_email("user@domain..com"));

    let long_local = "a".repeat(65);
    assert!(!is_valid_email(&format!("{}@example.com", long_local)));
}

#[test]
fn toml_escape_control_characters() {
    assert_eq!(toml_escape_string("a\tb\rc\u{8}d\u{c}"), "a\\tb\\rc\\bd\\f");
}

#[test]
fn email_length_limits_count_bytes() {
    assert!(is_valid_email(&format!("{}@example.com", "a".repeat(64))));
    assert!(!is_valid_email(&format!("{}@example.com", "é".repeat(33))));
    assert!(is_valid_email("me@x.éé"));
    assert!(!is_valid_email("me@-x.com"));
}

use release_kit::scaffold::extract_track_title;

#[test]
fn test_extract_track_title_basic() {
    assert_eq!(extract_track_title("01-infrastructure-hum.flac", 1), "Infrastructure Hum");
    assert_eq!(extract_track_title("02_resonant_decay.flac", 2), "Resonant Decay");
    assert_eq!(extract_track_title("03-some_track-name.wav", 3), "Some Track Name");
}

#[test]
fn test_extract_track_title_edge_cases() {
    assert_eq!(extract_track_title("01.flac", 1), "Track 1");
    assert_eq!(extract_track_title("track-01.flac", 1), "Track 1");
    assert_eq!(extract_track_title("ambient-soundscape.mp3", 5), "Ambient Soundscape");
    assert_eq!(extract_track_title("01.02-track-name.ogg", 1), "Name");
}

#[test]
fn test_extract_track_title_case_handling() {
    assert_eq!(extract_track_title("01-lowercase-track.flac", 1), "Lowercase Track");
    assert_eq!(extract_track_title("02-UPPERCASE-TRACK.flac", 2), "Uppercase Track");
    assert_eq!(extract_track_title("03-MiXeD-CaSe.flac", 3), "Mixed Case");
}

#[test]
fn extract_track_title_from_nested_paths() {
    assert_eq!(extract_track_title("/music/album/04 - ÉTÉ  chaud.flac", 4), "Été Chaud");
    assert_eq!(extract_track_title("/music/album/", 7), "Album");
    assert_eq!(extract_track_title("..", 9), "Track");
    assert_eq!(extract_track_title("tracktrack-ß.wav", 2), "SS");
}

use release_kit::scaffold::{album_toml_text, ScaffoldTrack};

#[test]
fn album_toml_with_placeholders() {
    let text = album_toml_text("2025-11-15", &Vec::new(), None, None, None).unwrap();
    assert!(text.starts_with("# Generated by release-kit init\n"));
    assert!(text.contains("[album]\ntitle = \"My Album\"  # TODO: Set album title\n"));
    assert!(text.contains("artist = \"Artist Name\"  # TODO: Set artist name\n"));
    assert!(text.contains("release_date = \"2025-11-15\"  # TODO: Set release date\n"));
    assert!(text.contains("rss_author_email = \"artist@example.com\"  # TODO: Set email\n"));
    assert!(text.contains("# Add tracks here as you add audio files"));
    for section in ["[artist]", "[site]", "[distribution]", "[hosting.cloudflare]", "[rss]"] {
        assert!(text.contains(section), "{}", section);
    }
    assert!(text.ends_with("[rss]\nenabled = true\n"));
}

#[test]
fn album_toml_with_names_and_tracks() {
    let tracks = vec![
        ScaffoldTrack {
            file_name: "01-first-track.flac".to_string(),
            title: "First \"Track\"".to_string(),
            duration: Some("5:23".to_string()),
        },
        ScaffoldTrack {
            file_name: "02-second.flac".to_string(),
            title: "Second".to_string(),
            duration: None,
        },
    ];
    let text = album_toml_text(
        "2025-01-02",
        &tracks,
        Some("Artist \"The Quote"),
        Some("Album\\Backslash"),
        Some("test@example.com"),
    )
    .unwrap();
    assert!(text.contains("title = \"Album\\\\Backslash\"\n"));
    assert!(text.contains("name = \"Artist \\\"The Quote\"\n"));
    assert!(text.contains("rss_author_email = \"test@example.com\"\n"));
    assert!(!text.contains("TODO: Set artist name"));
    assert!(text.contains(
        "[[track]]\nfile = \"audio/01-first-track.flac\"\ntitle = \"First \\\"Track\\\"\"\nduration = \"5:23\"  # Auto-detected\n"
    ));
    assert!(text.contains("[[track]]\nfile = \"audio/02-second.flac\"\ntitle = \"Second\"\n# liner_notes"));
}

#[test]
fn album_toml_refuses_a_bad_email() {
    let r = album_toml_text("2025-01-02", &Vec::new(), Some("Artist"), Some("Album"), Some("invalid-email"));
    assert_eq!(r.unwrap_err(), "Invalid email format: 'invalid-email'");
}
