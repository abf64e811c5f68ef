use release_kit::config::{parse_duration, validate_path, Error};

#[test]
fn test_parse_duration() {
    assert_eq!(parse_duration("5:23").unwrap(), 323);
    assert_eq!(parse_duration("0:45").unwrap(), 45);
    assert_eq!(parse_duration("12:00").unwrap(), 720);
    assert!(parse_duration("5:60").is_err());
    assert!(parse_duration("invalid").is_err());
}

#[test]
fn test_validate_path_valid_relative() {
    assert!(validate_path("audio/track.flac", "file").is_ok());
    assert!(validate_path("notes/album.md", "liner_notes").is_ok());
    assert!(validate_path("artwork/cover.jpg", "cover").is_ok());
    assert!(validate_path("subdir/nested/file.txt", "file").is_ok());
}

#[test]
fn test_validate_path_rejects_absolute_unix() {
    let result = validate_path("/etc/passwd", "file");
    assert!(result.is_err());
    assert!(result
        .unwrap_err()
        .to_string()
        .contains("Absolute paths not allowed"));

    let result = validate_path("/root/.ssh/id_rsa", "file");
    assert!(result.is_err());
}

#[test]
fn test_validate_path_rejects_absolute_windows() {
    let result = validate_path("C:\\Windows\\System32", "file");
    assert!(result.is_err());
    assert!(result
        .unwrap_err()
        .to_string()
        .contains("Absolute paths not allowed"));
}

#[test]
fn test_validate_path_rejects_parent_dir() {
    let result = validate_path("../etc/passwd", "file");
    assert!(result.is_err());
    assert!(result
        .unwrap_err()
        .to_string()
        .contains("Parent directory references"));

    let result = validate_path("../../secret.txt", "file");
    assert!(result.is_err());

    let result = validate_path("audio/../../../etc/passwd", "file");
    assert!(result.is_err());

    let result = validate_path("foo/bar/../../../baz", "file");
    assert!(result.is_err());
}

#[test]
fn test_validate_path_rejects_empty() {
    let result = validate_path("", "file");
    assert!(result.is_err());
    assert!(result.unwrap_err().to_string().contains("Empty path"));

    let result = validate_path("   ", "file");
    assert!(result.is_err());
}

#[test]
fn test_validate_path_field_name_in_error() {
    let result = validate_path("/etc/passwd", "track.file");
    assert!(result.is_err());
    assert!(result.unwrap_err().to_string().contains("track.file"));

    let result = validate_path("../secret", "album.liner_notes");
    assert!(result.is_err());
    assert!(result
        .unwrap_err()
        .to_string()
        .contains("album.liner_notes"));
}

#[test]
fn test_parse_duration_edge_cases() {
    assert_eq!(parse_duration("0:00").unwrap(), 0);
    assert_eq!(parse_duration("0:01").unwrap(), 1);
    assert_eq!(parse_duration("0:59").unwrap(), 59);
    assert_eq!(parse_duration("999:59").unwrap(), 59999);

    assert!(parse_duration("60").is_err());
    assert!(parse_duration("5:").is_err());
    assert!(parse_duration(":30").is_err());
    assert!(parse_duration("5:60").is_err());
    assert!(parse_duration("5:99").is_err());
    assert!(parse_duration("-5:30").is_err());
    assert!(parse_duration("5:-30").is_err());
    assert!(parse_duration("5:30:00").is_err());
    assert!(parse_duration("abc:def").is_err());
    assert!(parse_duration("").is_err());
    assert!(parse_duration("5.5:30").is_err());
}

#[test]
fn test_validate_path_complex_traversal_attempts() {
    let malicious_paths = vec![
        "audio/../../etc/passwd",
        "./../../secret.txt",
        "audio/./../../../root/.ssh/id_rsa",
        "foo/bar/../../../../../../etc/shadow",
        "..",
        "../",
        "../../",
    ];

    for path in malicious_paths {
        let result = validate_path(path, "test_field");
        assert!(
            result.is_err(),
            "Expected error for path traversal attempt: {}",
            path
        );
        let err_msg = result.unwrap_err().to_string();
        assert!(
            err_msg.contains("Parent directory") || err_msg.contains("Empty path"),
            "Error message should mention parent directory or empty path for: {}. Got: {}",
            path,
            err_msg
        );
    }
}

#[test]
fn test_validate_path_with_special_characters() {
    assert!(validate_path("audio/track-01.flac", "file").is_ok());
    assert!(validate_path("audio/track_01.flac", "file").is_ok());
    assert!(validate_path("audio/track (1).flac", "file").is_ok());
    assert!(validate_path("artwork/cover [300dpi].jpg", "file").is_ok());
    assert!(validate_path("notes/liner-notes.md", "file").is_ok());

    assert!(validate_path("audio/トラック01.flac", "file").is_ok());
    assert!(validate_path("audio/piste_numéro_1.flac", "file").is_ok());
}

#[test]
fn validate_path_keeps_the_path() {
    assert_eq!(validate_path("audio/a.flac", "file").unwrap(), "audio/a.flac");
}

#[test]
fn validate_path_dots_inside_names_are_fine() {
    assert!(validate_path("audio/..hidden/x..y", "file").is_ok());
    assert!(validate_path("audio\\..\\x", "file").is_err());
}

#[test]
fn parse_duration_plus_sign_and_overflow() {
    assert_eq!(parse_duration("+1:+02").unwrap(), 62);
    assert!(parse_duration("18446744073709551615:00").is_err());
    assert!(parse_duration("307445734561825860:15").is_ok());
    assert!(parse_duration("307445734561825860:16").is_err());
}

#[test]
fn error_messages_carry_their_kind() {
    assert_eq!(
        Error::IoError("gone".to_string()).to_string(),
        "IO error: gone"
    );
    assert_eq!(
        Error::InvalidData("bad".to_string()).to_string(),
        "Invalid data: bad"
    );
    assert_eq!(
        Error::ConfigParse("x".to_string()).to_string(),
        "Configuration parse error: x"
    );
}
