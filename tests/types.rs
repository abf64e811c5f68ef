use release_kit::types::{format_duration, slug_from_lowercase, Track};

fn track(file: &str, title: &str) -> Track {
    Track { file: file.to_string(), title: title.to_string(), duration: None, liner_notes: None }
}

#[test]
fn track_file_name() {
    assert_eq!(track("audio/01-intro.flac", "x").file_name(), "01-intro.flac");
    assert_eq!(track("audio/sub/", "x").file_name(), "sub");
    assert_eq!(track("audio/..", "x").file_name(), "unknown");
    assert_eq!(track("", "x").file_name(), "unknown");
}

#[test]
fn track_slug() {
    assert_eq!(track("a", "Hello World").slug(), "hello-world");
    assert_eq!(track("a", "Ça Va? Oui!").slug(), "ça-va-oui");
    assert_eq!(track("a", "A  B").slug(), "a--b");
    assert_eq!(slug_from_lowercase("x\ty_z"), "x-yz");
}

#[test]
fn optional_durations() {
    assert_eq!(format_duration(Some(323)), "5:23");
    assert_eq!(format_duration(None), "?:??");
}
