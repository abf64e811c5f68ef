use release_kit::naming::{checked_project_name, derive_project_name};

#[test]
fn test_derive_project_name_basic() {
    assert_eq!(
        derive_project_name("Artist Name", "My Album"),
        "artist-name-my-album"
    );
}

#[test]
fn test_derive_project_name_special_chars() {
    assert_eq!(
        derive_project_name("DJ K!ool", "Beats & Bass"),
        "dj-kool-beats-bass"
    );
}

#[test]
fn test_derive_project_name_unicode() {
    assert_eq!(
        derive_project_name("Café Tacvba", "Ré Album"),
        "caf-tacvba-r-album"
    );
}

#[test]
fn test_derive_project_name_multiple_spaces() {
    assert_eq!(
        derive_project_name("The   Cool  Band", "Super    Album"),
        "the-cool-band-super-album"
    );
}

#[test]
fn test_derive_project_name_hyphens() {
    assert_eq!(derive_project_name("Jay-Z", "The-Album"), "jay-z-the-album");
}

#[test]
fn test_derive_project_name_numbers() {
    assert_eq!(
        derive_project_name("Blink 182", "Album 2023"),
        "blink-182-album-2023"
    );
}

#[test]
fn test_derive_project_name_all_special_chars() {
    assert_eq!(derive_project_name("!!!", "???"), "-");
}

#[test]
fn test_derive_project_name_empty_strings() {
    assert_eq!(derive_project_name("", ""), "-");
}

#[test]
fn derive_project_name_is_repeatable() {
    let a = derive_project_name("Some Artist", "Some Album");
    let b = derive_project_name("Some Artist", "Some Album");
    assert_eq!(a, b);
}

#[test]
fn derive_project_name_output_shape() {
    let inputs = [
        ("  __Lead--Trail__  ", "--x--"),
        ("A_B-C D", "E\tF\nG"),
        ("ÀÉÎ Band", "Tour 2024!"),
    ];
    for (artist, album) in inputs {
        let name = derive_project_name(artist, album);
        assert!(!name.starts_with('-'), "{}", name);
        assert!(!name.ends_with('-'), "{}", name);
        assert!(!name.contains("--"), "{}", name);
        assert!(name
            .chars()
            .all(|c| c.is_ascii_lowercase() || c.is_ascii_digit() || c == '-'));
    }
}

#[test]
fn derive_project_name_underscores_and_tabs_separate_words() {
    assert_eq!(derive_project_name("a_b", "c\td"), "a-b-c-d");
}

#[test]
fn derive_project_name_one_empty_half_is_left_out() {
    assert_eq!(derive_project_name("!!!", "Album"), "album");
    assert_eq!(derive_project_name("Rock Band", "???"), "rock-band");
}

#[test]
fn checked_project_name_refuses_the_lone_separator() {
    assert_eq!(checked_project_name("!!!", "???"), None);
    assert_eq!(checked_project_name("Jay-Z", "The-Album").as_deref(), Some("jay-z-the-album"));
}
