use release_kit::generator::generate_site;
use release_kit::validator::{check_metadata, contains_text, validate_album, MetadataFields};

fn fields(title: &str, email: &str, tracks: usize) -> MetadataFields {
    MetadataFields {
        title: title.to_string(),
        metadata_artist: "Real Artist".to_string(),
        artist_name: "Real Artist".to_string(),
        summary: "Songs".to_string(),
        rss_author_email: email.to_string(),
        site_domain: "album.band.net".to_string(),
        track_count: tracks,
    }
}

#[test]
fn placeholders_are_warned_about() {
    let mut report = validate_album();
    check_metadata(&fields("My Album", "artist@example.com", 0), &mut report);
    assert_eq!(
        report.warnings,
        vec![
            "Album title appears to be a placeholder".to_string(),
            "RSS author email is a placeholder - update for RSS feed".to_string(),
        ]
    );
    assert_eq!(report.errors, vec!["No tracks defined in album.toml".to_string()]);
}

#[test]
fn finished_metadata_passes() {
    let mut report = validate_album();
    check_metadata(&fields("Night Drive", "me@band.net", 3), &mut report);
    assert!(report.warnings.is_empty());
    assert!(report.errors.is_empty());
    assert!(report.info.is_empty());
}

#[test]
fn substring_search() {
    assert!(contains_text("abc TODO", "TODO"));
    assert!(contains_text("x", ""));
    assert!(!contains_text("TOD", "TODO"));
    assert!(contains_text("aab", "ab"));
}

#[test]
fn empty_generated_site() {
    let site = generate_site();
    assert!(site.pages.is_empty());
    assert!(site.assets.is_empty());
}

use release_kit::validator::{check_audio, AudioProbe};

#[test]
fn audio_findings() {
    let mut report = validate_album();
    check_audio(1, "Intro", "audio/01.flac", AudioProbe::Missing, None, &mut report);
    check_audio(2, "Two", "audio/02.flac", AudioProbe::CannotOpen("denied".into()), None, &mut report);
    check_audio(3, "Three", "audio/03.flac", AudioProbe::NotAudio("bad header".into()), None, &mut report);
    assert_eq!(
        report.errors,
        vec![
            "Track 1 audio file not found: audio/01.flac".to_string(),
            "Track 2 (audio/02.flac) cannot be opened: denied".to_string(),
            "Track 3 (audio/03.flac) is not a valid audio file: bad header".to_string(),
        ]
    );
    check_audio(4, "Blip", "audio/04.flac", AudioProbe::Seconds(0), Some(61), &mut report);
    check_audio(5, "Fine", "audio/05.flac", AudioProbe::Seconds(323), Some(323), &mut report);
    assert_eq!(
        report.warnings,
        vec![
            "Track 4 (Blip) is very short (0s) - is this correct?".to_string(),
            "Track 4 duration mismatch: config says 1:01, file is 0:00".to_string(),
        ]
    );
}
