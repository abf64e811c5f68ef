use release_kit::page::{generate_html, track_row, PageInfo, PageTrack};

fn page() -> PageInfo {
    PageInfo {
        title: "Night & Day".to_string(),
        artist: "The <Band>".to_string(),
        release_date: "2025-11-15".to_string(),
        summary: "Ten \"songs\"".to_string(),
        tracks: vec![
            PageTrack { file: "audio/01 a&b.flac".to_string(), title: "Intro".to_string(), duration: Some(65) },
            PageTrack { file: "audio/02.flac".to_string(), title: "O'Brien".to_string(), duration: None },
        ],
    }
}

#[test]
fn track_rows() {
    let p = page();
    let row = track_row(0, &p.tracks[0], Some("https://cdn.example.com"));
    assert!(row.starts_with("<div class=\"track\" data-index=\"0\" data-src=\"https://cdn.example.com/audio/01 a&amp;b.flac\" data-title=\"Intro\">"));
    assert!(row.contains("<span class=\"track-number\">01</span>"));
    assert!(row.contains("<span class=\"track-duration\">1:05</span>"));
    let row = track_row(11, &p.tracks[1], None);
    assert!(row.contains("data-src=\"/audio/02.flac\""));
    assert!(row.contains("<span class=\"track-number\">12</span>"));
    assert!(row.contains("<span class=\"track-title\">O&#x27;Brien</span>"));
    assert!(row.contains("--:--"));
}

#[test]
fn built_page() {
    let html = generate_html(&page(), Some("cover.jpg"), false, None);
    assert!(html.starts_with("<!DOCTYPE html>"));
    assert!(html.contains("<title>Night &amp; Day - The &lt;Band&gt;</title>"));
    assert!(html.contains("<div class=\"release-date\">Release: 2025-11-15</div>"));
    assert!(html.contains("<div class=\"summary\">Ten &quot;songs&quot;</div>"));
    assert!(html.contains("<img src=\"/artwork/cover.jpg\" alt=\"Album cover\" class=\"cover-art\">"));
    assert!(html.contains("class=\"player-album-art\""));
    assert!(html.contains("<script src=\"/player.js\"></script>"));
    assert!(!html.contains("PREVIEW MODE"));
    assert!(!html.contains("EventSource"));
    assert!(html.contains("Generated by release-kit\n"));
}

#[test]
fn preview_page() {
    let html = generate_html(&page(), None, true, None);
    assert!(html.contains("PREVIEW MODE - Live Reload Active"));
    assert!(html.contains("new EventSource('/_reload')"));
    assert!(html.contains("<script src=\"/_player.js\"></script>"));
    assert!(html.contains("Press Ctrl+C to stop preview"));
    assert!(!html.contains("class=\"cover-art\""));
}
