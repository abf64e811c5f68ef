//! The album page: the HTML that lists the tracks and hosts the player.

use vstd::prelude::*;
use crate::template::{duration_text_of, format_duration, html_escape, html_escape_of};
use crate::text::{decimal_of, push_char, push_decimal};
use crate::types::{file_name_of, path_file_name};

verus! {

pub const PAGE_0: &'static str = r##"<!DOCTYPE html>
<html lang="en">
<head>
    <meta charset="UTF-8">
    <meta name="viewport" content="width=device-width, initial-scale=1.0">
    <title>"##;

pub const PAGE_1: &'static str = r##" - "##;

pub const PAGE_2: &'static str = r##"</title>
    <style>
        /* Theme - Metallic Analog Lab */
        :root {
            --primary: #00ff88;
            --primary-focus: #00cc66;
            --base-100: #1a1a1f;
            --base-200: #222228;
            --base-300: #2a2a30;
            --base-content: #e0e0e0;
            --secondary: #4a4a5e;
            --neutral: #2a2a3e;
        }

        * { margin: 0; padding: 0; box-sizing: border-box; }

        body {
            font-family: -apple-system, BlinkMacSystemFont, "Segoe UI", Roboto, sans-serif;
            line-height: 1.6;
            color: var(--base-content);
            background-color: var(--base-100);
            background-image:
                repeating-linear-gradient(
                    45deg,
                    transparent,
                    transparent 35px,
                    rgba(255, 255, 255, 0.01) 35px,
                    rgba(255, 255, 255, 0.01) 70px
                );
            padding: 2rem;
            padding-bottom: 200px; /* Space for player */
        }

        .container {
            max-width: 900px;
            margin: 0 auto;
            background: linear-gradient(135deg, var(--base-200) 0%, var(--base-100) 100%);
            padding: 2rem;
            border-radius: 8px;
            border: 1px solid rgba(255, 255, 255, 0.05);
            box-shadow:
                0 4px 6px rgba(0, 0, 0, 0.3),
                inset 0 1px 0 rgba(255, 255, 255, 0.05);
        }

        .preview-badge {
            background: linear-gradient(135deg, var(--primary-focus) 0%, #00aa55 100%);
            color: #000000;
            padding: 0.5rem 1rem;
            border-radius: 4px;
            display: inline-block;
            margin-bottom: 1.5rem;
            font-weight: bold;
            text-shadow: 0 1px 0 rgba(255, 255, 255, 0.2);
            box-shadow: 0 2px 8px rgba(0, 255, 136, 0.3);
        }

        .album-header {
            margin-bottom: 2rem;
            padding-bottom: 2rem;
            border-bottom: 2px solid rgba(255, 255, 255, 0.1);
            display: flex;
            gap: 2rem;
            align-items: flex-start;
        }

        .album-info {
            flex: 1;
        }

        .cover-art {
            width: 300px;
            height: 300px;
            object-fit: cover;
            border-radius: 4px;
            box-shadow: 0 8px 24px rgba(0, 0, 0, 0.4);
            border: 1px solid rgba(255, 255, 255, 0.1);
        }

        h1 {
            font-size: 2.5rem;
            margin-bottom: 0.5rem;
            color: var(--primary);
            text-shadow: 0 0 20px var(--primary);
        }

        .artist {
            font-size: 1.4rem;
            color: var(--base-content);
            margin-bottom: 0.5rem;
            opacity: 0.9;
        }

        .release-date {
            color: var(--base-content);
            opacity: 0.6;
            font-size: 0.9rem;
        }

        .summary {
            margin: 1rem 0;
            padding: 1rem;
            background: rgba(0, 0, 0, 0.3);
            border-left: 3px solid var(--primary);
            border-radius: 4px;
            line-height: 1.8;
        }

        .tracks {
            margin-top: 2rem;
        }

        .tracks h2 {
            font-size: 1.3rem;
            margin-bottom: 1rem;
            color: var(--primary);
            text-shadow: 0 0 10px var(--primary);
        }

        .track {
            display: grid;
            grid-template-columns: 3rem 1fr 5rem;
            gap: 1rem;
            align-items: center;
            padding: 1rem;
            border-bottom: 1px solid rgba(255, 255, 255, 0.05);
            cursor: pointer;
            transition: all 0.2s ease;
            border-radius: 4px;
        }

        .track:hover {
            background-color: rgba(0, 255, 136, 0.05);
            transform: translateX(4px);
        }

        .track.playing {
            background: linear-gradient(90deg, rgba(0, 255, 136, 0.1) 0%, transparent 100%);
            border-left: 3px solid var(--primary);
        }

        .track-number {
            color: var(--base-content);
            opacity: 0.5;
            font-weight: bold;
            font-size: 0.9rem;
        }

        .track.playing .track-number {
            color: var(--primary);
            opacity: 1;
        }

        .track-title {
            font-weight: 500;
            color: var(--base-content);
        }

        .track.playing .track-title {
            color: var(--primary);
        }

        .track-duration {
            color: var(--base-content);
            opacity: 0.5;
            font-size: 0.9rem;
            text-align: right;
        }

        /* Fixed Player at Bottom */
        .player {
            position: fixed;
            bottom: 0;
            left: 0;
            right: 0;
            background: linear-gradient(135deg, var(--base-200) 0%, var(--base-100) 100%);
            border-top: 2px solid rgba(0, 255, 136, 0.2);
            padding: 1rem;
            box-shadow:
                0 -4px 20px rgba(0, 0, 0, 0.5),
                inset 0 1px 0 rgba(255, 255, 255, 0.05);
            z-index: 1000;
        }

        .player-content {
            max-width: 1200px;
            margin: 0 auto;
            display: grid;
            grid-template-columns: auto 1fr;
            grid-template-rows: auto auto;
            gap: 0.5rem 1.5rem;
            align-items: center;
        }

        .player-album-art {
            grid-row: 1 / 3;
            width: 96px;
            height: 96px;
            object-fit: cover;
            border-radius: 4px;
            box-shadow: 0 4px 12px rgba(0, 0, 0, 0.4);
            border: 1px solid rgba(255, 255, 255, 0.1);
        }

        .player-right {
            grid-column: 2;
            display: flex;
            flex-direction: column;
            gap: 0.5rem;
        }

        .player-info-controls {
            display: flex;
            align-items: center;
            gap: 2rem;
        }

        .player-info {
            display: flex;
            flex-direction: column;
            gap: 0.25rem;
            flex: 1;
        }

        .player-track {
            font-size: 1rem;
            font-weight: 600;
            color: var(--primary);
        }

        .player-artist {
            font-size: 0.85rem;
            color: var(--base-content);
            opacity: 0.7;
        }

        .player-controls {
            display: flex;
            gap: 0.75rem;
            align-items: center;
        }

        .player-btn {
            background: linear-gradient(135deg, var(--secondary) 0%, var(--neutral) 100%);
            border: 1px solid rgba(255, 255, 255, 0.1);
            color: var(--base-content);
            width: 40px;
            height: 40px;
            border-radius: 50%;
            cursor: pointer;
            display: flex;
            align-items: center;
            justify-content: center;
            transition: all 0.2s ease;
            box-shadow:
                0 2px 4px rgba(0, 0, 0, 0.3),
                inset 0 1px 0 rgba(255, 255, 255, 0.05);
        }

        .player-btn:hover {
            box-shadow:
                0 4px 8px rgba(0, 255, 136, 0.2),
                0 2px 4px rgba(0, 0, 0, 0.4);
            transform: translateY(-2px);
        }

        .player-btn:active {
            transform: translateY(0);
            box-shadow: inset 0 2px 4px rgba(0, 0, 0, 0.4);
        }

        .player-btn.play {
            width: 50px;
            height: 50px;
            background: linear-gradient(135deg, var(--primary-focus) 0%, #00aa55 100%);
            color: #000000;
        }

        .player-progress {
            grid-column: 1 / -1;
            margin-top: 0.5rem;
        }

        .progress-bar {
            width: 100%;
            height: 6px;
            background: rgba(0, 0, 0, 0.3);
            border-radius: 3px;
            cursor: pointer;
            position: relative;
            overflow: hidden;
            border: 1px solid var(--secondary);
        }

        .progress-fill {
            height: 100%;
            background: linear-gradient(90deg, var(--primary) 0%, var(--primary-focus) 100%);
            width: 0%;
            transition: width 0.1s linear;
            box-shadow: 0 0 10px var(--primary);
        }

        .oscilloscope {
            width: 100%;
            max-width: 600px;
            height: 70px;
            background: rgba(0, 8, 5, 1);
            border-radius: 4px;
            border: 1px solid rgba(255, 255, 255, 0.1);
            box-shadow:
                inset 0 0 20px rgba(0, 255, 136, 0.1),
                0 2px 4px rgba(0, 0, 0, 0.3);
        }

        .footer {
            margin-top: 2rem;
            padding-top: 2rem;
            border-top: 2px solid rgba(255, 255, 255, 0.1);
            color: var(--base-content);
            opacity: 0.5;
            font-size: 0.9rem;
            text-align: center;
        }

        audio {
            display: none;
        }

        @media (max-width: 768px) {
            .album-header {
                flex-direction: column;
            }
            .cover-art {
                width: 100%;
                height: auto;
                max-width: 300px;
            }
            .player-content {
                grid-template-columns: auto 1fr;
                grid-template-rows: auto;
                gap: 0.75rem;
            }
            .player-album-art {
                grid-row: 1;
                width: 50px;
                height: 50px;
            }
            .oscilloscope {
                display: none;
            }
            .player-info-controls {
                flex-direction: column;
                align-items: flex-start;
                gap: 0.75rem;
            }
            .player-track {
                font-size: 0.9rem;
            }
            .player-artist {
                font-size: 0.75rem;
            }
        }
    </style>
</head>
<body>
    <div class="container">
        "##;

pub const PAGE_3: &'static str = r##"

        <div class="album-header">
            "##;

pub const PAGE_4: &'static str = r##"
            <div class="album-info">
                <h1>"##;

pub const PAGE_5: &'static str = r##"</h1>
                <div class="artist">by "##;

pub const PAGE_6: &'static str = r##"</div>
                <div class="release-date">Release: "##;

pub const PAGE_7: &'static str = r##"</div>
                <div class="summary">"##;

pub const PAGE_8: &'static str = r##"</div>
            </div>
        </div>

        <div class="tracks">
            <h2>Tracks</h2>
            <div id="track-list">
                "##;

pub const PAGE_9: &'static str = r##"
            </div>
        </div>

        <div class="footer">
            "##;

pub const PAGE_10: &'static str = r##"
        </div>
    </div>

    <!-- Fixed Player -->
    <div class="player">
        <div class="player-content">
            "##;

pub const PAGE_11: &'static str = r##"
            <div class="player-right">
                <canvas id="oscilloscope" class="oscilloscope" width="1200" height="140"></canvas>
                <div class="player-info-controls">
                    <div class="player-info">
                        <div class="player-track" id="player-track">Select a track</div>
                        <div class="player-artist" id="player-artist">"##;

pub const PAGE_12: &'static str = r##"</div>
                    </div>
                    <div class="player-controls">
                        <button class="player-btn" id="prev-btn">
                            <svg width="20" height="20" fill="currentColor" viewBox="0 0 20 20">
                                <path d="M14 4v12M12 6l-6 6 6 6V6z"/>
                            </svg>
                        </button>
                        <button class="player-btn play" id="play-btn">
                            <svg id="play-icon" width="24" height="24" fill="currentColor">
                                <path d="M8 5v14l11-7z"/>
                            </svg>
                            <svg id="pause-icon" width="24" height="24" fill="currentColor" style="display:none">
                                <path d="M6 4h4v16H6V4zm8 0h4v16h-4V4z"/>
                            </svg>
                        </button>
                        <button class="player-btn" id="next-btn">
                            <svg width="20" height="20" fill="currentColor">
                                <path d="M18 4v12M16 6l-6 6 6 6V6z" transform="scale(-1, 1) translate(-24, 0)"/>
                            </svg>
                        </button>
                    </div>
                </div>
            </div>
        </div>

        <div class="player-progress">
            <div class="progress-bar" id="progress-bar">
                <div class="progress-fill" id="progress-fill"></div>
            </div>
        </div>
    </div>

    <audio id="audio" preload="metadata"></audio>

    "##;

pub const PAGE_13: &'static str = r##"
    <script src=""##;

pub const PAGE_14: &'static str = r##""></script>
</body>
</html>"##;

pub const ROW_0: &'static str = r##"<div class="track" data-index=""##;

pub const ROW_1: &'static str = r##"" data-src=""##;

pub const ROW_2: &'static str = r##"" data-title=""##;

pub const ROW_3: &'static str = r##"">
                    <span class="track-number">"##;

pub const ROW_4: &'static str = r##"</span>
                    <span class="track-title">"##;

pub const ROW_5: &'static str = r##"</span>
                    <span class="track-duration">"##;

pub const ROW_6: &'static str = r##"</span>
                </div>"##;

pub const PREVIEW_BADGE: &'static str = r##"<div class="preview-badge">🚀 PREVIEW MODE - Live Reload Active</div>"##;

pub const RELOAD_SCRIPT: &'static str = r##"<script>
        // Hot reload via Server-Sent Events
        const eventSource = new EventSource('/_reload');
        eventSource.onmessage = () => {
            console.log('Reloading...');
            location.reload();
        };
        eventSource.onerror = () => {
            console.log('Preview server disconnected');
            eventSource.close();
        };
    </script>"##;

/// One track as the page shows it.
pub struct PageTrack {
    /// Path of the audio file; the page links to its file name.
    pub file: String,
    pub title: String,
    /// Length in seconds, when known.
    pub duration: Option<u64>,
}

/// What the page shows of an album.
pub struct PageInfo {
    pub title: String,
    pub artist: String,
    /// The release date as `YYYY-MM-DD`.
    pub release_date: String,
    pub summary: String,
    pub tracks: Vec<PageTrack>,
}

pub open spec fn esc(s: Seq<char>) -> Seq<char> {
    html_escape_of(s)
}

/// A number with at least two digits.
pub open spec fn two_digit_of(n: nat) -> Seq<char> {
    if n < 10 {
        seq!['0'] + decimal_of(n)
    } else {
        decimal_of(n)
    }
}

/// The file name of a track's path, empty when it has none.
pub open spec fn link_name_of(file: Seq<char>) -> Seq<char> {
    match file_name_of(file) {
        Some(n) => n,
        None => Seq::empty(),
    }
}

/// Where the page fetches a track's audio.
pub open spec fn audio_url_of(file_name: Seq<char>, base: Option<Seq<char>>) -> Seq<char> {
    match base {
        Some(b) => b + "/audio/"@ + esc(file_name),
        None => "/audio/"@ + esc(file_name),
    }
}

pub open spec fn duration_cell_of(d: Option<u64>) -> Seq<char> {
    match d {
        Some(s) => duration_text_of(s as nat),
        None => "--:--"@,
    }
}

/// The list entry of the track at position `i`.
pub open spec fn track_row_of(i: nat, t: PageTrack, base: Option<Seq<char>>) -> Seq<char> {
    ROW_0@ + decimal_of(i) + ROW_1@ + audio_url_of(link_name_of(t.file@), base) + ROW_2@ + esc(t.title@)
        + ROW_3@ + two_digit_of(i + 1) + ROW_4@ + esc(t.title@) + ROW_5@ + duration_cell_of(
        t.duration,
    ) + ROW_6@
}

/// The entries of all tracks, in order.
pub open spec fn tracks_html_of(ts: Seq<PageTrack>, base: Option<Seq<char>>) -> Seq<char>
    decreases ts.len(),
{
    if ts.len() == 0 {
        Seq::empty()
    } else {
        tracks_html_of(ts.drop_last(), base) + track_row_of((ts.len() - 1) as nat, ts.last(), base)
    }
}

pub open spec fn cover_html_of(cover: Option<Seq<char>>, class: Seq<char>) -> Seq<char> {
    match cover {
        Some(c) => "<img src=\"/artwork/"@ + esc(c) + "\" alt=\"Album cover\" class=\""@ + class
            + "\">"@,
        None => Seq::empty(),
    }
}

pub open spec fn badge_of(is_preview: bool) -> Seq<char> {
    if is_preview {
        PREVIEW_BADGE@
    } else {
        Seq::empty()
    }
}

pub open spec fn reload_of(is_preview: bool) -> Seq<char> {
    if is_preview {
        RELOAD_SCRIPT@
    } else {
        Seq::empty()
    }
}

pub open spec fn footer_of(is_preview: bool) -> Seq<char> {
    if is_preview {
        "Generated by release-kit • Press Ctrl+C to stop preview"@
    } else {
        "Generated by release-kit"@
    }
}

pub open spec fn script_of(is_preview: bool) -> Seq<char> {
    if is_preview {
        "/_player.js"@
    } else {
        "/player.js"@
    }
}

/// The whole page.
pub open spec fn page_of(
    p: PageInfo,
    cover: Option<Seq<char>>,
    is_preview: bool,
    base: Option<Seq<char>>,
) -> Seq<char> {
    PAGE_0@
        + esc(p.title@)
        + PAGE_1@
        + esc(p.artist@)
        + PAGE_2@
        + badge_of(is_preview)
        + PAGE_3@
        + cover_html_of(cover, "cover-art"@)
        + PAGE_4@
        + esc(p.title@)
        + PAGE_5@
        + esc(p.artist@)
        + PAGE_6@
        + p.release_date@
        + PAGE_7@
        + esc(p.summary@)
        + PAGE_8@
        + tracks_html_of(p.tracks@, base)
        + PAGE_9@
        + footer_of(is_preview)
        + PAGE_10@
        + cover_html_of(cover, "player-album-art"@)
        + PAGE_11@
        + esc(p.artist@)
        + PAGE_12@
        + reload_of(is_preview)
        + PAGE_13@
        + script_of(is_preview)
        + PAGE_14@
}

fn opt_view(s: Option<&str>) -> (r: Option<String>)
    ensures
        match s {
            Some(x) => r is Some && r->Some_0@ == x@,
            None => r is None,
        },
{
    match s {
        Some(x) => Some(String::from_str(x)),
        None => None,
    }
}

pub open spec fn opt_seq(s: Option<&str>) -> Option<Seq<char>> {
    match s {
        Some(x) => Some(x@),
        None => None,
    }
}

/// The list entry of one track.
pub fn track_row(i: usize, t: &PageTrack, audio_base_url: Option<&str>) -> (r: String)
    requires
        i < usize::MAX,
    ensures
        r@ == track_row_of(i as nat, *t, opt_seq(audio_base_url)),
{
    let name = match path_file_name(t.file.as_str()) {
        Some(n) => n,
        None => String::new(),
    };
    let escaped_name = html_escape(name.as_str());
    let escaped_title = html_escape(t.title.as_str());
    let mut out = String::from_str(ROW_0);
    assert(i as u64 as nat == i as nat);
    push_decimal(&mut out, i as u64);
    out.append(ROW_1);
    match audio_base_url {
        Some(b) => {
            out.append(b);
        },
        None => {},
    }
    out.append("/audio/");
    out.append(escaped_name.as_str());
    out.append(ROW_2);
    out.append(escaped_title.as_str());
    out.append(ROW_3);
    let n: u64 = i as u64 + 1;
    if n < 10 {
        push_char(&mut out, '0');
    }
    push_decimal(&mut out, n);
    out.append(ROW_4);
    out.append(escaped_title.as_str());
    out.append(ROW_5);
    match t.duration {
        Some(d) => {
            let text = format_duration(d);
            out.append(text.as_str());
        },
        None => {
            out.append("--:--");
        },
    }
    out.append(ROW_6);
    out
}

fn cover_html(cover: Option<&str>, class: &str) -> (r: String)
    ensures
        r@ == cover_html_of(opt_seq(cover), class@),
{
    match cover {
        Some(c) => {
            let escaped = html_escape(c);
            let mut out = String::from_str("<img src=\"/artwork/");
            out.append(escaped.as_str());
            out.append("\" alt=\"Album cover\" class=\"");
            out.append(class);
            out.append("\">");
            out
        },
        None => String::new(),
    }
}

/// Renders the album page. `cover_art` names the cover image under
/// `/artwork/`; audio is fetched from `audio_base_url` when given, else from
/// the site's own `/audio/`; `is_preview` adds the preview badge and the
/// live-reload script. Every text taken from the album is HTML-escaped.
pub fn generate_html(
    page: &PageInfo,
    cover_art: Option<&str>,
    is_preview: bool,
    audio_base_url: Option<&str>,
) -> (r: String)
    ensures
        r@ == page_of(*page, opt_seq(cover_art), is_preview, opt_seq(audio_base_url)),
{
    let ghost base = opt_seq(audio_base_url);
    let mut tracks = String::new();
    let mut i: usize = 0;
    while i < page.tracks.len()
        invariant
            i <= page.tracks@.len(),
            tracks@ == tracks_html_of(page.tracks@.subrange(0, i as int), base),
            base == opt_seq(audio_base_url),
        decreases page.tracks@.len() - i,
    {
        let row = track_row(i, &page.tracks[i], audio_base_url);
        proof {
            let s = page.tracks@.subrange(0, i + 1);
            assert(s.drop_last() =~= page.tracks@.subrange(0, i as int));
            assert(s.last() == page.tracks@[i as int]);
        }
        tracks.append(row.as_str());
        i = i + 1;
    }
    assert(page.tracks@.subrange(0, page.tracks@.len() as int) =~= page.tracks@);
    let title = html_escape(page.title.as_str());
    let artist = html_escape(page.artist.as_str());
    let summary = html_escape(page.summary.as_str());
    let cover = cover_html(cover_art, "cover-art");
    let player_art = cover_html(cover_art, "player-album-art");
    let mut out = String::from_str(PAGE_0);
    out.append(title.as_str());
    out.append(PAGE_1);
    out.append(artist.as_str());
    out.append(PAGE_2);
    if is_preview {
        out.append(PREVIEW_BADGE);
    }
    out.append(PAGE_3);
    out.append(cover.as_str());
    out.append(PAGE_4);
    out.append(title.as_str());
    out.append(PAGE_5);
    out.append(artist.as_str());
    out.append(PAGE_6);
    out.append(page.release_date.as_str());
    out.append(PAGE_7);
    out.append(summary.as_str());
    out.append(PAGE_8);
    out.append(tracks.as_str());
    out.append(PAGE_9);
    if is_preview {
        out.append("Generated by release-kit • Press Ctrl+C to stop preview");
    } else {
        out.append("Generated by release-kit");
    }
    out.append(PAGE_10);
    out.append(player_art.as_str());
    out.append(PAGE_11);
    out.append(artist.as_str());
    out.append(PAGE_12);
    if is_preview {
        out.append(RELOAD_SCRIPT);
    }
    out.append(PAGE_13);
    if is_preview {
        out.append("/_player.js");
    } else {
        out.append("/player.js");
    }
    out.append(PAGE_14);
    out
}

} // verus!
