//! Findings of an album check, by severity.

use vstd::prelude::*;
use crate::text::{chars_of, concat, concat3, decimal_of, push_decimal, same_text};
use crate::template::{duration_text_of, format_duration};

verus! {

pub struct ValidationReport {
    pub errors: Vec<String>,
    pub warnings: Vec<String>,
    pub info: Vec<String>,
}

/// A report with no findings yet.
pub fn validate_album() -> (r: ValidationReport)
    ensures
        r.errors@.len() == 0,
        r.warnings@.len() == 0,
        r.info@.len() == 0,
{
    ValidationReport { errors: Vec::new(), warnings: Vec::new(), info: Vec::new() }
}

/// `needle` occurs in `hay`.
pub open spec fn contains_text_of(hay: Seq<char>, needle: Seq<char>) -> bool {
    exists|i: int| 0 <= i && i + needle.len() <= hay.len() && #[trigger] hay.subrange(i, i + needle.len()) == needle
}

/// Whether `needle` occurs in `hay`, by trying each position.
pub fn contains_text(hay: &str, needle: &str) -> (r: bool)
    ensures
        r == contains_text_of(hay@, needle@),
{
    let h = chars_of(hay);
    let n = chars_of(needle);
    if n.len() > h.len() {
        return false;
    }
    let hl = h.len();
    let last = hl - n.len();
    let mut i: usize = 0;
    while i <= last
        invariant
            h@ == hay@,
            n@ == needle@,
            last == h@.len() - n@.len(),
            hl == h@.len(),
            n@.len() <= h@.len(),
            i <= last + 1,
            forall|k: int| 0 <= k < i ==> #[trigger] h@.subrange(k, k + n@.len()) != n@,
        decreases last + 1 - i,
    {
        let mut j: usize = 0;
        while j < n.len() && h[i + j] == n[j]
            invariant
                h@ == hay@,
                n@ == needle@,
                last == h@.len() - n@.len(),
                hl == h@.len(),
                n@.len() <= h@.len(),
                i <= last,
                j <= n@.len(),
                forall|t: int| 0 <= t < j ==> h@[i + t] == n@[t],
            decreases n@.len() - j,
        {
            j = j + 1;
        }
        if j == n.len() {
            assert(h@.subrange(i as int, i + n@.len()) =~= n@);
            return true;
        }
        assert(h@.subrange(i as int, i + n@.len())[j as int] != n@[j as int]);
        i = i + 1;
    }
    proof {
        assert forall|k: int| 0 <= k && k + needle@.len() <= hay@.len() implies #[trigger] hay@.subrange(
            k,
            k + needle@.len(),
        ) != needle@ by {
            assert(k < i);
        }
    }
    false
}

/// Album fields that the placeholder checks read.
pub struct MetadataFields {
    pub title: String,
    pub metadata_artist: String,
    pub artist_name: String,
    pub summary: String,
    pub rss_author_email: String,
    pub site_domain: String,
    pub track_count: usize,
}

pub open spec fn title_placeholder(m: MetadataFields) -> bool {
    contains_text_of(m.title@, "TODO"@) || m.title@ == "My Album"@
}

pub open spec fn artist_placeholder(m: MetadataFields) -> bool {
    contains_text_of(m.metadata_artist@, "TODO"@) || m.metadata_artist@ == "Artist Name"@
        || contains_text_of(m.artist_name@, "TODO"@)
}

pub open spec fn summary_placeholder(m: MetadataFields) -> bool {
    contains_text_of(m.summary@, "TODO"@) || m.summary@ == "Description of this album"@
}

/// The texts of a list of messages.
pub open spec fn texts_of(v: Seq<String>) -> Seq<Seq<char>> {
    v.map_values(|x: String| x@)
}

fn note(v: &mut Vec<String>, text: String)
    ensures
        texts_of(final(v)@) == texts_of(old(v)@).push(text@),
{
    let ghost before = v@;
    v.push(text);
    assert(texts_of(v@) =~= texts_of(before).push(v@.last()@));
}

/// `ws` with `w` added when `cond` holds.
pub open spec fn push_if(ws: Seq<Seq<char>>, cond: bool, w: Seq<char>) -> Seq<Seq<char>> {
    if cond {
        ws.push(w)
    } else {
        ws
    }
}

/// The warnings the placeholder checks give, in order.
pub open spec fn metadata_warnings_of(m: MetadataFields) -> Seq<Seq<char>> {
    let w1 = push_if(Seq::empty(), title_placeholder(m), "Album title appears to be a placeholder"@);
    let w2 = push_if(w1, artist_placeholder(m), "Artist name appears to be a placeholder"@);
    let w3 = push_if(
        w2,
        summary_placeholder(m),
        "Album summary is a placeholder - consider adding a description"@,
    );
    let w4 = push_if(
        w3,
        contains_text_of(m.rss_author_email@, "example.com"@),
        "RSS author email is a placeholder - update for RSS feed"@,
    );
    push_if(
        w4,
        contains_text_of(m.site_domain@, "example.com"@),
        "Site domain is a placeholder - update before deployment"@,
    )
}

/// Checks the album metadata for the scaffold's placeholder values (a
/// warning each) and for a missing track list (an error).
pub fn check_metadata(m: &MetadataFields, report: &mut ValidationReport)
    ensures
        texts_of(final(report).warnings@) == texts_of(old(report).warnings@) + metadata_warnings_of(*m),
        texts_of(final(report).errors@) == push_if(
            texts_of(old(report).errors@),
            m.track_count == 0,
            "No tracks defined in album.toml"@,
        ),
        final(report).info == old(report).info,
{
    let ghost base = texts_of(report.warnings@);
    let ghost w1 = push_if(Seq::empty(), title_placeholder(*m), "Album title appears to be a placeholder"@);
    if contains_text(m.title.as_str(), "TODO") || same_text(m.title.as_str(), "My Album") {
        note(&mut report.warnings, String::from_str("Album title appears to be a placeholder"));
    }
    assert(texts_of(report.warnings@) =~= base + w1);
    let ghost w2 = push_if(w1, artist_placeholder(*m), "Artist name appears to be a placeholder"@);
    if contains_text(m.metadata_artist.as_str(), "TODO") || same_text(m.metadata_artist.as_str(), "Artist Name")
        || contains_text(m.artist_name.as_str(), "TODO") {
        note(&mut report.warnings, String::from_str("Artist name appears to be a placeholder"));
    }
    assert(texts_of(report.warnings@) =~= base + w2);
    let ghost w3 = push_if(
        w2,
        summary_placeholder(*m),
        "Album summary is a placeholder - consider adding a description"@,
    );
    if contains_text(m.summary.as_str(), "TODO") || same_text(m.summary.as_str(), "Description of this album") {
        note(
            &mut report.warnings,
            String::from_str("Album summary is a placeholder - consider adding a description"),
        );
    }
    assert(texts_of(report.warnings@) =~= base + w3);
    let ghost w4 = push_if(
        w3,
        contains_text_of(m.rss_author_email@, "example.com"@),
        "RSS author email is a placeholder - update for RSS feed"@,
    );
    if contains_text(m.rss_author_email.as_str(), "example.com") {
        note(
            &mut report.warnings,
            String::from_str("RSS author email is a placeholder - update for RSS feed"),
        );
    }
    assert(texts_of(report.warnings@) =~= base + w4);
    if contains_text(m.site_domain.as_str(), "example.com") {
        note(
            &mut report.warnings,
            String::from_str("Site domain is a placeholder - update before deployment"),
        );
    }
    assert(texts_of(report.warnings@) =~= base + metadata_warnings_of(*m));
    if m.track_count == 0 {
        note(&mut report.errors, String::from_str("No tracks defined in album.toml"));
    }
}

/// What reading a track's audio file gave.
pub enum AudioProbe {
    /// No file at the track's path.
    Missing,
    /// The file could not be opened.
    CannotOpen(String),
    /// The file is not audio that could be read.
    NotAudio(String),
    /// The file's length in whole seconds.
    Seconds(u64),
}

/// `Track {n}`.
pub open spec fn track_label_of(n: nat) -> Seq<char> {
    "Track "@ + decimal_of(n)
}

fn track_label(track_number: u64) -> (r: String)
    ensures
        r@ == track_label_of(track_number as nat),
{
    let mut out = String::from_str("Track ");
    push_decimal(&mut out, track_number);
    out
}

/// The errors a probe gives for track `n`.
pub open spec fn audio_errors_of(n: nat, file: Seq<char>, probe: AudioProbe) -> Seq<Seq<char>> {
    match probe {
        AudioProbe::Missing => seq![track_label_of(n) + " audio file not found: "@ + file],
        AudioProbe::CannotOpen(e) => seq![
            track_label_of(n) + " ("@ + file + ") cannot be opened: "@ + e@,
        ],
        AudioProbe::NotAudio(e) => seq![
            track_label_of(n) + " ("@ + file + ") is not a valid audio file: "@ + e@,
        ],
        AudioProbe::Seconds(_) => Seq::empty(),
    }
}

/// The warnings a probe gives for track `n`: a track under one second, and
/// a length that differs from the manifest's.
pub open spec fn audio_warnings_of(
    n: nat,
    title: Seq<char>,
    probe: AudioProbe,
    configured: Option<u64>,
) -> Seq<Seq<char>> {
    match probe {
        AudioProbe::Seconds(d) => push_if(
            push_if(
                Seq::empty(),
                d < 1,
                track_label_of(n) + " ("@ + title + ") is very short ("@ + decimal_of(d as nat)
                    + "s) - is this correct?"@,
            ),
            configured is Some && configured->Some_0 != d,
            track_label_of(n) + " duration mismatch: config says "@ + duration_text_of(
                configured->Some_0 as nat,
            ) + ", file is "@ + duration_text_of(d as nat),
        ),
        _ => Seq::empty(),
    }
}

/// Records what the probe of track `track_number` shows: a missing or
/// unreadable file is an error; a track under one second, or one whose
/// length differs from the manifest's, gets a warning each.
pub fn check_audio(
    track_number: u64,
    title: &str,
    file: &str,
    probe: AudioProbe,
    configured: Option<u64>,
    report: &mut ValidationReport,
)
    ensures
        final(report).info == old(report).info,
        texts_of(final(report).errors@) == texts_of(old(report).errors@) + audio_errors_of(
            track_number as nat,
            file@,
            probe,
        ),
        texts_of(final(report).warnings@) == texts_of(old(report).warnings@) + audio_warnings_of(
            track_number as nat,
            title@,
            probe,
            configured,
        ),
{
    let ghost errors0 = texts_of(report.errors@);
    let ghost warnings0 = texts_of(report.warnings@);
    let ghost p = probe;
    let label = track_label(track_number);
    match probe {
        AudioProbe::Missing => {
            let m = concat3(label.as_str(), " audio file not found: ", file);
            note(&mut report.errors, m);
        },
        AudioProbe::CannotOpen(e) => {
            let head = concat3(label.as_str(), " (", file);
            let m = concat3(head.as_str(), ") cannot be opened: ", e.as_str());
            note(&mut report.errors, m);
        },
        AudioProbe::NotAudio(e) => {
            let head = concat3(label.as_str(), " (", file);
            let m = concat3(head.as_str(), ") is not a valid audio file: ", e.as_str());
            note(&mut report.errors, m);
        },
        AudioProbe::Seconds(d) => {
            if d < 1 {
                let head = concat3(label.as_str(), " (", title);
                let mut m = concat(head.as_str(), ") is very short (");
                push_decimal(&mut m, d);
                m.append("s) - is this correct?");
                note(&mut report.warnings, m);
            }
            match configured {
                Some(c) => {
                    if c != d {
                        let said = format_duration(c);
                        let found = format_duration(d);
                        let head = concat3(label.as_str(), " duration mismatch: config says ", said.as_str());
                        let m = concat3(head.as_str(), ", file is ", found.as_str());
                        note(&mut report.warnings, m);
                    }
                },
                None => {},
            }
        },
    }
    assert(texts_of(report.errors@) =~= errors0 + audio_errors_of(track_number as nat, file@, p));
    assert(texts_of(report.warnings@) =~= warnings0 + audio_warnings_of(
        track_number as nat,
        title@,
        p,
        configured,
    ));
}

} // verus!
