//! The album manifest's plain records.

use vstd::prelude::*;
use crate::text::{alnum_of, chars_of, is_alphanumeric, is_space, is_space_char, lower_of, lowercase, push_char};
use crate::template::{duration_text_of, format_duration as format_seconds};

verus! {

/// Artist information.
#[derive(Clone, Debug)]
pub struct Artist {
    pub name: String,
    pub url: Option<String>,
    pub bio: Option<String>,
    pub rss_author_email: String,
}

/// Site configuration.
#[derive(Clone, Debug)]
pub struct SiteConfig {
    pub domain: String,
    pub theme: String,
    pub accent_color: String,
}

/// One track of the album.
#[derive(Clone, Debug)]
pub struct Track {
    /// Path of the audio file, relative to the album directory.
    pub file: String,
    pub title: String,
    /// Length in seconds, when known.
    pub duration: Option<u64>,
    pub liner_notes: Option<String>,
}

/// Hosting configuration.
#[derive(Clone, Debug)]
pub struct HostingConfig {
    pub cloudflare: CloudflareConfig,
}

/// Where the album is hosted on the platform.
#[derive(Clone, Debug)]
pub struct CloudflareConfig {
    pub account_id: String,
    pub r2_bucket: String,
    pub pages_project: String,
    /// Custom subdomain of the configured base domain.
    pub subdomain: Option<String>,
}

/// Bandwidth limits.
#[derive(Clone, Debug)]
pub struct Limits {
    pub max_monthly_bandwidth_gb: u64,
    pub max_concurrent_streams: Option<u32>,
}

/// RSS feed configuration.
#[derive(Clone, Debug)]
pub struct RssConfig {
    pub enabled: bool,
}

/// Artwork files.
#[derive(Clone, Debug)]
pub struct Artwork {
    pub cover: String,
    pub banner: Option<String>,
}

/// What `Path::file_name` gives for a path: its last component, unless
/// that is `..` or there is none.
pub uninterp spec fn file_name_of(p: Seq<char>) -> Option<Seq<char>>;

/// Relies on `std::path::Path::file_name`, a function of the path's text.
/// A name that is not valid UTF-8 cannot come out of a `&str`.
#[verifier::external_body]
pub(crate) fn path_file_name(p: &str) -> (r: Option<String>)
    ensures
        match r {
            Some(n) => file_name_of(p@) == Some(n@),
            None => file_name_of(p@) is None,
        },
{
    std::path::Path::new(p).file_name().and_then(|n| n.to_str()).map(|n| n.to_string())
}

/// A track slug from a lower-cased title: whitespace becomes `-`, and only
/// alphanumeric characters and `-` are kept.
pub open spec fn track_slug_of(s: Seq<char>) -> Seq<char>
    decreases s.len(),
{
    if s.len() == 0 {
        Seq::empty()
    } else {
        let c = s.last();
        let before = track_slug_of(s.drop_last());
        if is_space_char(c) || c == '-' {
            before.push('-')
        } else if alnum_of(c) {
            before.push(c)
        } else {
            before
        }
    }
}

/// The slug of a title that is already lower-cased.
pub fn slug_from_lowercase(s: &str) -> (r: String)
    ensures
        r@ == track_slug_of(s@),
{
    let cs = chars_of(s);
    let mut out = String::new();
    let mut i: usize = 0;
    while i < cs.len()
        invariant
            i <= cs@.len(),
            cs@ == s@,
            out@ == track_slug_of(s@.subrange(0, i as int)),
        decreases cs@.len() - i,
    {
        let c = cs[i];
        proof {
            assert(s@.subrange(0, i + 1).drop_last() =~= s@.subrange(0, i as int));
        }
        if is_space(c) || c == '-' {
            push_char(&mut out, '-');
        } else if is_alphanumeric(c) {
            push_char(&mut out, c);
        }
        i = i + 1;
    }
    assert(s@.subrange(0, s@.len() as int) =~= s@);
    out
}

impl Track {
    /// The file name of the track's audio file, for use in URLs;
    /// `unknown` when the path has none.
    pub fn file_name(&self) -> (r: String)
        ensures
            r@ == match file_name_of(self.file@) {
                Some(n) => n,
                None => "unknown"@,
            },
    {
        match path_file_name(self.file.as_str()) {
            Some(n) => n,
            None => String::from_str("unknown"),
        }
    }

    /// A URL-safe slug of the title.
    pub fn slug(&self) -> (r: String)
        ensures
            r@ == track_slug_of(lower_of(self.title@)),
    {
        let lowered = lowercase(self.title.as_str());
        slug_from_lowercase(lowered.as_str())
    }
}

/// `M:SS` for a known duration in seconds, `?:??` for an unknown one.
pub fn format_duration(duration: Option<u64>) -> (r: String)
    ensures
        r@ == match duration {
            Some(d) => duration_text_of(d as nat),
            None => "?:??"@,
        },
{
    match duration {
        Some(d) => format_seconds(d),
        None => String::from_str("?:??"),
    }
}

} // verus!
