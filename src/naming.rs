//! The deployment target's name: `{artist-slug}-{album-slug}`.

use vstd::prelude::*;
use crate::text::{
    is_ascii_alnum, is_ascii_digit, is_ascii_lower, is_space_char, ascii_lower, lower_of,
    chars_of, lowercase, push_char, is_space, is_alnum_ascii, to_ascii_lower,
};

verus! {

/// A character that separates words of a slug.
pub open spec fn is_slug_separator(c: char) -> bool {
    is_space_char(c) || c == '-' || c == '_'
}

/// Slug of `s` read from the left, with a flag telling whether a separator
/// was seen after the last kept character.
///
/// ASCII letters and digits are kept (lower-cased), separators become one
/// hyphen between two kept words, everything else is dropped.
pub open spec fn slug_scan(s: Seq<char>) -> (Seq<char>, bool)
    decreases s.len(),
{
    if s.len() == 0 {
        (Seq::empty(), false)
    } else {
        let (out, pending) = slug_scan(s.drop_last());
        let c = s.last();
        if is_ascii_alnum(c) {
            let base = if pending && out.len() > 0 { out.push('-') } else { out };
            (base.push(ascii_lower(c)), false)
        } else if is_slug_separator(c) {
            (out, true)
        } else {
            (out, pending)
        }
    }
}

/// The slug of an already lower-cased string.
pub open spec fn slug_of(s: Seq<char>) -> Seq<char> {
    slug_scan(s).0
}

/// The project name for an artist and an album title: the two slugs joined
/// by a hyphen, or the one that is not empty, or a lone hyphen when both
/// are empty.
pub open spec fn project_name_of(artist: Seq<char>, album: Seq<char>) -> Seq<char> {
    join_slugs(slug_of(lower_of(artist)), slug_of(lower_of(album)))
}

pub open spec fn join_slugs(a: Seq<char>, b: Seq<char>) -> Seq<char> {
    if a.len() == 0 && b.len() == 0 {
        seq!['-']
    } else if a.len() == 0 {
        b
    } else if b.len() == 0 {
        a
    } else {
        a + seq!['-'] + b
    }
}

pub open spec fn is_slug_char(c: char) -> bool {
    is_ascii_digit(c) || is_ascii_lower(c) || c == '-'
}

/// Lowercase ASCII letters, digits and single hyphens, with no hyphen at
/// either end.
pub open spec fn is_clean_slug(t: Seq<char>) -> bool {
    &&& forall|i: int| 0 <= i < t.len() ==> is_slug_char(#[trigger] t[i])
    &&& t.len() > 0 ==> t[0] != '-' && t[t.len() - 1] != '-'
    &&& forall|i: int| 0 <= i < t.len() - 1 ==> !(#[trigger] t[i] == '-' && t[i + 1] == '-')
}

proof fn lemma_ascii_lower_is_slug_char(c: char)
    requires
        is_ascii_alnum(c),
    ensures
        is_slug_char(ascii_lower(c)),
        ascii_lower(c) != '-',
{
}

/// Every slug is clean.
pub proof fn lemma_slug_is_clean(s: Seq<char>)
    ensures
        is_clean_slug(slug_of(s)),
    decreases s.len(),
{
    if s.len() > 0 {
        lemma_slug_is_clean(s.drop_last());
        let (out, pending) = slug_scan(s.drop_last());
        let c = s.last();
        if is_ascii_alnum(c) {
            lemma_ascii_lower_is_slug_char(c);
            let base = if pending && out.len() > 0 { out.push('-') } else { out };
            let t = base.push(ascii_lower(c));
            assert(slug_of(s) == t);
            assert forall|i: int| 0 <= i < t.len() implies is_slug_char(#[trigger] t[i]) by {
                if i < out.len() {
                    assert(t[i] == out[i]);
                }
            }
            assert forall|i: int| 0 <= i < t.len() - 1 implies !(#[trigger] t[i] == '-' && t[i + 1]
                == '-') by {
                if i + 1 < out.len() {
                    assert(t[i] == out[i] && t[i + 1] == out[i + 1]);
                } else if i + 1 == out.len() {
                    assert(t[i] == out[out.len() - 1]);
                }
            }
            if out.len() > 0 {
                assert(t[0] == out[0]);
            }
        }
    }
}

/// A clean slug of two clean non-empty words joined by a hyphen is clean.
proof fn lemma_join_clean(a: Seq<char>, b: Seq<char>)
    requires
        is_clean_slug(a),
        is_clean_slug(b),
        a.len() > 0,
        b.len() > 0,
    ensures
        is_clean_slug(a + seq!['-'] + b),
{
    let t = a + seq!['-'] + b;
    assert forall|i: int| 0 <= i < t.len() implies is_slug_char(#[trigger] t[i]) by {
        if i < a.len() {
            assert(t[i] == a[i]);
        } else if i > a.len() {
            assert(t[i] == b[i - a.len() - 1]);
        }
    }
    assert forall|i: int| 0 <= i < t.len() - 1 implies !(#[trigger] t[i] == '-' && t[i + 1]
        == '-') by {
        if i + 1 < a.len() {
            assert(t[i] == a[i] && t[i + 1] == a[i + 1]);
        } else if i + 1 == a.len() {
            assert(t[i] == a[a.len() - 1]);
        } else if i == a.len() {
            assert(t[i + 1] == b[0]);
        } else {
            assert(t[i] == b[i - a.len() - 1] && t[i + 1] == b[i - a.len()]);
        }
    }
    assert(t[0] == a[0]);
    assert(t[t.len() - 1] == b[b.len() - 1]);
}

/// The derived name is a function of the two inputs alone. It is exactly
/// `"-"` when neither input keeps a letter or digit; otherwise it consists
/// of lowercase ASCII letters, digits and single hyphens, with no hyphen at
/// either end.
pub proof fn lemma_project_name_shape(artist: Seq<char>, album: Seq<char>)
    ensures
        (slug_of(lower_of(artist)).len() == 0 && slug_of(lower_of(album)).len() == 0)
            <==> project_name_of(artist, album) == seq!['-'],
        !(slug_of(lower_of(artist)).len() == 0 && slug_of(lower_of(album)).len() == 0)
            ==> is_clean_slug(project_name_of(artist, album)) && project_name_of(artist, album).len()
            > 0,
{
    let a = slug_of(lower_of(artist));
    let b = slug_of(lower_of(album));
    lemma_slug_is_clean(lower_of(artist));
    lemma_slug_is_clean(lower_of(album));
    let n = project_name_of(artist, album);
    if a.len() > 0 && b.len() > 0 {
        lemma_join_clean(a, b);
    }
    if !(a.len() == 0 && b.len() == 0) {
        assert(n.len() > 0 && n[0] != '-');
        if n == seq!['-'] {
            assert(n[0] == '-');
        }
    }
}

/// Slug of a string that is already lower-cased.
pub fn slugify_lowered(s: &str) -> (r: String)
    ensures
        r@ == slug_of(s@),
{
    let cs = chars_of(s);
    let mut out = String::new();
    let mut pending = false;
    let mut n_out: usize = 0;
    let mut i: usize = 0;
    while i < cs.len()
        invariant
            i <= cs@.len(),
            cs@ == s@,
            (out@, pending) == slug_scan(s@.subrange(0, i as int)),
            n_out == out@.len(),
            out@.len() + (if pending { 1int } else { 0int }) <= i,
        decreases cs@.len() - i,
    {
        let c = cs[i];
        proof {
            assert(s@.subrange(0, i + 1).drop_last() =~= s@.subrange(0, i as int));
        }
        if is_alnum_ascii(c) {
            if pending && n_out > 0 {
                push_char(&mut out, '-');
                n_out = n_out + 1;
            }
            push_char(&mut out, to_ascii_lower(c));
            n_out = n_out + 1;
            pending = false;
        } else if is_space(c) || c == '-' || c == '_' {
            pending = true;
        }
        i = i + 1;
    }
    assert(s@.subrange(0, s@.len() as int) =~= s@);
    out
}

/// Derives the deployment target's name from the artist and album title:
/// both are lower-cased and slugified, then joined with a hyphen; an empty
/// slug is left out, and when both are empty the name is `"-"`.
pub fn derive_project_name(artist: &str, album: &str) -> (r: String)
    ensures
        r@ == project_name_of(artist@, album@),
{
    let a = lowercase(artist);
    let b = lowercase(album);
    let head = slugify_lowered(a.as_str());
    let tail = slugify_lowered(b.as_str());
    let na = head.as_str().unicode_len();
    let nb = tail.as_str().unicode_len();
    if na == 0 && nb == 0 {
        let mut dash = String::new();
        push_char(&mut dash, '-');
        assert(dash@ =~= seq!['-']);
        dash
    } else if na == 0 {
        tail
    } else if nb == 0 {
        head
    } else {
        let mut name = head;
        push_char(&mut name, '-');
        name.append(tail.as_str());
        name
    }
}

/// The project name, unless it is the lone separator that names made only
/// of other characters leave.
pub fn checked_project_name(artist: &str, album: &str) -> (r: Option<String>)
    ensures
        r is None <==> project_name_of(artist@, album@) == seq!['-'],
        r is Some ==> r->Some_0@ == project_name_of(artist@, album@),
{
    let name = derive_project_name(artist, album);
    let n = name.as_str().unicode_len();
    if n == 1 && name.as_str().get_char(0) == '-' {
        assert(name@ =~= seq!['-']);
        return None;
    }
    proof {
        if name@ == seq!['-'] {
            assert(name@[0] == '-');
        }
    }
    Some(name)
}

} // verus!
