//! Text checks and escapes used when a new album directory is scaffolded.

use vstd::prelude::*;
use crate::text::{
    chars_of, decimal_of, is_space, is_space_char, lower_of, lowercase, push_char, push_decimal,
    string_of_chars, trim_chars, trim_of,
};
use crate::types::{file_name_of, path_file_name};

verus! {

/// The TOML basic-string text standing for one character.
pub open spec fn toml_escape_char_of(c: char) -> Seq<char> {
    if c == '\\' {
        seq!['\\', '\\']
    } else if c == '"' {
        seq!['\\', '"']
    } else if c == '\u{8}' {
        seq!['\\', 'b']
    } else if c == '\u{c}' {
        seq!['\\', 'f']
    } else if c == '\n' {
        seq!['\\', 'n']
    } else if c == '\r' {
        seq!['\\', 'r']
    } else if c == '\t' {
        seq!['\\', 't']
    } else {
        seq![c]
    }
}

/// `s` with backslash, quote, backspace, form feed, newline, carriage
/// return and tab escaped as a TOML basic string requires.
pub open spec fn toml_escape_of(s: Seq<char>) -> Seq<char>
    decreases s.len(),
{
    if s.len() == 0 {
        Seq::empty()
    } else {
        toml_escape_of(s.drop_last()) + toml_escape_char_of(s.last())
    }
}

/// Escapes a string for use inside a TOML basic (double-quoted) string.
pub fn toml_escape_string(s: &str) -> (r: String)
    ensures
        r@ == toml_escape_of(s@),
{
    let cs = chars_of(s);
    let mut out = String::new();
    let mut i: usize = 0;
    while i < cs.len()
        invariant
            i <= cs@.len(),
            cs@ == s@,
            out@ == toml_escape_of(s@.subrange(0, i as int)),
        decreases cs@.len() - i,
    {
        let c = cs[i];
        proof {
            assert(s@.subrange(0, i + 1).drop_last() =~= s@.subrange(0, i as int));
        }
        let ghost before = out@;
        if c == '\\' {
            push_char(&mut out, '\\');
            push_char(&mut out, '\\');
        } else if c == '"' {
            push_char(&mut out, '\\');
            push_char(&mut out, '"');
        } else if c == '\u{8}' {
            push_char(&mut out, '\\');
            push_char(&mut out, 'b');
        } else if c == '\u{c}' {
            push_char(&mut out, '\\');
            push_char(&mut out, 'f');
        } else if c == '\n' {
            push_char(&mut out, '\\');
            push_char(&mut out, 'n');
        } else if c == '\r' {
            push_char(&mut out, '\\');
            push_char(&mut out, 'r');
        } else if c == '\t' {
            push_char(&mut out, '\\');
            push_char(&mut out, 't');
        } else {
            push_char(&mut out, c);
        }
        assert(out@ =~= before + toml_escape_char_of(c));
        i = i + 1;
    }
    assert(s@.subrange(0, s@.len() as int) =~= s@);
    out
}

/// Bytes that a character takes in UTF-8.
pub open spec fn utf8_width(c: char) -> nat {
    if (c as u32) < 0x80 {
        1
    } else if (c as u32) < 0x800 {
        2
    } else if (c as u32) < 0x10000 {
        3
    } else {
        4
    }
}

/// Bytes that a string takes in UTF-8.
pub open spec fn byte_len(s: Seq<char>) -> nat
    decreases s.len(),
{
    if s.len() == 0 {
        0
    } else {
        byte_len(s.drop_last()) + utf8_width(s.last())
    }
}

pub open spec fn count_char(s: Seq<char>, c: char) -> nat
    decreases s.len(),
{
    if s.len() == 0 {
        0
    } else {
        count_char(s.drop_last(), c) + if s.last() == c {
            1nat
        } else {
            0nat
        }
    }
}

pub open spec fn contains_char(s: Seq<char>, c: char) -> bool {
    exists|i: int| 0 <= i < s.len() && s[i] == c
}

pub open spec fn has_double_dot(s: Seq<char>) -> bool {
    exists|i: int| 0 <= i < s.len() - 1 && #[trigger] s[i] == '.' && s[i + 1] == '.'
}

/// Position of the only `@` of a string that has exactly one.
pub open spec fn at_index(s: Seq<char>) -> int {
    choose|i: int| 0 <= i < s.len() && s[i] == '@'
}

/// Position of the last dot.
pub open spec fn last_dot(s: Seq<char>) -> int {
    choose|i: int| 0 <= i < s.len() && s[i] == '.' && forall|j: int| i < j < s.len() ==> s[j] != '.'
}

/// The checks an e-mail address passes: one `@`; a local part of 1 to 64
/// bytes; a domain of 1 to 255 bytes with a dot, not starting or ending
/// with a dot or a hyphen, without `..`, and whose last label has at least
/// two bytes.
pub open spec fn email_ok(s: Seq<char>) -> bool {
    count_char(s, '@') == 1 && {
        let a = at_index(s);
        let local = s.subrange(0, a);
        let domain = s.subrange(a + 1, s.len() as int);
        &&& local.len() > 0
        &&& byte_len(local) <= 64
        &&& email_domain_ok(domain)
    }
}

/// The checks on the part of an e-mail address after the `@`.
pub open spec fn email_domain_ok(domain: Seq<char>) -> bool {
    &&& domain.len() > 0
    &&& byte_len(domain) <= 255
    &&& contains_char(domain, '.')
    &&& domain[0] != '.' && domain.last() != '.'
    &&& domain[0] != '-' && domain.last() != '-'
    &&& !has_double_dot(domain)
    &&& byte_len(domain.subrange(last_dot(domain) + 1, domain.len() as int)) >= 2
}

fn width(c: char) -> (r: u64)
    ensures
        r == utf8_width(c),
{
    let v = c as u32;
    if v < 0x80 {
        1
    } else if v < 0x800 {
        2
    } else if v < 0x10000 {
        3
    } else {
        4
    }
}

/// Bytes of `cs[from..to]`, or `limit + 1` when it is more than `limit`.
fn bytes_between(cs: &Vec<char>, from: usize, to: usize, limit: u64) -> (r: u64)
    requires
        from <= to <= cs@.len(),
        limit < 1000,
    ensures
        byte_len(cs@.subrange(from as int, to as int)) <= limit ==> r == byte_len(
            cs@.subrange(from as int, to as int),
        ),
        byte_len(cs@.subrange(from as int, to as int)) > limit ==> r == limit + 1,
{
    let mut total: u64 = 0;
    let mut i: usize = from;
    while i < to
        invariant
            from <= i <= to <= cs@.len(),
            limit < 1000,
            total <= limit,
            total == byte_len(cs@.subrange(from as int, i as int)),
        decreases to - i,
    {
        proof {
            assert(cs@.subrange(from as int, i + 1).drop_last() =~= cs@.subrange(from as int, i as int));
        }
        total = total + width(cs[i]);
        i = i + 1;
        if total > limit {
            proof {
                lemma_byte_len_prefix(cs@.subrange(from as int, to as int), (i - from) as int);
                assert(cs@.subrange(from as int, to as int).subrange(0, (i - from) as int)
                    =~= cs@.subrange(from as int, i as int));
            }
            return limit + 1;
        }
    }
    total
}

proof fn lemma_byte_len_prefix(s: Seq<char>, k: int)
    requires
        0 <= k <= s.len(),
    ensures
        byte_len(s.subrange(0, k)) <= byte_len(s),
    decreases s.len() - k,
{
    if k < s.len() {
        lemma_byte_len_prefix(s, k + 1);
        assert(s.subrange(0, k + 1).drop_last() =~= s.subrange(0, k));
    } else {
        assert(s.subrange(0, k) =~= s);
    }
}

proof fn lemma_count_step(s: Seq<char>, i: int, c: char)
    requires
        0 <= i < s.len(),
    ensures
        count_char(s.subrange(0, i + 1), c) == count_char(s.subrange(0, i), c) + if s[i] == c {
            1nat
        } else {
            0nat
        },
{
    assert(s.subrange(0, i + 1).drop_last() =~= s.subrange(0, i));
}

/// Checks the basic shape of an e-mail address.
pub fn is_valid_email(email: &str) -> (r: bool)
    ensures
        r == email_ok(email@),
{
    let cs = chars_of(email);
    let n = cs.len();
    let ghost s = cs@;
    let mut ats: usize = 0;
    let mut at: usize = 0;
    let mut i: usize = 0;
    while i < n
        invariant
            i <= n,
            n == s.len(),
            s == cs@,
            ats <= i,
            ats as nat == count_char(s.subrange(0, i as int), '@'),
            ats >= 1 ==> at < i && s[at as int] == '@',
            ats == 0 ==> forall|j: int| 0 <= j < i ==> s[j] != '@',
            ats == 1 ==> forall|j: int| 0 <= j < i && j != at ==> s[j] != '@',
        decreases n - i,
    {
        proof {
            lemma_count_step(s, i as int, '@');
        }
        if cs[i] == '@' {
            if ats == 0 {
                at = i;
            }
            ats = ats + 1;
        }
        i = i + 1;
    }
    assert(s.subrange(0, n as int) =~= s);
    if ats != 1 {
        return false;
    }
    proof {
        let a = at_index(s);
        assert(s[at as int] == '@');
        assert(a == at as int);
    }
    let local_bytes = bytes_between(&cs, 0, at, 64);
    if at == 0 || local_bytes > 64 {
        return false;
    }
    let ok = domain_ok(&cs, at + 1);
    assert(s.subrange(at + 1, n as int) == s.subrange(at_index(s) + 1, s.len() as int));
    ok
}

fn domain_ok(cs: &Vec<char>, d0: usize) -> (r: bool)
    requires
        d0 <= cs@.len(),
    ensures
        r == email_domain_ok(cs@.subrange(d0 as int, cs@.len() as int)),
{
    let n = cs.len();
    let ghost s = cs@;
    let ghost domain = s.subrange(d0 as int, n as int);
    let domain_bytes = bytes_between(cs, d0, n, 255);
    if d0 == n || domain_bytes > 255 {
        return false;
    }
    let mut dot: usize = n;
    let mut double = false;
    let mut j: usize = d0;
    while j < n
        invariant
            d0 <= j <= n,
            n == s.len(),
            s == cs@,
            domain == s.subrange(d0 as int, n as int),
            dot <= n,
            dot == n ==> forall|k: int| d0 <= k < j ==> s[k] != '.',
            dot < n ==> d0 <= dot < j && s[dot as int] == '.' && forall|k: int| dot < k < j ==> s[k] != '.',
            double == exists|k: int| d0 <= k && k + 1 < j && #[trigger] s[k] == '.' && s[k + 1] == '.',
        decreases n - j,
    {
        if cs[j] == '.' {
            if j > d0 && cs[j - 1] == '.' {
                double = true;
            }
            dot = j;
        }
        proof {
            if !(cs@[j as int] == '.' && j > d0 && cs@[j - 1] == '.') {
                assert forall|k: int| d0 <= k && k + 1 < j + 1 && #[trigger] s[k] == '.' && s[k + 1] == '.'
                    implies k + 1 < j by {}
            }
        }
        j = j + 1;
    }
    proof {
        assert(contains_char(domain, '.') <==> dot < n) by {
            if dot < n {
                assert(domain[dot - d0] == '.');
            }
            if contains_char(domain, '.') {
                let k = choose|k: int| 0 <= k < domain.len() && domain[k] == '.';
                assert(s[k + d0] == '.');
            }
        }
        assert(has_double_dot(domain) <==> double) by {
            if double {
                let k = choose|k: int| d0 <= k && k + 1 < n && #[trigger] s[k] == '.' && s[k + 1] == '.';
                assert(domain[k - d0] == '.' && domain[k - d0 + 1] == '.');
            }
            if has_double_dot(domain) {
                let k = choose|k: int| 0 <= k < domain.len() - 1 && #[trigger] domain[k] == '.' && domain[k + 1] == '.';
                assert(s[k + d0] == '.' && s[k + d0 + 1] == '.');
            }
        }
        assert(domain[0] == s[d0 as int] && domain.last() == s[n - 1]);
    }
    if dot == n {
        return false;
    }
    if cs[d0] == '.' || cs[n - 1] == '.' || cs[d0] == '-' || cs[n - 1] == '-' {
        return false;
    }
    if double {
        return false;
    }
    let tld_bytes = bytes_between(cs, dot + 1, n, 10);
    proof {
        let ld = last_dot(domain);
        assert(domain[dot - d0] == '.');
        assert(ld == dot - d0) by {
            if ld < dot - d0 {
            } else if ld > dot - d0 {
                assert(s[ld + d0] == '.');
            }
        }
        assert(domain.subrange(ld + 1, domain.len() as int) =~= s.subrange(dot + 1, n as int));
    }
    tld_bytes >= 2
}

/// What `char::to_uppercase` yields for a character: its Unicode uppercase
/// mapping, one or more characters.
pub uninterp spec fn upper_of(c: char) -> Seq<char>;

/// Relies on `char::to_uppercase`, a function of the character alone.
#[verifier::external_body]
fn uppercase_char(c: char) -> (r: String)
    ensures
        r@ == upper_of(c),
{
    c.to_uppercase().collect()
}

/// A file name without its extension, as `Path::file_stem` gives it: up to
/// the last dot, unless that dot starts the name.
pub open spec fn stem_of(name: Seq<char>) -> Seq<char> {
    if exists|i: int| 0 < i < name.len() && name[i] == '.' {
        let i = choose|i: int|
            0 < i < name.len() && name[i] == '.' && forall|j: int| i < j < name.len() ==> name[j] != '.';
        name.subrange(0, i)
    } else {
        name
    }
}

fn stem(name: &Vec<char>) -> (r: Vec<char>)
    ensures
        r@ == stem_of(name@),
{
    let n = name.len();
    let mut i: usize = n;
    while i > 0 && name[i - 1] != '.'
        invariant
            i <= n,
            n == name@.len(),
            forall|j: int| i <= j < n ==> name@[j] != '.',
        decreases i,
    {
        i = i - 1;
    }
    if i <= 1 {
        proof {
            assert forall|k: int| 0 < k < name@.len() implies name@[k] != '.' by {
                if i == 1 {
                    assert(k >= 1);
                }
            }
        }
        return copy_chars(name, 0, n);
    }
    let dot: usize = i - 1;
    proof {
        assert(0 < dot < name@.len() && name@[dot as int] == '.');
        let c = choose|c: int|
            0 < c < name@.len() && name@[c] == '.' && forall|j: int| c < j < name@.len() ==> name@[j] != '.';
        assert(c == dot as int) by {
            if c < dot as int {
            } else if c > dot as int {
            }
        }
    }
    copy_chars(name, 0, dot)
}

fn copy_chars(v: &Vec<char>, from: usize, to: usize) -> (r: Vec<char>)
    requires
        from <= to <= v@.len(),
    ensures
        r@ == v@.subrange(from as int, to as int),
{
    let mut r: Vec<char> = Vec::new();
    let mut k: usize = from;
    while k < to
        invariant
            from <= k <= to <= v@.len(),
            r@ == v@.subrange(from as int, k as int),
        decreases to - k,
    {
        r.push(v[k]);
        k = k + 1;
        assert(r@ =~= v@.subrange(from as int, k as int));
    }
    r
}

pub open spec fn is_number_prefix_char(c: char) -> bool {
    ('0' <= c && c <= '9') || c == '-' || c == '_' || c == '.'
}

/// `s` without its leading characters of class `kind`.
pub open spec fn strip_leading(s: Seq<char>, kind: int) -> Seq<char>
    decreases s.len(),
{
    if s.len() > 0 && leading_class(kind, s[0]) {
        strip_leading(s.drop_first(), kind)
    } else {
        s
    }
}

/// The characters removed by each leading strip: track-number characters,
/// hyphens, underscores.
pub open spec fn leading_class(kind: int, c: char) -> bool {
    if kind == 0 {
        is_number_prefix_char(c)
    } else if kind == 1 {
        c == '-'
    } else {
        c == '_'
    }
}

pub open spec fn track_word() -> Seq<char> {
    seq!['t', 'r', 'a', 'c', 'k']
}

/// `s` without any number of leading `track`.
pub open spec fn strip_track(s: Seq<char>) -> Seq<char>
    decreases s.len(),
{
    if s.len() >= 5 && s.subrange(0, 5) == track_word() {
        strip_track(s.subrange(5, s.len() as int))
    } else {
        s
    }
}

/// The words of a file stem once its track-number prefix is gone.
pub open spec fn cleaned_title_of(stem: Seq<char>) -> Seq<char> {
    trim_of(strip_leading(strip_leading(strip_track(strip_leading(stem, 0)), 1), 2))
}

fn leading_char(kind: u8, c: char) -> (r: bool)
    ensures
        r == leading_class(kind as int, c),
{
    if kind == 0 {
        ('0' <= c && c <= '9') || c == '-' || c == '_' || c == '.'
    } else if kind == 1 {
        c == '-'
    } else {
        c == '_'
    }
}

fn strip_leading_exec(v: &Vec<char>, from: usize, kind: u8) -> (r: usize)
    requires
        from <= v@.len(),
        kind <= 2,
    ensures
        from <= r <= v@.len(),
        v@.subrange(r as int, v@.len() as int) == strip_leading(
            v@.subrange(from as int, v@.len() as int),
            kind as int,
        ),
{
    let n = v.len();
    let mut i = from;
    while i < n && leading_char(kind, v[i])
        invariant
            from <= i <= n,
            n == v@.len(),
            kind <= 2,
            strip_leading(v@.subrange(from as int, n as int), kind as int) == strip_leading(
                v@.subrange(i as int, n as int),
                kind as int,
            ),
        decreases n - i,
    {
        proof {
            assert(v@.subrange(i as int, n as int).drop_first() =~= v@.subrange(i + 1, n as int));
        }
        i = i + 1;
    }
    i
}

fn strip_track_exec(v: &Vec<char>, from: usize) -> (r: usize)
    requires
        from <= v@.len(),
    ensures
        from <= r <= v@.len(),
        v@.subrange(r as int, v@.len() as int) == strip_track(v@.subrange(from as int, v@.len() as int)),
{
    let n = v.len();
    let mut i = from;
    while n - i >= 5 && v[i] == 't' && v[i + 1] == 'r' && v[i + 2] == 'a' && v[i + 3] == 'c' && v[i + 4] == 'k'
        invariant
            from <= i <= n,
            n == v@.len(),
            strip_track(v@.subrange(from as int, n as int)) == strip_track(v@.subrange(i as int, n as int)),
        decreases n - i,
    {
        proof {
            let t = v@.subrange(i as int, n as int);
            assert(t.subrange(0, 5) =~= track_word());
            assert(t.subrange(5, t.len() as int) =~= v@.subrange(i + 5, n as int));
        }
        i = i + 5;
    }
    proof {
        let t = v@.subrange(i as int, n as int);
        if t.len() >= 5 && t.subrange(0, 5) == track_word() {
            assert(t.subrange(0, 5)[0] == v@[i as int]);
            assert(t.subrange(0, 5)[1] == v@[i + 1]);
            assert(t.subrange(0, 5)[2] == v@[i + 2]);
            assert(t.subrange(0, 5)[3] == v@[i + 3]);
            assert(t.subrange(0, 5)[4] == v@[i + 4]);
        }
    }
    i
}

/// A separator between the words of a title.
pub open spec fn is_word_break(c: char) -> bool {
    is_space_char(c) || c == '_' || c == '-'
}

/// The words of `s`, split at separators, empty words left out.
pub open spec fn words_of(s: Seq<char>) -> Seq<Seq<char>>
    decreases s.len(),
{
    if s.len() == 0 {
        Seq::empty()
    } else {
        let ws = words_of(s.drop_last());
        let c = s.last();
        if is_word_break(c) {
            ws
        } else if s.len() >= 2 && !is_word_break(s[s.len() - 2]) {
            ws.update(ws.len() - 1, ws.last().push(c))
        } else {
            ws.push(seq![c])
        }
    }
}

/// A word with its first character upper-cased and the rest lower-cased.
pub open spec fn title_word_of(w: Seq<char>) -> Seq<char> {
    upper_of(w[0]) + lower_of(w.drop_first())
}

/// The title-cased words joined by single spaces.
pub open spec fn join_title_words(ws: Seq<Seq<char>>) -> Seq<char>
    decreases ws.len(),
{
    if ws.len() == 0 {
        Seq::empty()
    } else if ws.len() == 1 {
        title_word_of(ws[0])
    } else {
        join_title_words(ws.drop_last()) + seq![' '] + title_word_of(ws.last())
    }
}

pub open spec fn all_ascii_digits(s: Seq<char>) -> bool {
    forall|i: int| 0 <= i < s.len() ==> '0' <= #[trigger] s[i] && s[i] <= '9'
}

/// The title derived from a file stem, or `Track {n}` when nothing but a
/// number is left of it.
pub open spec fn title_from_stem_of(stem: Seq<char>, n: nat) -> Seq<char> {
    let cleaned = cleaned_title_of(stem);
    if cleaned.len() == 0 || all_ascii_digits(cleaned) {
        "Track "@ + decimal_of(n)
    } else {
        join_title_words(words_of(cleaned))
    }
}

/// The title for the audio file at `path`, numbered `track_number`.
pub open spec fn track_title_of(path: Seq<char>, track_number: nat) -> Seq<char> {
    title_from_stem_of(
        match file_name_of(path) {
            Some(name) => stem_of(name),
            None => "Track"@,
        },
        track_number,
    )
}

proof fn lemma_words_nonempty(s: Seq<char>)
    ensures
        words_of(s).len() <= s.len(),
        forall|j: int| 0 <= j < words_of(s).len() ==> (#[trigger] words_of(s)[j]).len() > 0,
        s.len() > 0 && !is_word_break(s.last()) ==> words_of(s).len() > 0,
    decreases s.len(),
{
    if s.len() > 0 {
        lemma_words_nonempty(s.drop_last());
        let ws = words_of(s.drop_last());
        if s.len() >= 2 && !is_word_break(s[s.len() - 2]) {
            assert(s.drop_last().last() == s[s.len() - 2]);
        }
    }
}

/// Title-cases one word.
fn title_word(w: &Vec<char>) -> (r: String)
    requires
        w@.len() > 0,
    ensures
        r@ == title_word_of(w@),
{
    let mut out = uppercase_char(w[0]);
    let rest = string_of_chars(&copy_chars(w, 1, w.len()));
    assert(w@.subrange(1, w@.len() as int) =~= w@.drop_first());
    let lowered = lowercase(rest.as_str());
    out.append(lowered.as_str());
    out
}

/// Title-cases each word of `s` and joins them with single spaces.
fn title_case_words(s: &Vec<char>) -> (r: String)
    ensures
        r@ == join_title_words(words_of(s@)),
{
    let n = s.len();
    let mut out = String::new();
    let mut word: Vec<char> = Vec::new();
    let mut done: usize = 0;
    let mut i: usize = 0;
    proof {
        assert(s@.subrange(0, 0) =~= Seq::<char>::empty());
    }
    while i < n
        invariant
            i <= n,
            n == s@.len(),
            done <= i,
            ({
                let ws = words_of(s@.subrange(0, i as int));
                &&& (word@.len() > 0 <==> (i > 0 && !is_word_break(s@[i - 1])))
                &&& word@.len() > 0 ==> done + 1 == ws.len() && ws.last() == word@
                &&& word@.len() == 0 ==> done == ws.len()
                &&& out@ == join_title_words(ws.subrange(0, done as int))
            }),
        decreases n - i,
    {
        let c = s[i];
        let ghost pre = s@.subrange(0, i as int);
        let ghost next = s@.subrange(0, i + 1);
        proof {
            assert(next.drop_last() =~= pre);
            assert(next.last() == c);
            lemma_words_nonempty(pre);
            if i >= 1 {
                assert(next[next.len() - 2] == s@[i - 1]);
            }
        }
        if is_space(c) || c == '_' || c == '-' {
            if word.len() > 0 {
                let ghost ws = words_of(pre);
                let t = title_word(&word);
                if done > 0 {
                    push_char(&mut out, ' ');
                }
                out.append(t.as_str());
                proof {
                    let a = ws.subrange(0, done + 1);
                    assert(a.drop_last() =~= ws.subrange(0, done as int));
                    assert(a.last() == word@);
                    if done == 0 {
                        assert(out@ =~= join_title_words(a));
                    } else {
                        assert(out@ =~= join_title_words(a));
                    }
                }
                done = done + 1;
                word = Vec::new();
            }
        } else {
            word.push(c);
            proof {
                let ws = words_of(pre);
                let nws = words_of(next);
                if i >= 1 && !is_word_break(s@[i - 1]) {
                    assert(nws == ws.update(ws.len() - 1, ws.last().push(c)));
                    assert(nws.subrange(0, done as int) =~= ws.subrange(0, done as int));
                } else {
                    assert(nws == ws.push(seq![c]));
                    assert(nws.subrange(0, done as int) =~= ws.subrange(0, done as int));
                    assert(word@ =~= seq![c]);
                }
            }
        }
        i = i + 1;
    }
    assert(s@.subrange(0, n as int) =~= s@);
    if word.len() > 0 {
        let ghost ws = words_of(s@);
        let t = title_word(&word);
        if done > 0 {
            push_char(&mut out, ' ');
        }
        out.append(t.as_str());
        proof {
            let a = ws.subrange(0, done + 1);
            assert(a.drop_last() =~= ws.subrange(0, done as int));
            assert(a =~= ws);
            assert(out@ =~= join_title_words(a));
        }
    } else {
        assert(words_of(s@).subrange(0, done as int) =~= words_of(s@));
    }
    out
}

/// A human-readable title from a file stem: the track-number prefix and
/// any leading `track` are stripped, separators become spaces, and each
/// word is title-cased; `Track {n}` when only a number remains.
pub fn title_from_stem(stem: &str, track_number: u64) -> (r: String)
    ensures
        r@ == title_from_stem_of(stem@, track_number as nat),
{
    let cs = chars_of(stem);
    let n = cs.len();
    let a = strip_leading_exec(&cs, 0, 0);
    let b = strip_track_exec(&cs, a);
    let c = strip_leading_exec(&cs, b, 1);
    let d = strip_leading_exec(&cs, c, 2);
    proof {
        assert(cs@.subrange(0, n as int) =~= stem@);
    }
    let rest = copy_chars(&cs, d, n);
    let cleaned = trim_chars(&rest);
    let mut only_digits = true;
    let mut k: usize = 0;
    while k < cleaned.len()
        invariant
            k <= cleaned@.len(),
            only_digits == forall|j: int| 0 <= j < k ==> '0' <= #[trigger] cleaned@[j] && cleaned@[j] <= '9',
        decreases cleaned@.len() - k,
    {
        if !('0' <= cleaned[k] && cleaned[k] <= '9') {
            only_digits = false;
        }
        k = k + 1;
    }
    if cleaned.len() == 0 || only_digits {
        let mut out = String::from_str("Track ");
        push_decimal(&mut out, track_number);
        return out;
    }
    title_case_words(&cleaned)
}

/// A human-readable track title from the name of its audio file
/// (`01-infrastructure-hum.flac` gives `Infrastructure Hum`).
pub fn extract_track_title(path: &str, track_number: u64) -> (r: String)
    ensures
        r@ == track_title_of(path@, track_number as nat),
{
    match path_file_name(path) {
        Some(name) => {
            let st = string_of_chars(&stem(&chars_of(name.as_str())));
            title_from_stem(st.as_str(), track_number)
        },
        None => title_from_stem("Track", track_number),
    }
}

pub const TOML_0: &'static str = "# Generated by release-kit init\n# Edit this file to customize your album\n\n[album]\ntitle = \"";

pub const TOML_1: &'static str = "\"";

pub const TOML_2: &'static str = "\nartist = \"";

pub const TOML_3: &'static str = "\"";

pub const TOML_4: &'static str = "\nrelease_date = \"";

pub const TOML_5: &'static str = "\"  # TODO: Set release date\nsummary = \"Description of this album\"  # TODO: Add summary\ngenre = [\"experimental\"]  # TODO: Set genres\nlicense = \"CC BY-NC-SA 4.0\"\nliner_notes = \"notes/album.md\"\n\n[artist]\nname = \"";

pub const TOML_6: &'static str = "\"";

pub const TOML_7: &'static str = "\nrss_author_email = \"";

pub const TOML_8: &'static str = "\"";

pub const TOML_9: &'static str = "\n\n[site]\ndomain = \"my-album.example.com\"  # TODO: Set domain\ntheme = \"default\"\naccent_color = \"#ff6b35\"\n\n";

pub const TOML_NO_TRACKS: &'static str = "# Add tracks here as you add audio files\n# [[track]]\n# file = \"audio/01-track-name.flac\"\n# title = \"Track Name\"\n# duration = \"5:23\"\n# liner_notes = \"notes/track-01.md\"  # Optional\n\n";

pub const TOML_DETECTED: &'static str = "# Auto-detected tracks (edit titles/add liner notes as needed)\n";

pub const TOML_FOOTER: &'static str = "[distribution]\nstreaming_enabled = true\ndownload_enabled = false\npay_what_you_want = false\ntip_jar_enabled = false\ndownload_formats = [\"flac\", \"mp3-320\"]\n\n[hosting.cloudflare]\n# Optional: Custom subdomain for your domain (e.g., \"my-album\" -> my-album.yourdomain.com)\n# Leave empty to use the default .pages.dev domain\n# subdomain = \"my-album\"\n\n[rss]\nenabled = true\n";

pub const TOML_TRACK_0: &'static str = "[[track]]\nfile = \"audio/";

pub const TOML_TRACK_1: &'static str = "\"\ntitle = \"";

pub const TOML_TRACK_2: &'static str = "\"\n";

pub const TOML_TRACK_3: &'static str = "duration = \"";

pub const TOML_TRACK_4: &'static str = "\"  # Auto-detected\n";

pub const TOML_TRACK_5: &'static str = "# liner_notes = \"notes/track-XX.md\"  # Optional\n\n";

/// A track found while scaffolding.
pub struct ScaffoldTrack {
    /// The audio file's name.
    pub file_name: String,
    pub title: String,
    /// The detected length as `M:SS`, when the file could be read.
    pub duration: Option<String>,
}

/// The manifest entry of one detected track.
pub open spec fn track_entry_of(t: ScaffoldTrack) -> Seq<char> {
    TOML_TRACK_0@ + toml_escape_of(t.file_name@) + TOML_TRACK_1@ + toml_escape_of(t.title@)
        + TOML_TRACK_2@ + match t.duration {
        Some(d) => TOML_TRACK_3@ + d@ + TOML_TRACK_4@,
        None => Seq::empty(),
    } + TOML_TRACK_5@
}

pub open spec fn track_entries_of(ts: Seq<ScaffoldTrack>) -> Seq<char>
    decreases ts.len(),
{
    if ts.len() == 0 {
        Seq::empty()
    } else {
        track_entries_of(ts.drop_last()) + track_entry_of(ts.last())
    }
}

pub open spec fn opt_text(s: Option<&str>) -> Option<Seq<char>> {
    match s {
        Some(x) => Some(x@),
        None => None,
    }
}

pub open spec fn or_default(s: Option<Seq<char>>, d: Seq<char>) -> Seq<char> {
    match s {
        Some(x) => x,
        None => d,
    }
}

pub open spec fn todo_comment(s: Option<Seq<char>>, c: Seq<char>) -> Seq<char> {
    if s is Some {
        Seq::empty()
    } else {
        c
    }
}

/// The starting manifest of a new album: the given or placeholder names
/// and e-mail (escaped), today's date, one entry per detected track, and
/// the default distribution, hosting and feed settings.
pub open spec fn album_toml_of(
    today: Seq<char>,
    tracks: Seq<ScaffoldTrack>,
    artist: Option<Seq<char>>,
    album: Option<Seq<char>>,
    email: Option<Seq<char>>,
) -> Seq<char> {
    let artist_name = toml_escape_of(or_default(artist, "Artist Name"@));
    let artist_comment = todo_comment(artist, "  # TODO: Set artist name"@);
    TOML_0@ + toml_escape_of(or_default(album, "My Album"@)) + TOML_1@ + todo_comment(
        album,
        "  # TODO: Set album title"@,
    ) + TOML_2@ + artist_name + TOML_3@ + artist_comment + TOML_4@ + today + TOML_5@ + artist_name
        + TOML_6@ + artist_comment + TOML_7@ + toml_escape_of(
        or_default(email, "artist@example.com"@),
    ) + TOML_8@ + todo_comment(email, "  # TODO: Set email"@) + TOML_9@ + if tracks.len() == 0 {
        TOML_NO_TRACKS@
    } else {
        TOML_DETECTED@ + track_entries_of(tracks)
    } + TOML_FOOTER@
}

fn append_or(out: &mut String, s: Option<&str>, d: &str, escape: bool)
    ensures
        final(out)@ == old(out)@ + if escape {
            toml_escape_of(or_default(opt_text(s), d@))
        } else {
            todo_comment(opt_text(s), d@)
        },
{
    if escape {
        let e = match s {
            Some(x) => toml_escape_string(x),
            None => toml_escape_string(d),
        };
        out.append(e.as_str());
    } else if s.is_none() {
        out.append(d);
    }
}

/// Writes the starting manifest of a new album dated `today`. Fails when
/// an e-mail address is given that does not pass `is_valid_email`.
pub fn album_toml_text(
    today: &str,
    tracks: &Vec<ScaffoldTrack>,
    artist: Option<&str>,
    album: Option<&str>,
    email: Option<&str>,
) -> (r: Result<String, String>)
    ensures
        r is Err <==> (email is Some && !email_ok(email->Some_0@)),
        r is Ok ==> r->Ok_0@ == album_toml_of(
            today@,
            tracks@,
            opt_text(artist),
            opt_text(album),
            opt_text(email),
        ),
{
    match email {
        Some(e) => {
            if !is_valid_email(e) {
                let mut m = String::from_str("Invalid email format: '");
                m.append(e);
                m.append("'");
                return Err(m);
            }
        },
        None => {},
    }
    let mut out = String::from_str(TOML_0);
    append_or(&mut out, album, "My Album", true);
    out.append(TOML_1);
    append_or(&mut out, album, "  # TODO: Set album title", false);
    out.append(TOML_2);
    append_or(&mut out, artist, "Artist Name", true);
    out.append(TOML_3);
    append_or(&mut out, artist, "  # TODO: Set artist name", false);
    out.append(TOML_4);
    out.append(today);
    out.append(TOML_5);
    append_or(&mut out, artist, "Artist Name", true);
    out.append(TOML_6);
    append_or(&mut out, artist, "  # TODO: Set artist name", false);
    out.append(TOML_7);
    append_or(&mut out, email, "artist@example.com", true);
    out.append(TOML_8);
    append_or(&mut out, email, "  # TODO: Set email", false);
    out.append(TOML_9);
    if tracks.len() == 0 {
        out.append(TOML_NO_TRACKS);
    } else {
        out.append(TOML_DETECTED);
        let ghost head = out@;
        let mut i: usize = 0;
        while i < tracks.len()
            invariant
                i <= tracks@.len(),
                out@ == head + track_entries_of(tracks@.subrange(0, i as int)),
            decreases tracks@.len() - i,
        {
            let t = &tracks[i];
            let ghost before = out@;
            out.append(TOML_TRACK_0);
            let f = toml_escape_string(t.file_name.as_str());
            out.append(f.as_str());
            out.append(TOML_TRACK_1);
            let ti = toml_escape_string(t.title.as_str());
            out.append(ti.as_str());
            out.append(TOML_TRACK_2);
            match &t.duration {
                Some(d) => {
                    out.append(TOML_TRACK_3);
                    out.append(d.as_str());
                    out.append(TOML_TRACK_4);
                },
                None => {},
            }
            out.append(TOML_TRACK_5);
            proof {
                let s = tracks@.subrange(0, i + 1);
                assert(s.drop_last() =~= tracks@.subrange(0, i as int));
                assert(s.last() == tracks@[i as int]);
                assert(out@ =~= before + track_entry_of(tracks@[i as int]));
            }
            i = i + 1;
        }
        assert(tracks@.subrange(0, tracks@.len() as int) =~= tracks@);
    }
    out.append(TOML_FOOTER);
    Ok(out)
}

} // verus!
