//! The platform credentials kept in the per-user configuration, and the
//! checks each field passes before it is saved.

use vstd::prelude::*;
use crate::text::{chars_of, concat3, is_ascii_alnum, is_ascii_digit, string_of_chars};

verus! {

/// The per-user deployment configuration.
#[derive(Clone, Debug)]
pub struct GlobalConfig {
    pub cloudflare: CloudflareConfig,
}

/// Platform credentials and the optional base domain.
#[derive(Clone, Debug)]
pub struct CloudflareConfig {
    pub api_token: String,
    pub account_id: String,
    pub base_domain: Option<String>,
    pub r2_access_key_id: String,
    pub r2_secret_access_key: String,
}

/// Why a credential field was refused.
#[derive(Debug)]
pub enum CredentialError {
    TokenEmpty,
    TokenTooShort,
    TokenInvalidCharacters,
    AccountIdEmpty,
    AccountIdWrongLength,
    AccountIdNotHex,
    DomainEmpty,
    DomainNoDot,
    DomainDotAtEdge,
    DomainHyphenAtEdge,
    DomainInvalidCharacters,
    DomainConsecutiveDots,
    DomainLabelTooLong(String),
    DomainLabelHyphen(String),
    AccessKeyEmpty,
    AccessKeyTooShort,
    AccessKeyNotAlphanumeric,
}

impl CredentialError {
    /// The message shown to the operator.
    pub fn message(&self) -> (r: String)
        ensures
            r@ == match self {
                CredentialError::TokenEmpty => "API token cannot be empty"@,
                CredentialError::TokenTooShort => "API token appears too short (expected 40+ characters)"@,
                CredentialError::TokenInvalidCharacters => "API token contains invalid characters"@,
                CredentialError::AccountIdEmpty => "Account ID cannot be empty"@,
                CredentialError::AccountIdWrongLength => "Account ID must be exactly 32 characters"@,
                CredentialError::AccountIdNotHex => "Account ID must be hexadecimal (0-9, a-f)"@,
                CredentialError::DomainEmpty => "Domain cannot be empty"@,
                CredentialError::DomainNoDot => "Domain must contain at least one dot (e.g., example.com)"@,
                CredentialError::DomainDotAtEdge => "Domain cannot start or end with a dot"@,
                CredentialError::DomainHyphenAtEdge => "Domain cannot start or end with a hyphen"@,
                CredentialError::DomainInvalidCharacters => "Domain contains invalid characters (only a-z, 0-9, '.', '-' allowed)"@,
                CredentialError::DomainConsecutiveDots => "Domain cannot have consecutive dots"@,
                CredentialError::DomainLabelTooLong(l) => "Domain label '"@ + l@ + "' is too long (max 63 characters)"@,
                CredentialError::DomainLabelHyphen(l) => "Domain label '"@ + l@ + "' cannot start or end with hyphen"@,
                CredentialError::AccessKeyEmpty => "R2 access key cannot be empty"@,
                CredentialError::AccessKeyTooShort => "R2 access key appears too short"@,
                CredentialError::AccessKeyNotAlphanumeric => "R2 access key should only contain alphanumeric characters"@,
            },
    {
        match self {
            CredentialError::TokenEmpty => String::from_str("API token cannot be empty"),
            CredentialError::TokenTooShort => String::from_str(
                "API token appears too short (expected 40+ characters)",
            ),
            CredentialError::TokenInvalidCharacters => String::from_str(
                "API token contains invalid characters",
            ),
            CredentialError::AccountIdEmpty => String::from_str("Account ID cannot be empty"),
            CredentialError::AccountIdWrongLength => String::from_str(
                "Account ID must be exactly 32 characters",
            ),
            CredentialError::AccountIdNotHex => String::from_str(
                "Account ID must be hexadecimal (0-9, a-f)",
            ),
            CredentialError::DomainEmpty => String::from_str("Domain cannot be empty"),
            CredentialError::DomainNoDot => String::from_str(
                "Domain must contain at least one dot (e.g., example.com)",
            ),
            CredentialError::DomainDotAtEdge => String::from_str(
                "Domain cannot start or end with a dot",
            ),
            CredentialError::DomainHyphenAtEdge => String::from_str(
                "Domain cannot start or end with a hyphen",
            ),
            CredentialError::DomainInvalidCharacters => String::from_str(
                "Domain contains invalid characters (only a-z, 0-9, '.', '-' allowed)",
            ),
            CredentialError::DomainConsecutiveDots => String::from_str(
                "Domain cannot have consecutive dots",
            ),
            CredentialError::DomainLabelTooLong(l) => concat3(
                "Domain label '",
                l.as_str(),
                "' is too long (max 63 characters)",
            ),
            CredentialError::DomainLabelHyphen(l) => concat3(
                "Domain label '",
                l.as_str(),
                "' cannot start or end with hyphen",
            ),
            CredentialError::AccessKeyEmpty => String::from_str("R2 access key cannot be empty"),
            CredentialError::AccessKeyTooShort => String::from_str(
                "R2 access key appears too short",
            ),
            CredentialError::AccessKeyNotAlphanumeric => String::from_str(
                "R2 access key should only contain alphanumeric characters",
            ),
        }
    }
}

pub open spec fn is_token_char(c: char) -> bool {
    is_ascii_alnum(c) || c == '_' || c == '-'
}

pub open spec fn is_hex_char(c: char) -> bool {
    is_ascii_digit(c) || ('a' <= c && c <= 'f') || ('A' <= c && c <= 'F')
}

pub open spec fn is_domain_char(c: char) -> bool {
    is_ascii_alnum(c) || c == '.' || c == '-'
}

pub open spec fn all_chars(s: Seq<char>, f: spec_fn(char) -> bool) -> bool {
    forall|i: int| 0 <= i < s.len() ==> f(#[trigger] s[i])
}

/// Whether every character of `s` passes `f`, by a scan.
fn every_char(cs: &Vec<char>, kind: u8) -> (r: bool)
    requires
        kind <= 3,
    ensures
        r == all_chars(cs@, char_class(kind)),
{
    let mut i: usize = 0;
    while i < cs.len()
        invariant
            i <= cs@.len(),
            kind <= 3,
            forall|j: int| 0 <= j < i ==> char_class(kind)(#[trigger] cs@[j]),
        decreases cs@.len() - i,
    {
        let c = cs[i];
        let ok = if kind == 0 {
            ('0' <= c && c <= '9') || ('a' <= c && c <= 'z') || ('A' <= c && c <= 'Z') || c == '_'
                || c == '-'
        } else if kind == 1 {
            ('0' <= c && c <= '9') || ('a' <= c && c <= 'f') || ('A' <= c && c <= 'F')
        } else if kind == 2 {
            ('0' <= c && c <= '9') || ('a' <= c && c <= 'z') || ('A' <= c && c <= 'Z') || c == '.'
                || c == '-'
        } else {
            ('0' <= c && c <= '9') || ('a' <= c && c <= 'z') || ('A' <= c && c <= 'Z')
        };
        if !ok {
            return false;
        }
        i = i + 1;
    }
    true
}

/// The character classes that `every_char` checks.
pub open spec fn char_class(kind: u8) -> spec_fn(char) -> bool {
    if kind == 0 {
        |c: char| is_token_char(c)
    } else if kind == 1 {
        |c: char| is_hex_char(c)
    } else if kind == 2 {
        |c: char| is_domain_char(c)
    } else {
        |c: char| is_ascii_alnum(c)
    }
}

/// Checks the shape of an API token: at least 20 bytes of ASCII letters,
/// digits, `_` and `-`.
pub fn validate_api_token(token: &str) -> (r: Result<(), CredentialError>)
    ensures
        token@.len() == 0 ==> r == Err::<(), CredentialError>(CredentialError::TokenEmpty),
        token@.len() > 0 && token.len() < 20 ==> r == Err::<(), CredentialError>(
            CredentialError::TokenTooShort,
        ),
        token@.len() > 0 && token.len() >= 20 && !all_chars(token@, |c: char| is_token_char(c))
            ==> r == Err::<(), CredentialError>(CredentialError::TokenInvalidCharacters),
        r is Ok <==> token@.len() > 0 && token.len() >= 20 && all_chars(
            token@,
            |c: char| is_token_char(c),
        ),
{
    if token.is_empty() {
        return Err(CredentialError::TokenEmpty);
    }
    if token.len() < 20 {
        return Err(CredentialError::TokenTooShort);
    }
    let cs = chars_of(token);
    if !every_char(&cs, 0) {
        return Err(CredentialError::TokenInvalidCharacters);
    }
    Ok(())
}

/// Checks the shape of an account id: exactly 32 bytes of hexadecimal
/// digits.
pub fn validate_account_id(account_id: &str) -> (r: Result<(), CredentialError>)
    ensures
        account_id@.len() == 0 ==> r == Err::<(), CredentialError>(CredentialError::AccountIdEmpty),
        account_id@.len() > 0 && account_id.len() != 32 ==> r == Err::<(), CredentialError>(
            CredentialError::AccountIdWrongLength,
        ),
        account_id@.len() > 0 && account_id.len() == 32 && !all_chars(
            account_id@,
            |c: char| is_hex_char(c),
        ) ==> r == Err::<(), CredentialError>(CredentialError::AccountIdNotHex),
        r is Ok <==> account_id@.len() > 0 && account_id.len() == 32 && all_chars(
            account_id@,
            |c: char| is_hex_char(c),
        ),
{
    if account_id.is_empty() {
        return Err(CredentialError::AccountIdEmpty);
    }
    if account_id.len() != 32 {
        return Err(CredentialError::AccountIdWrongLength);
    }
    let cs = chars_of(account_id);
    if !every_char(&cs, 1) {
        return Err(CredentialError::AccountIdNotHex);
    }
    Ok(())
}

/// Checks the shape of an object-storage access key: at least 10 bytes of
/// ASCII letters and digits.
pub fn validate_r2_access_key(key: &str) -> (r: Result<(), CredentialError>)
    ensures
        key@.len() == 0 ==> r == Err::<(), CredentialError>(CredentialError::AccessKeyEmpty),
        key@.len() > 0 && key.len() < 10 ==> r == Err::<(), CredentialError>(
            CredentialError::AccessKeyTooShort,
        ),
        key@.len() > 0 && key.len() >= 10 && !all_chars(key@, |c: char| is_ascii_alnum(c)) ==> r
            == Err::<(), CredentialError>(CredentialError::AccessKeyNotAlphanumeric),
        r is Ok <==> key@.len() > 0 && key.len() >= 10 && all_chars(
            key@,
            |c: char| is_ascii_alnum(c),
        ),
{
    if key.is_empty() {
        return Err(CredentialError::AccessKeyEmpty);
    }
    if key.len() < 10 {
        return Err(CredentialError::AccessKeyTooShort);
    }
    let cs = chars_of(key);
    if !every_char(&cs, 3) {
        return Err(CredentialError::AccessKeyNotAlphanumeric);
    }
    Ok(())
}

/// End of the label that starts at `start`: the next dot, or the end.
pub open spec fn label_end(d: Seq<char>, start: int) -> int
    decreases d.len() - start,
{
    if start >= d.len() {
        d.len() as int
    } else if d[start] == '.' {
        start
    } else {
        label_end(d, start + 1)
    }
}

proof fn lemma_label_end_bounds(d: Seq<char>, start: int)
    requires
        0 <= start <= d.len(),
    ensures
        start <= label_end(d, start) <= d.len(),
        label_end(d, start) < d.len() ==> d[label_end(d, start)] == '.',
        forall|k: int| start <= k < label_end(d, start) ==> d[k] != '.',
    decreases d.len() - start,
{
    if start < d.len() && d[start] != '.' {
        lemma_label_end_bounds(d, start + 1);
    }
}

/// The first bad label from `start` on: 0 for an empty one, 1 for one over
/// 63 characters, 2 for one that starts or ends with a hyphen.
pub open spec fn label_problem_from(d: Seq<char>, start: int) -> Option<(int, Seq<char>)>
    decreases d.len() - start,
    when 0 <= start <= d.len()
{
    let end = label_end(d, start);
    let label = d.subrange(start, end);
    if !(start <= end <= d.len()) {
        None
    } else if label.len() == 0 {
        Some((0, label))
    } else if label.len() > 63 {
        Some((1, label))
    } else if label[0] == '-' || label.last() == '-' {
        Some((2, label))
    } else if end >= d.len() {
        None
    } else {
        label_problem_from(d, end + 1)
    }
}

/// Which check a domain fails first, if any.
pub open spec fn domain_problem(d: Seq<char>) -> Option<(int, Seq<char>)> {
    if d.len() == 0 {
        Some((10, Seq::empty()))
    } else if !(exists|i: int| 0 <= i < d.len() && d[i] == '.') {
        Some((11, Seq::empty()))
    } else if d[0] == '.' || d.last() == '.' {
        Some((12, Seq::empty()))
    } else if d[0] == '-' || d.last() == '-' {
        Some((13, Seq::empty()))
    } else if !all_chars(d, |c: char| is_domain_char(c)) {
        Some((14, Seq::empty()))
    } else {
        label_problem_from(d, 0)
    }
}

/// The error a domain problem is reported as.
pub open spec fn domain_error_fits(p: (int, Seq<char>), e: CredentialError) -> bool {
    match e {
        CredentialError::DomainEmpty => p.0 == 10,
        CredentialError::DomainNoDot => p.0 == 11,
        CredentialError::DomainDotAtEdge => p.0 == 12,
        CredentialError::DomainHyphenAtEdge => p.0 == 13,
        CredentialError::DomainInvalidCharacters => p.0 == 14,
        CredentialError::DomainConsecutiveDots => p.0 == 0,
        CredentialError::DomainLabelTooLong(l) => p.0 == 1 && l@ == p.1,
        CredentialError::DomainLabelHyphen(l) => p.0 == 2 && l@ == p.1,
        _ => false,
    }
}

/// Checks a base domain against the basic DNS rules: ASCII letters, digits,
/// dots and hyphens; at least one dot; non-empty labels of at most 63
/// characters that neither start nor end with a hyphen.
pub fn validate_domain(domain: &str) -> (r: Result<(), CredentialError>)
    ensures
        r is Ok <==> domain_problem(domain@) is None,
        r is Err ==> domain_error_fits(domain_problem(domain@)->Some_0, r->Err_0),
{
    let cs = chars_of(domain);
    let n = cs.len();
    if n == 0 {
        return Err(CredentialError::DomainEmpty);
    }
    let mut has_dot = false;
    let mut i: usize = 0;
    while i < n
        invariant
            i <= n,
            n == cs@.len(),
            has_dot == exists|j: int| 0 <= j < i && cs@[j] == '.',
        decreases n - i,
    {
        if cs[i] == '.' {
            has_dot = true;
        }
        i = i + 1;
    }
    if !has_dot {
        return Err(CredentialError::DomainNoDot);
    }
    if cs[0] == '.' || cs[n - 1] == '.' {
        return Err(CredentialError::DomainDotAtEdge);
    }
    if cs[0] == '-' || cs[n - 1] == '-' {
        return Err(CredentialError::DomainHyphenAtEdge);
    }
    if !every_char(&cs, 2) {
        return Err(CredentialError::DomainInvalidCharacters);
    }
    let ghost d = cs@;
    let mut start: usize = 0;
    loop
        invariant
            start <= n,
            n == cs@.len(),
            d == cs@,
            d == domain@,
            domain_problem(d) == label_problem_from(d, 0),
            label_problem_from(d, 0) == label_problem_from(d, start as int),
        decreases n - start,
    {
        let mut end: usize = start;
        while end < n && cs[end] != '.'
            invariant
                start <= end <= n,
                n == cs@.len(),
                d == cs@,
                label_end(d, start as int) == label_end(d, end as int),
            decreases n - end,
        {
            end = end + 1;
        }
        let len = end - start;
        if len == 0 {
            return Err(CredentialError::DomainConsecutiveDots);
        }
        if len > 63 || cs[start] == '-' || cs[end - 1] == '-' {
            let mut label: Vec<char> = Vec::new();
            let mut k: usize = start;
            while k < end
                invariant
                    start <= k <= end <= n,
                    n == cs@.len(),
                    label@ == cs@.subrange(start as int, k as int),
                decreases end - k,
            {
                label.push(cs[k]);
                k = k + 1;
                assert(label@ =~= cs@.subrange(start as int, k as int));
            }
            let text = string_of_chars(&label);
            if len > 63 {
                return Err(CredentialError::DomainLabelTooLong(text));
            }
            return Err(CredentialError::DomainLabelHyphen(text));
        }
        if end == n {
            return Ok(());
        }
        start = end + 1;
    }
}

} // verus!
