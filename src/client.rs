//! What the platform client computes around its HTTP calls: the request
//! URLs, the unwrapping of the `{success, errors, result}` envelope, the
//! deployment URL in an upload's response, and the entries of a site
//! bundle.

use vstd::prelude::*;
use crate::text::{chars_of, concat, concat3, push_char};
use crate::publish::default_live_url_of;

verus! {

pub open spec fn api_base() -> Seq<char> {
    "https://api.cloudflare.com/client/v4"@
}

pub open spec fn account_url_of(account: Seq<char>) -> Seq<char> {
    api_base() + "/accounts/"@ + account
}

/// `{api}/accounts/{account}`
fn account_url(account: &str) -> (r: String)
    ensures
        r@ == account_url_of(account@),
{
    concat3("https://api.cloudflare.com/client/v4", "/accounts/", account)
}

/// `{api}/accounts/{account}/pages/projects`
pub fn projects_url(account: &str) -> (r: String)
    ensures
        r@ == account_url_of(account@) + "/pages/projects"@,
{
    let a = account_url(account);
    concat(a.as_str(), "/pages/projects")
}

/// `{api}/accounts/{account}/pages/projects/{name}`
pub fn project_url(account: &str, name: &str) -> (r: String)
    ensures
        r@ == account_url_of(account@) + "/pages/projects"@ + "/"@ + name@,
{
    let base = projects_url(account);
    concat3(base.as_str(), "/", name)
}

/// `{api}/accounts/{account}/pages/projects/{name}/deployments`
pub fn deployments_url(account: &str, name: &str) -> (r: String)
    ensures
        r@ == account_url_of(account@) + "/pages/projects"@ + "/"@ + name@ + "/deployments"@,
{
    let base = project_url(account, name);
    concat(base.as_str(), "/deployments")
}

/// `{api}/accounts/{account}/r2/buckets`
pub fn buckets_url(account: &str) -> (r: String)
    ensures
        r@ == account_url_of(account@) + "/r2/buckets"@,
{
    let a = account_url(account);
    concat(a.as_str(), "/r2/buckets")
}

/// `{api}/accounts/{account}/r2/buckets/{name}`
pub fn bucket_url(account: &str, name: &str) -> (r: String)
    ensures
        r@ == account_url_of(account@) + "/r2/buckets"@ + "/"@ + name@,
{
    let base = buckets_url(account);
    concat3(base.as_str(), "/", name)
}

/// `{api}/accounts/{account}/r2/buckets/{name}/cors`
pub fn bucket_cors_url(account: &str, name: &str) -> (r: String)
    ensures
        r@ == account_url_of(account@) + "/r2/buckets"@ + "/"@ + name@ + "/cors"@,
{
    let base = bucket_url(account, name);
    concat(base.as_str(), "/cors")
}

/// `{api}/accounts/{account}/r2/buckets/{name}/domains`
pub fn bucket_domains_url(account: &str, name: &str) -> (r: String)
    ensures
        r@ == account_url_of(account@) + "/r2/buckets"@ + "/"@ + name@ + "/domains"@,
{
    let base = bucket_url(account, name);
    concat(base.as_str(), "/domains")
}

/// `{api}/zones?name={domain}`
pub fn zone_lookup_url(domain: &str) -> (r: String)
    ensures
        r@ == api_base() + "/zones?name="@ + domain@,
{
    concat3("https://api.cloudflare.com/client/v4", "/zones?name=", domain)
}

/// `{api}/zones/{zone_id}/dns_records`
pub fn dns_records_url(zone_id: &str) -> (r: String)
    ensures
        r@ == api_base() + "/zones/"@ + zone_id@ + "/dns_records"@,
{
    let z = concat3("https://api.cloudflare.com/client/v4", "/zones/", zone_id);
    concat(z.as_str(), "/dns_records")
}

/// A failed platform call.
#[derive(Debug)]
pub enum ApiError {
    /// The envelope reported failure with this first message.
    Api(String),
    /// The envelope reported failure without a message.
    Unknown,
    /// A successful envelope without the expected result.
    MissingResult(String),
    /// The request did not complete (timeout, connection failure).
    Transport(String),
    /// A response that is not the expected JSON.
    BadResponse(String),
}

impl ApiError {
    /// The message shown to the operator.
    pub fn message(&self) -> (r: String)
        ensures
            r@ == match self {
                ApiError::Api(m) => "Cloudflare API error: "@ + m@,
                ApiError::Unknown => "Unknown Cloudflare API error"@,
                ApiError::MissingResult(w) => "No "@ + w@ + " returned from API"@,
                ApiError::Transport(m) => "request failed: "@ + m@,
                ApiError::BadResponse(m) => "unexpected response: "@ + m@,
            },
    {
        match self {
            ApiError::Api(m) => concat("Cloudflare API error: ", m.as_str()),
            ApiError::Unknown => String::from_str("Unknown Cloudflare API error"),
            ApiError::MissingResult(what) => concat3("No ", what.as_str(), " returned from API"),
            ApiError::Transport(m) => concat("request failed: ", m.as_str()),
            ApiError::BadResponse(m) => concat("unexpected response: ", m.as_str()),
        }
    }
}

/// Unwraps a response envelope. For a lookup (`lookup`), status 404 means
/// that the resource does not exist, which is no error. Otherwise a
/// failed envelope gives its first error message.
pub fn unwrap_envelope<T>(
    status: u16,
    lookup: bool,
    success: bool,
    errors: Vec<String>,
    result: Option<T>,
) -> (r: Result<Option<T>, ApiError>)
    ensures
        lookup && status == 404 ==> r == Ok::<Option<T>, ApiError>(None),
        !(lookup && status == 404) && success ==> r == Ok::<Option<T>, ApiError>(result),
        !(lookup && status == 404) && !success && errors@.len() > 0 ==> r is Err && r->Err_0 is Api
            && r->Err_0->Api_0@ == errors@[0]@,
        !(lookup && status == 404) && !success && errors@.len() == 0 ==> r is Err && r->Err_0
            is Unknown,
{
    if lookup && status == 404 {
        return Ok(None);
    }
    if !success {
        if errors.len() > 0 {
            return Err(ApiError::Api(errors[0].clone()));
        }
        return Err(ApiError::Unknown);
    }
    Ok(result)
}

/// The result of a call that must return one, or an error naming `what`.
pub fn required<T>(result: Option<T>, what: &str) -> (r: Result<T, ApiError>)
    ensures
        result is Some ==> r == Ok::<T, ApiError>(result->Some_0),
        result is None ==> r is Err && r->Err_0 is MissingResult && r->Err_0->MissingResult_0@
            == what@,
{
    match result {
        Some(v) => Ok(v),
        None => Err(ApiError::MissingResult(String::from_str(what))),
    }
}

/// What the JSON text of a deployment response holds at `result.url`:
/// `None` when the text is not JSON, `Some(None)` when it is but has no
/// such string.
pub uninterp spec fn result_url_of(text: Seq<char>) -> Option<Option<Seq<char>>>;

/// Relies on `serde_json::from_str` to parse the text into a
/// `serde_json::Value`, and on `Value::get` and `Value::as_str` to read the
/// string at `result.url`; all three depend on their arguments alone.
#[verifier::external_body]
fn read_result_url(text: &str) -> (r: Option<Option<String>>)
    ensures
        match r {
            None => result_url_of(text@) is None,
            Some(None) => result_url_of(text@) == Some(None::<Seq<char>>),
            Some(Some(u)) => result_url_of(text@) == Some(Some(u@)),
        },
{
    let v: serde_json::Value = match serde_json::from_str(text) {
        Ok(v) => v,
        Err(_) => return None,
    };
    Some(v.get("result").and_then(|r| r.get("url")).and_then(|u| u.as_str()).map(|u| u.to_string()))
}

/// The live URL of a deployment from what its response held at
/// `result.url`: that URL, or `https://{project}.pages.dev` when absent.
pub fn live_url_from(found: Option<String>, project: &str) -> (r: String)
    ensures
        r@ == match found {
            Some(u) => u@,
            None => default_live_url_of(project@),
        },
{
    match found {
        Some(u) => u,
        None => concat3("https://", project, ".pages.dev"),
    }
}

/// The live URL reported by a successful site upload, whose response body
/// is `text`.
pub fn deployment_url(text: &str, project: &str) -> (r: Result<String, ApiError>)
    ensures
        r is Err <==> result_url_of(text@) is None,
        r is Ok ==> r->Ok_0@ == match result_url_of(text@)->Some_0 {
            Some(u) => u,
            None => default_live_url_of(project@),
        },
{
    match read_result_url(text) {
        None => Err(ApiError::BadResponse(String::from_str("the deployment response is not JSON"))),
        Some(found) => Ok(live_url_from(found, project)),
    }
}

/// The content type that `mime_guess` finds for a path by its extension.
pub uninterp spec fn mime_of(path: Seq<char>) -> Seq<char>;

/// Relies on `mime_guess::from_path` and `MimeGuess::first_or_octet_stream`:
/// a guess from the path's extension alone, with no access to the disk.
#[verifier::external_body]
fn guess_mime(path: &str) -> (r: String)
    ensures
        r@ == mime_of(path@),
{
    mime_guess::from_path(path).first_or_octet_stream().to_string()
}

/// The SHA-256 digest of some bytes, as 64 lower-case hexadecimal digits.
pub uninterp spec fn sha256_hex_of(content: Seq<u8>) -> Seq<char>;

/// Relies on `sha2::Sha256::digest` for the digest of the bytes, a function
/// of the bytes alone, written out in lower-case hexadecimal.
#[verifier::external_body]
fn sha256_hex(content: &[u8]) -> (r: String)
    ensures
        r@ == sha256_hex_of(content@),
{
    format!("{:x}", <sha2::Sha256 as sha2::Digest>::digest(content))
}

/// `p` with each `\` turned into `/`.
pub open spec fn forward_slashes_of(p: Seq<char>) -> Seq<char> {
    p.map_values(|c: char| if c == '\\' { '/' } else { c })
}

/// One file of a site bundle.
#[derive(Clone, Debug)]
pub struct SiteFile {
    /// Path relative to the bundle's root, with `/` separators.
    pub name: String,
    pub content_type: String,
    /// The manifest's hash entry: the SHA-256 digest of the file's content.
    pub hash: String,
}

/// The bundle entry of a file, given the content type and the content hash
/// found for it.
pub fn site_file_with(relative_path: &str, content_type: String, hash: String) -> (r: SiteFile)
    ensures
        r.name@ == forward_slashes_of(relative_path@),
        r.content_type == content_type,
        r.hash == hash,
{
    let cs = chars_of(relative_path);
    let mut name = String::new();
    let mut i: usize = 0;
    while i < cs.len()
        invariant
            i <= cs@.len(),
            cs@ == relative_path@,
            name@ == forward_slashes_of(relative_path@).subrange(0, i as int),
        decreases cs@.len() - i,
    {
        let c = cs[i];
        push_char(&mut name, if c == '\\' { '/' } else { c });
        i = i + 1;
        assert(name@ =~= forward_slashes_of(relative_path@).subrange(0, i as int));
    }
    assert(forward_slashes_of(relative_path@).subrange(0, cs@.len() as int) =~= forward_slashes_of(
        relative_path@,
    ));
    SiteFile { name, content_type, hash }
}

/// The bundle entry of the file at `relative_path` holding `content`: its
/// name with `/` separators, the content type of its extension, and the
/// digest of its content.
pub fn site_file(relative_path: &str, content: &[u8]) -> (r: SiteFile)
    ensures
        r.name@ == forward_slashes_of(relative_path@),
        r.content_type@ == mime_of(relative_path@),
        r.hash@ == sha256_hex_of(content@),
{
    let t = guess_mime(relative_path);
    let h = sha256_hex(content);
    site_file_with(relative_path, t, h)
}

/// Whether an HTTP status reports success (200 to 299).
pub fn upload_succeeded(status: u16) -> (r: bool)
    ensures
        r == (200 <= status && status <= 299),
{
    200 <= status && status <= 299
}

/// The access policy given to a new audio bucket.
pub struct CorsPolicy {
    pub allowed_origins: Vec<String>,
    pub allowed_methods: Vec<String>,
    pub allowed_headers: Vec<String>,
    pub max_age_seconds: u32,
}

/// GET and HEAD from any origin, with any header, cached for an hour.
pub fn public_read_policy() -> (r: CorsPolicy)
    ensures
        r.allowed_origins@.len() == 1 && r.allowed_origins@[0]@ == "*"@,
        r.allowed_methods@.len() == 2 && r.allowed_methods@[0]@ == "GET"@
            && r.allowed_methods@[1]@ == "HEAD"@,
        r.allowed_headers@.len() == 1 && r.allowed_headers@[0]@ == "*"@,
        r.max_age_seconds == 3600,
{
    CorsPolicy {
        allowed_origins: vec![String::from_str("*")],
        allowed_methods: vec![String::from_str("GET"), String::from_str("HEAD")],
        allowed_headers: vec![String::from_str("*")],
        max_age_seconds: 3600,
    }
}

/// A DNS record to create.
pub struct DnsRecordSpec {
    pub record_type: String,
    pub name: String,
    pub content: String,
    pub proxied: bool,
}

/// A proxied CNAME record pointing `name` at `target`.
pub fn cname_record(name: &str, target: &str) -> (r: DnsRecordSpec)
    ensures
        r.record_type@ == "CNAME"@,
        r.name@ == name@,
        r.content@ == target@,
        r.proxied,
{
    DnsRecordSpec {
        record_type: String::from_str("CNAME"),
        name: String::from_str(name),
        content: String::from_str(target),
        proxied: true,
    }
}

} // verus!
