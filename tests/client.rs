use release_kit::client::{
    bucket_cors_url, bucket_domains_url, bucket_url, buckets_url, deployment_url,
    deployments_url, dns_records_url, live_url_from, project_url, projects_url, required,
    site_file, site_file_with, unwrap_envelope, zone_lookup_url, ApiError, cname_record,
    public_read_policy, upload_succeeded,
};

#[test]
fn request_urls() {
    let api = "https://api.cloudflare.com/client/v4";
    assert_eq!(projects_url("acc"), format!("{}/accounts/acc/pages/projects", api));
    assert_eq!(project_url("acc", "p"), format!("{}/accounts/acc/pages/projects/p", api));
    assert_eq!(
        deployments_url("acc", "p"),
        format!("{}/accounts/acc/pages/projects/p/deployments", api)
    );
    assert_eq!(buckets_url("acc"), format!("{}/accounts/acc/r2/buckets", api));
    assert_eq!(bucket_url("acc", "b"), format!("{}/accounts/acc/r2/buckets/b", api));
    assert_eq!(bucket_cors_url("acc", "b"), format!("{}/accounts/acc/r2/buckets/b/cors", api));
    assert_eq!(
        bucket_domains_url("acc", "b"),
        format!("{}/accounts/acc/r2/buckets/b/domains", api)
    );
    assert_eq!(zone_lookup_url("example.com"), format!("{}/zones?name=example.com", api));
    assert_eq!(dns_records_url("z1"), format!("{}/zones/z1/dns_records", api));
}

#[test]
fn envelope_unwrapping() {
    assert!(matches!(unwrap_envelope::<u8>(404, true, false, vec![], None), Ok(None)));
    assert!(matches!(unwrap_envelope(200, true, true, vec![], Some(7u8)), Ok(Some(7))));
    match unwrap_envelope::<u8>(404, false, false, vec!["first".into(), "second".into()], None) {
        Err(ApiError::Api(m)) => assert_eq!(m, "first"),
        other => panic!("{:?}", other),
    }
    assert!(matches!(
        unwrap_envelope::<u8>(500, true, false, vec![], None),
        Err(ApiError::Unknown)
    ));
    assert_eq!(ApiError::Api("x".into()).message(), "Cloudflare API error: x");
}

#[test]
fn required_results() {
    assert_eq!(required(Some(3), "project").unwrap(), 3);
    match required::<u8>(None, "project") {
        Err(e) => assert_eq!(e.message(), "No project returned from API"),
        Ok(_) => panic!(),
    }
}

#[test]
fn deployment_urls() {
    assert_eq!(
        deployment_url(r#"{"result":{"url":"https://x.p.pages.dev"}}"#, "p").unwrap(),
        "https://x.p.pages.dev"
    );
    assert_eq!(deployment_url(r#"{"result":{}}"#, "p").unwrap(), "https://p.pages.dev");
    assert_eq!(deployment_url(r#"{"result":{"url":5}}"#, "p").unwrap(), "https://p.pages.dev");
    assert!(deployment_url("not json", "p").is_err());
    assert_eq!(live_url_from(None, "q"), "https://q.pages.dev");
}

#[test]
fn site_files() {
    let f = site_file("assets\\index.html", b"abc");
    assert_eq!(f.name, "assets/index.html");
    assert_eq!(f.content_type, "text/html");
    assert_eq!(f.hash, "ba7816bf8f01cfea414140de5dae2223b00361a396177a9cb410ff61f20015ad");
    let g = site_file("player.js", b"");
    assert_eq!(g.content_type, "text/javascript");
    assert_eq!(g.hash, "e3b0c44298fc1c149afbf4c8996fb92427ae41e4649b934ca495991b7852b855");
    let h = site_file("data.unknownext", b"abd");
    assert_eq!(h.content_type, "application/octet-stream");
    assert_ne!(h.hash, f.hash);
    let k = site_file_with("a\\b.css", "text/css".to_string(), "x".to_string());
    assert_eq!(k.name, "a/b.css");
    assert_eq!(k.hash, "x");
}

#[test]
fn request_shapes() {
    assert!(upload_succeeded(200) && upload_succeeded(299));
    assert!(!upload_succeeded(199) && !upload_succeeded(300) && !upload_succeeded(404));
    let p = public_read_policy();
    assert_eq!(p.allowed_origins, vec!["*".to_string()]);
    assert_eq!(p.allowed_methods, vec!["GET".to_string(), "HEAD".to_string()]);
    assert_eq!(p.allowed_headers, vec!["*".to_string()]);
    assert_eq!(p.max_age_seconds, 3600);
    let r = cname_record("a.example.com", "p.pages.dev");
    assert_eq!(r.record_type, "CNAME");
    assert_eq!(r.name, "a.example.com");
    assert_eq!(r.content, "p.pages.dev");
    assert!(r.proxied);
}

#[test]
fn error_messages() {
    assert_eq!(ApiError::Unknown.message(), "Unknown Cloudflare API error");
    assert_eq!(ApiError::MissingResult("bucket".into()).message(), "No bucket returned from API");
    assert_eq!(ApiError::Transport("timeout".into()).message(), "request failed: timeout");
    assert_eq!(ApiError::BadResponse("eof".into()).message(), "unexpected response: eof");
}
