use release_kit::publish::{PublishAction, PublishError, PublishEvent, PublishState};
use release_kit::upload::FailedUpload;

fn state(base: Option<&str>, sub: Option<&str>) -> PublishState {
    PublishState::new(
        "Artist Name",
        "My Album",
        "0123456789abcdef0123456789abcdef",
        base.map(|s| s.to_string()),
        sub.map(|s| s.to_string()),
    )
    .unwrap()
}

fn is_create_project(a: &PublishAction) -> bool {
    matches!(a, PublishAction::CreateProject { .. })
}

#[test]
fn invalid_names_are_refused_before_any_call() {
    let r = PublishState::new("!!!", "???", "acc", None, None);
    assert!(matches!(r, Err(PublishError::InvalidProjectName)));
    assert!(PublishState::new("", "", "acc", None, None).is_err());
    assert!(PublishState::new("!!!", "Album", "acc", None, None).is_ok());
}

#[test]
fn publish_to_new_project_and_bucket() {
    let mut s = state(None, None);
    match s.start() {
        PublishAction::LookupProject { name } => assert_eq!(name, "artist-name-my-album"),
        other => panic!("{:?}", other),
    }
    match s.step(PublishEvent::Exists(false)) {
        PublishAction::LookupBucket { name } => assert_eq!(name, "artist-name-my-album-audio"),
        other => panic!("{:?}", other),
    }
    assert!(matches!(s.step(PublishEvent::Exists(false)), PublishAction::CreateBucket { .. }));
    assert!(matches!(s.step(PublishEvent::Done), PublishAction::UploadTracks { .. }));
    assert!(matches!(
        s.step(PublishEvent::UploadsJoined(Vec::new())),
        PublishAction::ConfigurePublicAccess { .. }
    ));
    assert!(matches!(
        s.step(PublishEvent::Failed("cors refused".into())),
        PublishAction::VerifyBucket { .. }
    ));
    match s.step(PublishEvent::Exists(true)) {
        PublishAction::BuildSite { asset_base_url } => assert_eq!(
            asset_base_url,
            "https://pub-0123456789abcdef0123456789abcdef.r2.dev"
        ),
        other => panic!("{:?}", other),
    }
    assert!(is_create_project(&s.step(PublishEvent::Done)));
    assert!(matches!(s.step(PublishEvent::Done), PublishAction::UploadSite { .. }));
    match s.step(PublishEvent::Deployed(None)) {
        PublishAction::Finish { outcome } => {
            assert_eq!(outcome.live_url, "https://artist-name-my-album.pages.dev");
            assert_eq!(outcome.custom_domain, None);
            assert_eq!(outcome.warnings, vec!["public access configuration failed: cors refused".to_string()]);
        }
        other => panic!("{:?}", other),
    }
}

#[test]
fn existing_project_is_not_created_again() {
    let mut s = state(None, None);
    s.start();
    s.step(PublishEvent::Exists(true));
    s.step(PublishEvent::Exists(true));
    assert!(matches!(
        s.step(PublishEvent::UploadsJoined(Vec::new())),
        PublishAction::VerifyBucket { .. }
    ));
    s.step(PublishEvent::Exists(true));
    let a = s.step(PublishEvent::Done);
    assert!(!is_create_project(&a));
    assert!(matches!(a, PublishAction::UploadSite { .. }));
    let a = s.step(PublishEvent::Done);
    assert!(!is_create_project(&a));
}

#[test]
fn created_project_is_not_created_twice() {
    let mut s = state(None, None);
    s.start();
    s.step(PublishEvent::Exists(false));
    s.step(PublishEvent::Exists(true));
    s.step(PublishEvent::UploadsJoined(Vec::new()));
    s.step(PublishEvent::Exists(true));
    assert!(is_create_project(&s.step(PublishEvent::Done)));
    assert!(matches!(s.step(PublishEvent::Done), PublishAction::UploadSite { .. }));
    assert!(s.control.project_exists);
}

#[test]
fn failed_uploads_abort_with_every_track() {
    let mut s = state(None, None);
    s.start();
    s.step(PublishEvent::Exists(true));
    s.step(PublishEvent::Exists(true));
    let failed = vec![FailedUpload { track: "03-c.flac".into(), error: "timeout".into() }];
    match s.step(PublishEvent::UploadsJoined(failed)) {
        PublishAction::Abort { error: PublishError::UploadsFailed(list) } => {
            assert_eq!(list.len(), 1);
            assert_eq!(list[0].track, "03-c.flac");
        }
        other => panic!("{:?}", other),
    }
}

fn to_site_upload(s: &mut PublishState) {
    s.start();
    s.step(PublishEvent::Exists(true));
    s.step(PublishEvent::Exists(true));
    s.step(PublishEvent::UploadsJoined(Vec::new()));
}

#[test]
fn dns_record_failure_still_finishes_with_a_warning() {
    let mut s = state(Some("example.com"), Some("my-album"));
    to_site_upload(&mut s);
    match s.step(PublishEvent::Exists(true)) {
        PublishAction::AddCustomDomain { bucket, domain } => {
            assert_eq!(bucket, "artist-name-my-album-audio");
            assert_eq!(domain, "artist-name-my-album-audio.example.com");
        }
        other => panic!("{:?}", other),
    }
    assert!(matches!(s.step(PublishEvent::Done), PublishAction::LookupZone { .. }));
    match s.step(PublishEvent::ZoneFound(Some("zone1".into()))) {
        PublishAction::CreateDnsRecord { zone_id, name, target } => {
            assert_eq!(zone_id, "zone1");
            assert_eq!(name, "artist-name-my-album-audio.example.com");
            assert_eq!(target, "0123456789abcdef0123456789abcdef.r2.cloudflarestorage.com");
        }
        other => panic!("{:?}", other),
    }
    match s.step(PublishEvent::Done) {
        PublishAction::BuildSite { asset_base_url } => {
            assert_eq!(asset_base_url, "https://artist-name-my-album-audio.example.com")
        }
        other => panic!("{:?}", other),
    }
    assert!(matches!(s.step(PublishEvent::Done), PublishAction::UploadSite { .. }));
    assert!(matches!(
        s.step(PublishEvent::Deployed(Some("https://abc.artist-name-my-album.pages.dev".into()))),
        PublishAction::LookupZone { .. }
    ));
    match s.step(PublishEvent::ZoneFound(Some("zone1".into()))) {
        PublishAction::CreateDnsRecord { name, target, .. } => {
            assert_eq!(name, "my-album.example.com");
            assert_eq!(target, "artist-name-my-album.pages.dev");
        }
        other => panic!("{:?}", other),
    }
    match s.step(PublishEvent::Failed("record exists".into())) {
        PublishAction::Finish { outcome } => {
            assert_eq!(outcome.live_url, "https://abc.artist-name-my-album.pages.dev");
            assert_eq!(outcome.custom_domain.as_deref(), Some("https://my-album.example.com"));
            assert_eq!(outcome.warnings, vec!["DNS record creation failed: record exists".to_string()]);
        }
        other => panic!("{:?}", other),
    }
}

#[test]
fn cdn_dns_failure_falls_back_to_default_assets() {
    let mut s = state(Some("example.com"), None);
    to_site_upload(&mut s);
    s.step(PublishEvent::Exists(true));
    s.step(PublishEvent::Done);
    s.step(PublishEvent::ZoneFound(Some("z".into())));
    match s.step(PublishEvent::Failed("denied".into())) {
        PublishAction::BuildSite { asset_base_url } => assert_eq!(
            asset_base_url,
            "https://pub-0123456789abcdef0123456789abcdef.r2.dev"
        ),
        other => panic!("{:?}", other),
    }
    assert_eq!(s.warnings.len(), 1);
}

#[test]
fn fatal_failures_abort() {
    let mut s = state(None, None);
    s.start();
    match s.step(PublishEvent::Failed("forbidden".into())) {
        PublishAction::Abort { error: PublishError::Remote(m) } => assert_eq!(m, "forbidden"),
        other => panic!("{:?}", other),
    }
    assert!(matches!(s.step(PublishEvent::Done), PublishAction::Abort { .. }));
}

#[test]
fn missing_bucket_after_setup_aborts() {
    let mut s = state(None, None);
    to_site_upload(&mut s);
    assert!(matches!(
        s.step(PublishEvent::Exists(false)),
        PublishAction::Abort { error: PublishError::BucketMissing }
    ));
}

#[test]
fn unexpected_event_aborts() {
    let mut s = state(None, None);
    s.start();
    assert!(matches!(
        s.step(PublishEvent::Deployed(None)),
        PublishAction::Abort { error: PublishError::UnexpectedEvent }
    ));
}
