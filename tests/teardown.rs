use release_kit::teardown::{PendingUpload, TeardownAction, TeardownEvent, TeardownState};

fn started(force: bool) -> TeardownState {
    let s = TeardownState::new("Artist Name", "My Album", force).unwrap();
    assert!(matches!(s.action(), TeardownAction::LookupProject { .. }));
    s
}

#[test]
fn bucket_is_emptied_before_it_is_deleted() {
    let mut s = started(true);
    s.step(TeardownEvent::Exists(true));
    s.step(TeardownEvent::Exists(true));
    assert!(matches!(s.action(), TeardownAction::DeleteProject { .. }));
    s.step(TeardownEvent::Done);
    match s.action() {
        TeardownAction::ListObjects { bucket } => assert_eq!(bucket, "artist-name-my-album-audio"),
        other => panic!("{:?}", other),
    }
    s.step(TeardownEvent::Objects(vec!["audio/a.flac".into(), "audio/b.flac".into()]));
    let mut seen = Vec::new();
    loop {
        match s.action() {
            TeardownAction::DeleteObject { key, .. } => {
                seen.push(key);
                s.step(TeardownEvent::Done);
            }
            TeardownAction::ListUploads { .. } => break,
            other => panic!("{:?}", other),
        }
    }
    assert_eq!(seen, vec!["audio/a.flac".to_string(), "audio/b.flac".to_string()]);
    s.step(TeardownEvent::Uploads(vec![PendingUpload { key: "audio/c.flac".into(), id: "u1".into() }]));
    match s.action() {
        TeardownAction::AbortUpload { key, id, .. } => {
            assert_eq!(key, "audio/c.flac");
            assert_eq!(id, "u1");
        }
        other => panic!("{:?}", other),
    }
    s.step(TeardownEvent::Done);
    assert!(matches!(s.action(), TeardownAction::DeleteBucket { .. }));
    s.step(TeardownEvent::Done);
    match s.action() {
        TeardownAction::Finish { report } => {
            assert!(report.project_deleted);
            assert!(report.bucket_deleted);
            assert!(report.problems.is_empty());
        }
        other => panic!("{:?}", other),
    }
}

#[test]
fn failed_object_deletion_keeps_the_bucket() {
    let mut s = started(true);
    s.step(TeardownEvent::Exists(false));
    s.step(TeardownEvent::Exists(true));
    assert!(matches!(s.action(), TeardownAction::ListObjects { .. }));
    s.step(TeardownEvent::Objects(vec!["audio/a.flac".into()]));
    s.step(TeardownEvent::Failed("denied".into()));
    match s.action() {
        TeardownAction::Finish { report } => {
            assert!(!report.bucket_deleted);
            assert_eq!(report.problems, vec!["Failed to delete object: audio/a.flac: denied".to_string()]);
        }
        other => panic!("{:?}", other),
    }
}

#[test]
fn failed_upload_abort_goes_on_and_keeps_the_bucket() {
    let mut s = started(true);
    s.step(TeardownEvent::Exists(false));
    s.step(TeardownEvent::Exists(true));
    s.step(TeardownEvent::Objects(Vec::new()));
    s.step(TeardownEvent::Uploads(vec![
        PendingUpload { key: "k1".into(), id: "i1".into() },
        PendingUpload { key: "k2".into(), id: "i2".into() },
    ]));
    s.step(TeardownEvent::Failed("nope".into()));
    match s.action() {
        TeardownAction::AbortUpload { key, id, .. } => {
            assert_eq!(key, "k2");
            assert_eq!(id, "i2");
        }
        other => panic!("{:?}", other),
    }
    s.step(TeardownEvent::Done);
    match s.action() {
        TeardownAction::Finish { report } => {
            assert!(!report.bucket_deleted);
            assert_eq!(report.problems, vec!["aborting upload of k1 failed: nope".to_string()]);
        }
        other => panic!("{:?}", other),
    }
}

#[test]
fn invalid_names_are_refused() {
    assert!(TeardownState::new("!!!", "???", true).is_none());
    assert!(TeardownState::new("", "Album", true).is_some());
}

#[test]
fn project_failure_does_not_block_the_bucket() {
    let mut s = started(true);
    s.step(TeardownEvent::Exists(true));
    s.step(TeardownEvent::Exists(true));
    s.step(TeardownEvent::Failed("busy".into()));
    assert!(matches!(s.action(), TeardownAction::ListObjects { .. }));
    assert_eq!(s.report.problems, vec!["project deletion failed: busy".to_string()]);
}

#[test]
fn confirmation_must_match_the_project_name() {
    let mut s = started(false);
    s.step(TeardownEvent::Exists(true));
    s.step(TeardownEvent::Exists(false));
    match s.action() {
        TeardownAction::Confirm { name } => assert_eq!(name, "artist-name-my-album"),
        other => panic!("{:?}", other),
    }
    s.step(TeardownEvent::Typed("artist-name".into()));
    match s.action() {
        TeardownAction::Finish { report } => assert!(report.cancelled),
        other => panic!("{:?}", other),
    }

    let mut s = started(false);
    s.step(TeardownEvent::Exists(true));
    s.step(TeardownEvent::Exists(false));
    s.step(TeardownEvent::Typed("  artist-name-my-album\n".into()));
    assert!(matches!(s.action(), TeardownAction::DeleteProject { .. }));
}

#[test]
fn nothing_to_delete() {
    let mut s = started(false);
    s.step(TeardownEvent::Exists(false));
    s.step(TeardownEvent::Exists(false));
    match s.action() {
        TeardownAction::Finish { report } => assert!(report.nothing_to_delete),
        other => panic!("{:?}", other),
    }
}
