use release_kit::upload::{
    audio_content_type, file_extension, object_key, plan_uploads, TaskPhase, TaskProgress,
    TrackFile, UploadPool, UploadTask, MAX_ATTEMPTS,
};

fn drive(outcomes: &[bool]) -> (TaskProgress, Vec<u64>) {
    let mut p = TaskProgress::new();
    let mut waits = Vec::new();
    for &ok in outcomes {
        if p.is_terminal() {
            break;
        }
        p = p.begin();
        let (next, wait) = p.finish(ok);
        p = next;
        if let Some(w) = wait {
            waits.push(w);
        }
    }
    (p, waits)
}

#[test]
fn retry_succeeds_on_fifth_attempt() {
    let (p, waits) = drive(&[false, false, false, false, true]);
    assert_eq!(p.phase, TaskPhase::Succeeded);
    assert_eq!(p.attempts, 5);
    assert_eq!(waits, vec![1, 2, 3, 4]);
}

#[test]
fn retry_gives_up_after_five_failures() {
    let (p, waits) = drive(&[false, false, false, false, false, true]);
    assert_eq!(p.phase, TaskPhase::Failed);
    assert_eq!(p.attempts, MAX_ATTEMPTS);
    assert_eq!(waits, vec![1, 2, 3, 4]);
}

#[test]
fn first_attempt_success_needs_no_wait() {
    let (p, waits) = drive(&[true]);
    assert_eq!(p.phase, TaskPhase::Succeeded);
    assert_eq!(p.attempts, 1);
    assert!(waits.is_empty());
}

fn tasks(n: usize) -> Vec<UploadTask> {
    (0..n)
        .map(|i| UploadTask::new(&format!("{:02}.flac", i), &format!("/album/audio/{:02}.flac", i)))
        .collect()
}

/// Runs a pool the way a caller does: start while workers are free, then
/// finish the oldest attempt in flight with the outcome `fails` gives.
fn run_pool(n: usize, limit: usize, fails: impl Fn(usize, u64) -> bool) -> UploadPool {
    let mut pool = UploadPool::new(tasks(n), limit);
    let mut in_flight: Vec<usize> = Vec::new();
    let mut steps = 0;
    while !pool.is_complete() {
        steps += 1;
        assert!(steps < 10_000);
        while let Some(i) = pool.try_start() {
            in_flight.push(i);
        }
        assert!(in_flight.len() <= limit);
        let i = in_flight.remove(0);
        let attempt = pool.progress[i].attempts;
        let outcome = if fails(i, attempt) {
            Err(format!("attempt {} failed", attempt))
        } else {
            Ok(())
        };
        if pool.finish(i, outcome).is_some() {
            pool.retry(i);
            in_flight.push(i);
        }
    }
    pool
}

#[test]
fn pool_runs_every_task_to_a_terminal_state() {
    for limit in 1..=4 {
        let pool = run_pool(7, limit, |_, _| false);
        assert!(pool.progress.iter().all(|p| p.phase == TaskPhase::Succeeded));
        assert_eq!(pool.join().unwrap(), 7);
    }
}

#[test]
fn pool_join_lists_exhausted_tracks() {
    let pool = run_pool(5, 2, |i, attempt| i == 3 || (i == 1 && attempt < 5));
    assert_eq!(pool.progress[1].phase, TaskPhase::Succeeded);
    assert_eq!(pool.progress[1].attempts, 5);
    assert_eq!(pool.progress[3].phase, TaskPhase::Failed);
    let failed = pool.join().unwrap_err();
    assert_eq!(failed.len(), 1);
    assert_eq!(failed[0].track, "03.flac");
    assert_eq!(failed[0].error, "attempt 5 failed");
}

#[test]
fn pool_with_no_tasks_is_complete() {
    let pool = UploadPool::new(Vec::new(), 3);
    assert!(pool.is_complete());
    assert_eq!(pool.join().unwrap(), 0);
}

#[test]
fn content_types_follow_the_extension() {
    assert_eq!(audio_content_type("a.flac"), "audio/flac");
    assert_eq!(audio_content_type("a.b.mp3"), "audio/mpeg");
    assert_eq!(audio_content_type("a.wav"), "audio/wav");
    assert_eq!(audio_content_type("a.ogg"), "audio/ogg");
    assert_eq!(audio_content_type("a.FLAC"), "application/octet-stream");
    assert_eq!(audio_content_type(".flac"), "application/octet-stream");
    assert_eq!(audio_content_type("noext"), "application/octet-stream");
}

#[test]
fn extensions_as_path_gives_them() {
    assert_eq!(file_extension("a.tar.gz").as_deref(), Some("gz"));
    assert_eq!(file_extension("name."), Some(String::new()));
    assert_eq!(file_extension(".hidden"), None);
    assert_eq!(file_extension("plain"), None);
}

#[test]
fn object_keys_live_under_audio() {
    assert_eq!(object_key("01.flac"), "audio/01.flac");
}

#[test]
fn plan_skips_missing_files() {
    let files = vec![
        TrackFile { file: "audio/01-a.flac".into(), source_path: "/x/audio/01-a.flac".into(), present: true },
        TrackFile { file: "audio/02-b.mp3".into(), source_path: "/x/audio/02-b.mp3".into(), present: false },
        TrackFile { file: "audio/03-c.ogg".into(), source_path: "/x/audio/03-c.ogg".into(), present: true },
    ];
    let (tasks, warnings) = plan_uploads(&files).unwrap();
    assert_eq!(tasks.len(), 2);
    assert_eq!(warnings, vec!["Audio file not found: /x/audio/02-b.mp3".to_string()]);
    assert_eq!(tasks[0].source_path, "/x/audio/01-a.flac");
    assert_eq!(tasks[0].track, "01-a.flac");
    assert_eq!(tasks[0].key, "audio/01-a.flac");
    assert_eq!(tasks[0].content_type, "audio/flac");
    assert_eq!(tasks[1].key, "audio/03-c.ogg");
    assert_eq!(tasks[1].content_type, "audio/ogg");
    assert_eq!(tasks[1].source_path, "/x/audio/03-c.ogg");
}

#[test]
fn plan_refuses_a_path_without_file_name() {
    let files = vec![TrackFile { file: "audio/..".into(), source_path: "/x".into(), present: true }];
    assert!(plan_uploads(&files).is_err());
}
