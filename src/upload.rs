//! Per-track uploads: the retry policy of one object PUT, and a bounded
//! worker pool that runs every task to a terminal state before the join.
//!
//! The caller performs each PUT and each backoff sleep; these types decide
//! what happens next.

use vstd::prelude::*;
use crate::text::{chars_of, concat, push_char, same_text};
use crate::types::{file_name_of, path_file_name};

verus! {

/// Attempts made for one object before it is given up.
pub const MAX_ATTEMPTS: u64 = 5;

/// Where one upload task stands.
#[derive(Clone, Copy, Debug, PartialEq, Eq, Structural)]
pub enum TaskPhase {
    Pending,
    InFlight,
    RetryWait,
    Succeeded,
    Failed,
}

/// Phase and number of attempts made so far.
#[derive(Clone, Copy, Debug, PartialEq, Eq, Structural)]
pub struct TaskProgress {
    pub phase: TaskPhase,
    pub attempts: u64,
}

pub open spec fn is_terminal(p: TaskProgress) -> bool {
    p.phase == TaskPhase::Succeeded || p.phase == TaskPhase::Failed
}

/// The progress a task holds in each reachable state.
pub open spec fn progress_wf(p: TaskProgress) -> bool {
    &&& p.attempts <= MAX_ATTEMPTS
    &&& p.phase == TaskPhase::Pending ==> p.attempts == 0
    &&& p.phase == TaskPhase::InFlight ==> p.attempts >= 1
    &&& p.phase == TaskPhase::RetryWait ==> 1 <= p.attempts < MAX_ATTEMPTS
    &&& p.phase == TaskPhase::Succeeded ==> p.attempts >= 1
    &&& p.phase == TaskPhase::Failed ==> p.attempts == MAX_ATTEMPTS
}

pub open spec fn initial_progress() -> TaskProgress {
    TaskProgress { phase: TaskPhase::Pending, attempts: 0 }
}

/// Starting an attempt.
pub open spec fn begin_spec(p: TaskProgress) -> TaskProgress {
    TaskProgress { phase: TaskPhase::InFlight, attempts: (p.attempts + 1) as u64 }
}

/// The outcome of the attempt in flight.
pub open spec fn finish_spec(p: TaskProgress, ok: bool) -> TaskProgress {
    if ok {
        TaskProgress { phase: TaskPhase::Succeeded, attempts: p.attempts }
    } else if p.attempts < MAX_ATTEMPTS {
        TaskProgress { phase: TaskPhase::RetryWait, attempts: p.attempts }
    } else {
        TaskProgress { phase: TaskPhase::Failed, attempts: p.attempts }
    }
}

/// The task driven through a series of attempt outcomes, one per attempt,
/// until it reaches a terminal phase or the outcomes run out.
pub open spec fn run_spec(p: TaskProgress, outcomes: Seq<bool>) -> TaskProgress
    decreases outcomes.len(),
{
    if outcomes.len() == 0 || is_terminal(p) {
        p
    } else {
        run_spec(finish_spec(begin_spec(p), outcomes[0]), outcomes.drop_first())
    }
}

proof fn lemma_run_fails_then_succeeds(p: TaskProgress, k: nat, outcomes: Seq<bool>)
    requires
        progress_wf(p),
        p.phase == TaskPhase::Pending || p.phase == TaskPhase::RetryWait,
        p.attempts + k < MAX_ATTEMPTS,
        outcomes.len() > k,
        forall|i: int| 0 <= i < k ==> !outcomes[i],
        outcomes[k as int],
    ensures
        run_spec(p, outcomes) == (TaskProgress {
            phase: TaskPhase::Succeeded,
            attempts: (p.attempts + k + 1) as u64,
        }),
    decreases k,
{
    let q = finish_spec(begin_spec(p), outcomes[0]);
    if k > 0 {
        let rest = outcomes.drop_first();
        assert forall|i: int| 0 <= i < k - 1 implies !rest[i] by {
            assert(rest[i] == outcomes[i + 1]);
        }
        assert(rest[k - 1] == outcomes[k as int]);
        lemma_run_fails_then_succeeds(q, (k - 1) as nat, rest);
    } else {
        assert(run_spec(q, outcomes.drop_first()) == q);
    }
}

proof fn lemma_run_all_fail(p: TaskProgress, outcomes: Seq<bool>)
    requires
        progress_wf(p),
        p.phase == TaskPhase::Pending || p.phase == TaskPhase::RetryWait,
        outcomes.len() >= MAX_ATTEMPTS - p.attempts,
        forall|i: int| 0 <= i < MAX_ATTEMPTS - p.attempts ==> !outcomes[i],
    ensures
        run_spec(p, outcomes) == (TaskProgress {
            phase: TaskPhase::Failed,
            attempts: MAX_ATTEMPTS,
        }),
    decreases MAX_ATTEMPTS - p.attempts,
{
    let q = finish_spec(begin_spec(p), outcomes[0]);
    let rest = outcomes.drop_first();
    if q.phase == TaskPhase::RetryWait {
        assert forall|i: int| 0 <= i < MAX_ATTEMPTS - q.attempts implies !rest[i] by {
            assert(rest[i] == outcomes[i + 1]);
        }
        lemma_run_all_fail(q, rest);
    } else {
        assert(run_spec(q, rest) == q);
    }
}

/// A task whose first `k` attempts fail, `k` below the attempt limit, and
/// whose next attempt succeeds ends in success after `k + 1` attempts, with
/// nothing left to report.
pub proof fn lemma_retry_recovers(k: nat, outcomes: Seq<bool>)
    requires
        k < MAX_ATTEMPTS,
        outcomes.len() > k,
        forall|i: int| 0 <= i < k ==> !outcomes[i],
        outcomes[k as int],
    ensures
        run_spec(initial_progress(), outcomes) == (TaskProgress {
            phase: TaskPhase::Succeeded,
            attempts: (k + 1) as u64,
        }),
{
    lemma_run_fails_then_succeeds(initial_progress(), k, outcomes);
}

/// A task whose attempts all fail is given up after exactly the attempt
/// limit, and stays given up whatever outcomes follow.
pub proof fn lemma_retry_exhausts(outcomes: Seq<bool>)
    requires
        outcomes.len() >= MAX_ATTEMPTS,
        forall|i: int| 0 <= i < MAX_ATTEMPTS ==> !outcomes[i],
    ensures
        run_spec(initial_progress(), outcomes) == (TaskProgress {
            phase: TaskPhase::Failed,
            attempts: MAX_ATTEMPTS,
        }),
{
    lemma_run_all_fail(initial_progress(), outcomes);
}

impl TaskProgress {
    /// A task that has made no attempt yet.
    pub fn new() -> (r: TaskProgress)
        ensures
            r == initial_progress(),
    {
        TaskProgress { phase: TaskPhase::Pending, attempts: 0 }
    }

    pub fn is_terminal(&self) -> (r: bool)
        ensures
            r == is_terminal(*self),
    {
        self.phase == TaskPhase::Succeeded || self.phase == TaskPhase::Failed
    }

    /// Moves a pending or waiting task to a new attempt.
    pub fn begin(&self) -> (r: TaskProgress)
        requires
            progress_wf(*self),
            self.phase == TaskPhase::Pending || self.phase == TaskPhase::RetryWait,
        ensures
            progress_wf(r),
            r == begin_spec(*self),
    {
        TaskProgress { phase: TaskPhase::InFlight, attempts: self.attempts + 1 }
    }

    /// Records whether the attempt in flight succeeded. Also returns the
    /// number of seconds to wait before the next attempt when one is owed:
    /// one more second after each failed attempt.
    pub fn finish(&self, ok: bool) -> (r: (TaskProgress, Option<u64>))
        requires
            progress_wf(*self),
            self.phase == TaskPhase::InFlight,
        ensures
            progress_wf(r.0),
            r.0 == finish_spec(*self, ok),
            r.1 == (if r.0.phase == TaskPhase::RetryWait {
                Some(self.attempts)
            } else {
                None::<u64>
            }),
    {
        if ok {
            (TaskProgress { phase: TaskPhase::Succeeded, attempts: self.attempts }, None)
        } else if self.attempts < MAX_ATTEMPTS {
            (TaskProgress { phase: TaskPhase::RetryWait, attempts: self.attempts }, Some(self.attempts))
        } else {
            (TaskProgress { phase: TaskPhase::Failed, attempts: self.attempts }, None)
        }
    }
}

/// One track to upload: the file it comes from and the object it becomes.
#[derive(Clone, Debug)]
pub struct UploadTask {
    pub track: String,
    pub source_path: String,
    pub key: String,
    pub content_type: String,
}

impl UploadTask {
    /// The task for the file `file_name`, read from `source_path`.
    pub fn new(file_name: &str, source_path: &str) -> (r: UploadTask)
        ensures
            r.track@ == file_name@,
            r.source_path@ == source_path@,
            r.key@ == object_key_of(file_name@),
            r.content_type@ == audio_content_type_of(file_name@),
    {
        UploadTask {
            track: String::from_str(file_name),
            source_path: String::from_str(source_path),
            key: object_key(file_name),
            content_type: audio_content_type(file_name),
        }
    }
}

/// Number of tasks of `s` that have not reached a terminal phase.
pub open spec fn active_count(s: Seq<TaskProgress>) -> nat
    decreases s.len(),
{
    if s.len() == 0 {
        0
    } else {
        active_count(s.drop_last()) + if is_terminal(s.last()) {
            0nat
        } else {
            1nat
        }
    }
}

pub open spec fn activity(p: TaskProgress) -> int {
    if is_terminal(p) {
        0
    } else {
        1
    }
}

proof fn lemma_active_count_update(s: Seq<TaskProgress>, i: int, p: TaskProgress)
    requires
        0 <= i < s.len(),
    ensures
        active_count(s.update(i, p)) == active_count(s) - activity(s[i]) + activity(p),
    decreases s.len(),
{
    if i == s.len() - 1 {
        assert(s.update(i, p).drop_last() =~= s.drop_last());
    } else {
        lemma_active_count_update(s.drop_last(), i, p);
        assert(s.update(i, p).drop_last() =~= s.drop_last().update(i, p));
    }
}

proof fn lemma_active_count_zero(s: Seq<TaskProgress>)
    requires
        active_count(s) == 0,
    ensures
        forall|i: int| 0 <= i < s.len() ==> is_terminal(#[trigger] s[i]),
    decreases s.len(),
{
    if s.len() > 0 {
        lemma_active_count_zero(s.drop_last());
        assert forall|i: int| 0 <= i < s.len() implies is_terminal(#[trigger] s[i]) by {
            if i < s.len() - 1 {
                assert(s[i] == s.drop_last()[i]);
            }
        }
    }
}

proof fn lemma_active_count_positive(s: Seq<TaskProgress>)
    requires
        active_count(s) > 0,
    ensures
        exists|i: int| 0 <= i < s.len() && !is_terminal(#[trigger] s[i]),
    decreases s.len(),
{
    if is_terminal(s.last()) {
        lemma_active_count_positive(s.drop_last());
        let i = choose|i: int| 0 <= i < s.len() - 1 && !is_terminal(#[trigger] s.drop_last()[i]);
        assert(s[i] == s.drop_last()[i]);
    } else {
        assert(!is_terminal(s[s.len() - 1]));
    }
}

/// A track given up after its last attempt, with the error of that attempt.
#[derive(Clone, Debug)]
pub struct FailedUpload {
    pub track: String,
    pub error: String,
}

/// The upload tasks of one deployment, run by at most `limit` workers at a
/// time.
///
/// Tasks are started in order. A started task stays with its worker
/// through its retries until it succeeds or is given up; only then may
/// another task start.
pub struct UploadPool {
    pub tasks: Vec<UploadTask>,
    pub progress: Vec<TaskProgress>,
    pub errors: Vec<Option<String>>,
    pub limit: usize,
    pub next: usize,
    pub running: usize,
}

/// Track and error of each given-up task among the first `n`, in order.
pub open spec fn failures_upto(
    tasks: Seq<UploadTask>,
    progress: Seq<TaskProgress>,
    errors: Seq<Option<String>>,
    n: int,
) -> Seq<(Seq<char>, Seq<char>)>
    decreases n,
{
    if n <= 0 {
        Seq::empty()
    } else {
        let before = failures_upto(tasks, progress, errors, n - 1);
        if progress[n - 1].phase == TaskPhase::Failed {
            before.push((tasks[n - 1].track@, errors[n - 1]->Some_0@))
        } else {
            before
        }
    }
}

proof fn lemma_no_failures_upto(
    tasks: Seq<UploadTask>,
    progress: Seq<TaskProgress>,
    errors: Seq<Option<String>>,
    n: int,
)
    requires
        0 <= n <= progress.len(),
        forall|i: int| 0 <= i < n ==> (#[trigger] progress[i]).phase != TaskPhase::Failed,
    ensures
        failures_upto(tasks, progress, errors, n).len() == 0,
    decreases n,
{
    if n > 0 {
        lemma_no_failures_upto(tasks, progress, errors, n - 1);
    }
}

impl UploadPool {
    pub open spec fn wf(&self) -> bool {
        &&& self.tasks@.len() == self.progress@.len()
        &&& self.errors@.len() == self.progress@.len()
        &&& self.limit >= 1
        &&& self.next <= self.progress@.len()
        &&& self.running <= self.limit
        &&& forall|i: int| 0 <= i < self.progress@.len() ==> progress_wf(#[trigger] self.progress@[i])
        &&& forall|i: int|
            self.next <= i < self.progress@.len() ==> #[trigger] self.progress@[i]
                == initial_progress()
        &&& forall|i: int|
            0 <= i < self.next ==> (#[trigger] self.progress@[i]).phase != TaskPhase::Pending
        &&& forall|i: int|
            0 <= i < self.progress@.len() && (#[trigger] self.progress@[i]).phase
                == TaskPhase::Failed ==> self.errors@[i] is Some
        &&& self.running == active_count(self.progress@.subrange(0, self.next as int))
    }

    pub open spec fn complete(&self) -> bool {
        self.next == self.progress@.len() && self.running == 0
    }

    /// A pool over `tasks`, none started, with `limit` workers.
    pub fn new(tasks: Vec<UploadTask>, limit: usize) -> (r: UploadPool)
        requires
            limit >= 1,
        ensures
            r.wf(),
            r.tasks@ == tasks@,
            r.limit == limit,
            r.next == 0,
            forall|i: int| 0 <= i < r.progress@.len() ==> #[trigger] r.progress@[i] == initial_progress(),
    {
        let mut progress: Vec<TaskProgress> = Vec::new();
        let mut errors: Vec<Option<String>> = Vec::new();
        let mut i: usize = 0;
        while i < tasks.len()
            invariant
                i <= tasks@.len(),
                progress@.len() == i,
                errors@.len() == i,
                forall|j: int| 0 <= j < i ==> #[trigger] progress@[j] == initial_progress(),
                forall|j: int| 0 <= j < i ==> #[trigger] errors@[j] is None,
            decreases tasks@.len() - i,
        {
            progress.push(TaskProgress::new());
            errors.push(None);
            i = i + 1;
        }
        let r = UploadPool { tasks, progress, errors, limit, next: 0, running: 0 };
        assert(r.progress@.subrange(0, 0) =~= Seq::<TaskProgress>::empty());
        r
    }

    /// Starts the next pending task when a worker is free, and says which.
    pub fn try_start(&mut self) -> (r: Option<usize>)
        requires
            old(self).wf(),
        ensures
            final(self).wf(),
            final(self).tasks == old(self).tasks,
            final(self).errors == old(self).errors,
            final(self).limit == old(self).limit,
            r == (if old(self).running < old(self).limit && old(self).next
                < old(self).progress@.len() {
                Some(old(self).next)
            } else {
                None::<usize>
            }),
            r is Some ==> final(self).next == old(self).next + 1 && final(self).progress@
                == old(self).progress@.update(old(self).next as int, begin_spec(initial_progress())),
            r is None ==> final(self).next == old(self).next && final(self).progress@
                == old(self).progress@ && final(self).running == old(self).running,
    {
        if self.running < self.limit && self.next < self.progress.len() {
            let i = self.next;
            let p = self.progress[i].begin();
            let ghost before = self.progress@;
            self.progress.set(i, p);
            self.next = i + 1;
            self.running = self.running + 1;
            proof {
                assert(self.progress@.subrange(0, i + 1) =~= before.subrange(0, i as int).push(p));
                assert(self.progress@.subrange(0, i + 1).drop_last() =~= before.subrange(0, i as int));
            }
            Some(i)
        } else {
            None
        }
    }

    /// Starts the next attempt of task `i`, which is waiting to retry.
    pub fn retry(&mut self, i: usize)
        requires
            old(self).wf(),
            i < old(self).progress@.len(),
            old(self).progress@[i as int].phase == TaskPhase::RetryWait,
        ensures
            final(self).wf(),
            final(self).tasks == old(self).tasks,
            final(self).errors == old(self).errors,
            final(self).next == old(self).next,
            final(self).limit == old(self).limit,
            final(self).progress@ == old(self).progress@.update(
                i as int,
                begin_spec(old(self).progress@[i as int]),
            ),
    {
        let p = self.progress[i].begin();
        let ghost before = self.progress@;
        self.progress.set(i, p);
        proof {
            assert(i < self.next);
            lemma_active_count_update(before.subrange(0, self.next as int), i as int, p);
            assert(self.progress@.subrange(0, self.next as int) =~= before.subrange(
                0,
                self.next as int,
            ).update(i as int, p));
        }
    }

    /// Records the outcome of the attempt in flight for task `i`. Returns
    /// the seconds to wait before its next attempt when one is owed.
    pub fn finish(&mut self, i: usize, outcome: Result<(), String>) -> (wait: Option<u64>)
        requires
            old(self).wf(),
            i < old(self).progress@.len(),
            old(self).progress@[i as int].phase == TaskPhase::InFlight,
        ensures
            final(self).wf(),
            final(self).tasks == old(self).tasks,
            final(self).next == old(self).next,
            final(self).limit == old(self).limit,
            final(self).progress@ == old(self).progress@.update(
                i as int,
                finish_spec(old(self).progress@[i as int], outcome is Ok),
            ),
            outcome is Ok ==> final(self).errors@ == old(self).errors@,
            outcome is Err ==> final(self).errors@ == old(self).errors@.update(
                i as int,
                Some(outcome->Err_0),
            ),
            wait == (if final(self).progress@[i as int].phase == TaskPhase::RetryWait {
                Some(old(self).progress@[i as int].attempts)
            } else {
                None::<u64>
            }),
    {
        let ok = outcome.is_ok();
        let (p, wait) = self.progress[i].finish(ok);
        let ghost before = self.progress@;
        self.progress.set(i, p);
        match outcome {
            Ok(()) => {},
            Err(e) => {
                self.errors.set(i, Some(e));
            },
        }
        proof {
            assert(i < self.next);
            lemma_active_count_update(before.subrange(0, self.next as int), i as int, p);
            assert(self.progress@.subrange(0, self.next as int) =~= before.subrange(
                0,
                self.next as int,
            ).update(i as int, p));
        }
        if p.is_terminal() {
            self.running = self.running - 1;
        }
        wait
    }

    /// Every task has been started and has reached a terminal phase.
    pub fn is_complete(&self) -> (r: bool)
        requires
            self.wf(),
        ensures
            r == self.complete(),
    {
        self.next == self.progress.len() && self.running == 0
    }

    /// The join: the number of uploaded tracks when every task succeeded,
    /// otherwise each given-up track with its last error, in task order.
    pub fn join(&self) -> (r: Result<usize, Vec<FailedUpload>>)
        requires
            self.wf(),
            self.complete(),
        ensures
            r is Ok <==> forall|i: int|
                0 <= i < self.progress@.len() ==> (#[trigger] self.progress@[i]).phase
                    == TaskPhase::Succeeded,
            r is Ok ==> r->Ok_0 == self.progress@.len(),
            r is Err ==> r->Err_0@.len() == failures_upto(
                self.tasks@,
                self.progress@,
                self.errors@,
                self.progress@.len() as int,
            ).len() && r->Err_0@.len() > 0 && forall|j: int|
                0 <= j < r->Err_0@.len() ==> (r->Err_0@[j].track@, r->Err_0@[j].error@)
                    == failures_upto(
                    self.tasks@,
                    self.progress@,
                    self.errors@,
                    self.progress@.len() as int,
                )[j],
    {
        proof {
            assert(self.progress@.subrange(0, self.next as int) =~= self.progress@);
            lemma_active_count_zero(self.progress@);
        }
        let mut failed: Vec<FailedUpload> = Vec::new();
        let mut i: usize = 0;
        while i < self.progress.len()
            invariant
                self.wf(),
                i <= self.progress@.len(),
                failed@.len() == failures_upto(self.tasks@, self.progress@, self.errors@, i as int).len(),
                forall|j: int|
                    0 <= j < failed@.len() ==> (failed@[j].track@, failed@[j].error@)
                        == failures_upto(self.tasks@, self.progress@, self.errors@, i as int)[j],
            decreases self.progress@.len() - i,
        {
            if self.progress[i].phase == TaskPhase::Failed {
                let e = match &self.errors[i] {
                    Some(e) => e.clone(),
                    None => String::new(),
                };
                failed.push(FailedUpload { track: self.tasks[i].track.clone(), error: e });
            }
            i = i + 1;
        }
        if failed.len() == 0 {
            proof {
                assert forall|k: int| 0 <= k < self.progress@.len() implies (
                #[trigger] self.progress@[k]).phase == TaskPhase::Succeeded by {
                    if self.progress@[k].phase == TaskPhase::Failed {
                        lemma_failure_listed(self.tasks@, self.progress@, self.errors@, self.progress@.len() as int, k);
                    }
                }
            }
            Ok(self.progress.len())
        } else {
            proof {
                if forall|k: int| 0 <= k < self.progress@.len() ==> (
                #[trigger] self.progress@[k]).phase == TaskPhase::Succeeded {
                    lemma_no_failures_upto(self.tasks@, self.progress@, self.errors@, self.progress@.len() as int);
                }
            }
            Err(failed)
        }
    }
}

proof fn lemma_failure_listed(
    tasks: Seq<UploadTask>,
    progress: Seq<TaskProgress>,
    errors: Seq<Option<String>>,
    n: int,
    k: int,
)
    requires
        0 <= k < n,
        progress[k].phase == TaskPhase::Failed,
    ensures
        failures_upto(tasks, progress, errors, n).len() > 0,
    decreases n,
{
    if k < n - 1 {
        lemma_failure_listed(tasks, progress, errors, n - 1, k);
    }
}

/// A given-up task is named in the join's failure list.
pub proof fn lemma_failed_track_is_listed(
    tasks: Seq<UploadTask>,
    progress: Seq<TaskProgress>,
    errors: Seq<Option<String>>,
    n: int,
    k: int,
)
    requires
        0 <= k < n,
        progress[k].phase == TaskPhase::Failed,
    ensures
        exists|j: int|
            0 <= j < failures_upto(tasks, progress, errors, n).len() && (#[trigger] failures_upto(
                tasks,
                progress,
                errors,
                n,
            )[j]).0 == tasks[k].track@,
    decreases n,
{
    let f = failures_upto(tasks, progress, errors, n);
    if k == n - 1 {
        assert(f.last().0 == tasks[k].track@);
        assert(f[f.len() - 1].0 == tasks[k].track@);
    } else {
        lemma_failed_track_is_listed(tasks, progress, errors, n - 1, k);
        let g = failures_upto(tasks, progress, errors, n - 1);
        let j = choose|j: int| 0 <= j < g.len() && (#[trigger] g[j]).0 == tasks[k].track@;
        assert(f[j] == g[j]);
    }
}

/// Fan-out completeness. Whatever the number of workers, a pool that is
/// not complete can always move: a worker is free for the next pending
/// task, or some started task is still in flight or waiting to retry, and
/// each task makes at most `MAX_ATTEMPTS` attempts. A complete pool has
/// every task in a terminal phase, so none is dropped before the join.
pub proof fn lemma_pool_progress(pool: UploadPool)
    requires
        pool.wf(),
    ensures
        !pool.complete() ==> (pool.running < pool.limit && pool.next < pool.progress@.len()) || exists|i: int|
            0 <= i < pool.next && !is_terminal(#[trigger] pool.progress@[i]),
        pool.complete() ==> forall|i: int|
            0 <= i < pool.progress@.len() ==> is_terminal(#[trigger] pool.progress@[i]),
        pool.complete() ==> forall|i: int|
            0 <= i < pool.progress@.len() ==> 1 <= (#[trigger] pool.progress@[i]).attempts
                <= MAX_ATTEMPTS,
        forall|i: int|
            0 <= i < pool.progress@.len() && (#[trigger] pool.progress@[i]).phase
                == TaskPhase::Failed ==> pool.progress@[i].attempts == MAX_ATTEMPTS,
        forall|i: int|
            0 <= i < pool.progress@.len() ==> (#[trigger] pool.progress@[i]).attempts
                <= MAX_ATTEMPTS,
{
    let started = pool.progress@.subrange(0, pool.next as int);
    if pool.complete() {
        assert(started =~= pool.progress@);
        lemma_active_count_zero(pool.progress@);
    } else if pool.running > 0 {
        lemma_active_count_positive(started);
        let i = choose|i: int| 0 <= i < started.len() && !is_terminal(#[trigger] started[i]);
        assert(started[i] == pool.progress@[i]);
    }
}

/// A track of the manifest as found on disk.
#[derive(Clone, Debug)]
pub struct TrackFile {
    /// The track's path as the manifest gives it.
    pub file: String,
    /// Where the file is read from.
    pub source_path: String,
    /// The file exists.
    pub present: bool,
}

/// The names of the files that will be uploaded: those present, in order.
pub open spec fn planned_names(files: Seq<TrackFile>) -> Seq<Seq<char>>
    decreases files.len(),
{
    if files.len() == 0 {
        Seq::empty()
    } else {
        let before = planned_names(files.drop_last());
        let f = files.last();
        if f.present {
            before.push(file_name_of(f.file@)->Some_0)
        } else {
            before
        }
    }
}

/// Where the files that will be uploaded are read from, in order.
pub open spec fn planned_sources(files: Seq<TrackFile>) -> Seq<Seq<char>>
    decreases files.len(),
{
    if files.len() == 0 {
        Seq::empty()
    } else {
        let before = planned_sources(files.drop_last());
        let f = files.last();
        if f.present {
            before.push(f.source_path@)
        } else {
            before
        }
    }
}

/// One warning per missing file, naming where it was looked for.
pub open spec fn missing_warnings(files: Seq<TrackFile>) -> Seq<Seq<char>>
    decreases files.len(),
{
    if files.len() == 0 {
        Seq::empty()
    } else {
        let before = missing_warnings(files.drop_last());
        let f = files.last();
        if f.present {
            before
        } else {
            before.push("Audio file not found: "@ + f.source_path@)
        }
    }
}

proof fn lemma_planned_lengths(files: Seq<TrackFile>)
    ensures
        planned_sources(files).len() == planned_names(files).len(),
    decreases files.len(),
{
    if files.len() > 0 {
        lemma_planned_lengths(files.drop_last());
    }
}

/// The upload tasks of an album: one per track whose file is present, in
/// manifest order; a missing file is skipped with a warning. A present
/// file whose path has no file name stops the plan.
pub fn plan_uploads(files: &Vec<TrackFile>) -> (r: Result<(Vec<UploadTask>, Vec<String>), String>)
    ensures
        r is Err <==> exists|i: int|
            0 <= i < files@.len() && (#[trigger] files@[i]).present && file_name_of(files@[i].file@)
                is None,
        r is Ok ==> {
            let (tasks, warnings) = r->Ok_0;
            &&& tasks@.len() == planned_names(files@).len()
            &&& warnings@.len() == missing_warnings(files@).len()
            &&& forall|j: int|
                0 <= j < warnings@.len() ==> (#[trigger] warnings@[j])@ == missing_warnings(files@)[j]
            &&& forall|j: int|
                0 <= j < tasks@.len() ==> {
                    &&& (#[trigger] tasks@[j]).track@ == planned_names(files@)[j]
                    &&& tasks@[j].source_path@ == planned_sources(files@)[j]
                    &&& tasks@[j].key@ == object_key_of(planned_names(files@)[j])
                    &&& tasks@[j].content_type@ == audio_content_type_of(planned_names(files@)[j])
                }
        },
{
    let mut tasks: Vec<UploadTask> = Vec::new();
    let mut warnings: Vec<String> = Vec::new();
    let mut i: usize = 0;
    while i < files.len()
        invariant
            i <= files@.len(),
            forall|k: int|
                0 <= k < i ==> !((#[trigger] files@[k]).present && file_name_of(files@[k].file@) is None),
            tasks@.len() == planned_names(files@.subrange(0, i as int)).len(),
            warnings@.len() == missing_warnings(files@.subrange(0, i as int)).len(),
            forall|j: int|
                0 <= j < warnings@.len() ==> (#[trigger] warnings@[j])@ == missing_warnings(
                    files@.subrange(0, i as int),
                )[j],
            forall|j: int|
                0 <= j < tasks@.len() ==> {
                    &&& (#[trigger] tasks@[j]).track@ == planned_names(files@.subrange(0, i as int))[j]
                    &&& tasks@[j].source_path@ == planned_sources(files@.subrange(0, i as int))[j]
                    &&& tasks@[j].key@ == object_key_of(planned_names(files@.subrange(0, i as int))[j])
                    &&& tasks@[j].content_type@ == audio_content_type_of(
                        planned_names(files@.subrange(0, i as int))[j],
                    )
                },
        decreases files@.len() - i,
    {
        let f = &files[i];
        proof {
            assert(files@.subrange(0, i + 1).drop_last() =~= files@.subrange(0, i as int));
            lemma_planned_lengths(files@.subrange(0, i as int));
        }
        if f.present {
            match path_file_name(f.file.as_str()) {
                Some(name) => {
                    tasks.push(UploadTask::new(name.as_str(), f.source_path.as_str()));
                },
                None => {
                    return Err(concat("Invalid audio filename: ", f.file.as_str()));
                },
            }
        } else {
            warnings.push(concat("Audio file not found: ", f.source_path.as_str()));
        }
        i = i + 1;
    }
    assert(files@.subrange(0, files@.len() as int) =~= files@);
    Ok((tasks, warnings))
}

/// The text after the last dot of a file name, as `Path::extension` gives
/// it: none when there is no dot, or when the only dot starts the name.
pub open spec fn extension_of(name: Seq<char>) -> Option<Seq<char>> {
    if exists|i: int| 0 < i < name.len() && name[i] == '.' {
        let i = choose|i: int|
            0 < i < name.len() && name[i] == '.' && forall|j: int|
                i < j < name.len() ==> name[j] != '.';
        Some(name.subrange(i + 1, name.len() as int))
    } else {
        None
    }
}

/// The content type sent with an audio object, by its extension.
pub open spec fn audio_content_type_of(name: Seq<char>) -> Seq<char> {
    let ext = extension_of(name);
    if ext == Some("flac"@) {
        "audio/flac"@
    } else if ext == Some("mp3"@) {
        "audio/mpeg"@
    } else if ext == Some("wav"@) {
        "audio/wav"@
    } else if ext == Some("ogg"@) {
        "audio/ogg"@
    } else {
        "application/octet-stream"@
    }
}

/// The storage key of an audio file.
pub open spec fn object_key_of(name: Seq<char>) -> Seq<char> {
    "audio/"@ + name
}

/// The extension of a file name, found by scanning back to its last dot.
pub fn file_extension(name: &str) -> (r: Option<String>)
    ensures
        match r {
            Some(e) => extension_of(name@) == Some(e@),
            None => extension_of(name@) is None,
        },
{
    let cs = chars_of(name);
    let n = cs.len();
    let mut i: usize = n;
    while i > 0 && cs[i - 1] != '.'
        invariant
            i <= n,
            n == cs@.len(),
            cs@ == name@,
            forall|j: int| i <= j < n ==> cs@[j] != '.',
        decreases i,
    {
        i = i - 1;
    }
    if i <= 1 {
        proof {
            assert forall|k: int| 0 < k < name@.len() implies name@[k] != '.' by {
                if i == 1 {
                    assert(k >= 1);
                }
            }
        }
        return None;
    }
    let dot: usize = i - 1;
    let mut ext = String::new();
    let mut k: usize = i;
    while k < n
        invariant
            i <= k <= n,
            n == cs@.len(),
            ext@ == cs@.subrange(i as int, k as int),
        decreases n - k,
    {
        push_char(&mut ext, cs[k]);
        k = k + 1;
        assert(ext@ =~= cs@.subrange(i as int, k as int));
    }
    proof {
        assert(0 < dot < name@.len() && name@[dot as int] == '.');
        let c = choose|c: int|
            0 < c < name@.len() && name@[c] == '.' && forall|j: int|
                c < j < name@.len() ==> name@[j] != '.';
        assert(c == dot as int) by {
            if c < dot as int {
            } else if c > dot as int {
            }
        }
    }
    Some(ext)
}

/// The content type for an audio file name: FLAC, MP3, WAV and Ogg by
/// their lower-case extension, anything else as a byte stream.
pub fn audio_content_type(file_name: &str) -> (r: String)
    ensures
        r@ == audio_content_type_of(file_name@),
{
    let ext = file_extension(file_name);
    let t = match ext {
        Some(e) => {
            if same_text(e.as_str(), "flac") {
                "audio/flac"
            } else if same_text(e.as_str(), "mp3") {
                "audio/mpeg"
            } else if same_text(e.as_str(), "wav") {
                "audio/wav"
            } else if same_text(e.as_str(), "ogg") {
                "audio/ogg"
            } else {
                "application/octet-stream"
            }
        },
        None => "application/octet-stream",
    };
    String::from_str(t)
}

/// The storage key of an audio file: `audio/{file_name}`.
pub fn object_key(file_name: &str) -> (r: String)
    ensures
        r@ == object_key_of(file_name@),
{
    let mut k = String::from_str("audio/");
    k.append(file_name);
    k
}

} // verus!
