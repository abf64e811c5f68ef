//! Tearing a deployment down, as a state machine in the manner of
//! `publish`: the project and its audio bucket are looked up, the operator
//! confirms by typing the project name (unless forced), the project is
//! deleted, and the bucket is emptied of every object and every incomplete
//! multipart upload before it is deleted itself.

use vstd::prelude::*;
use crate::naming::{derive_project_name, lemma_project_name_shape, project_name_of};
use crate::publish::bucket_name_of;
use crate::text::{chars_of, concat, concat3, trim_chars, trim_of, same_text, string_of_chars};

verus! {

#[derive(Clone, Copy, Debug, PartialEq, Eq, Structural)]
pub enum TeardownPhase {
    LookupProject,
    LookupBucket,
    Confirm,
    DeleteProject,
    ListObjects,
    DeleteObjects,
    ListUploads,
    AbortUploads,
    DeleteBucket,
    Finished,
}

/// An incomplete multipart upload: its object key and upload id.
#[derive(Clone, Debug)]
pub struct PendingUpload {
    pub key: String,
    pub id: String,
}

#[derive(Debug)]
pub enum TeardownEvent {
    Exists(bool),
    /// What the operator typed to confirm.
    Typed(String),
    Done,
    Failed(String),
    /// The keys of every object in the bucket.
    Objects(Vec<String>),
    /// Every incomplete multipart upload in the bucket.
    Uploads(Vec<PendingUpload>),
}

/// What a teardown did.
#[derive(Clone, Debug)]
pub struct TeardownReport {
    /// Neither the project nor the bucket existed.
    pub nothing_to_delete: bool,
    /// The typed confirmation did not match the project name.
    pub cancelled: bool,
    pub project_deleted: bool,
    pub bucket_deleted: bool,
    /// What failed, one line per resource.
    pub problems: Vec<String>,
}

#[derive(Debug)]
pub enum TeardownAction {
    LookupProject { name: String },
    LookupBucket { name: String },
    /// Ask the operator to type the project name.
    Confirm { name: String },
    DeleteProject { name: String },
    ListObjects { bucket: String },
    DeleteObject { bucket: String, key: String },
    ListUploads { bucket: String },
    AbortUpload { bucket: String, key: String, id: String },
    DeleteBucket { name: String },
    Finish { report: TeardownReport },
    /// A lookup failed, so nothing can be decided.
    Abort { message: String },
}

/// The phase after `e` arrives in `s`.
pub open spec fn teardown_next_phase(s: TeardownState, e: TeardownEvent) -> TeardownPhase {
    if s.aborted || s.phase == TeardownPhase::Finished {
        s.phase
    } else {
        match s.phase {
            TeardownPhase::LookupProject => match e {
                TeardownEvent::Exists(_) => TeardownPhase::LookupBucket,
                _ => TeardownPhase::Finished,
            },
            TeardownPhase::LookupBucket => match e {
                TeardownEvent::Exists(b) => if !s.project_exists && !b {
                    TeardownPhase::Finished
                } else if s.force {
                    if s.project_exists {
                        TeardownPhase::DeleteProject
                    } else {
                        TeardownPhase::ListObjects
                    }
                } else {
                    TeardownPhase::Confirm
                },
                _ => TeardownPhase::Finished,
            },
            TeardownPhase::Confirm => match e {
                TeardownEvent::Typed(t) => if trim_of(t@) == s.project@ {
                    if s.project_exists {
                        TeardownPhase::DeleteProject
                    } else if s.bucket_exists {
                        TeardownPhase::ListObjects
                    } else {
                        TeardownPhase::Finished
                    }
                } else {
                    TeardownPhase::Finished
                },
                _ => s.phase,
            },
            TeardownPhase::DeleteProject => match e {
                TeardownEvent::Done | TeardownEvent::Failed(_) => if s.bucket_exists {
                    TeardownPhase::ListObjects
                } else {
                    TeardownPhase::Finished
                },
                _ => s.phase,
            },
            TeardownPhase::ListObjects => match e {
                TeardownEvent::Objects(k) => if k@.len() > 0 {
                    TeardownPhase::DeleteObjects
                } else {
                    TeardownPhase::ListUploads
                },
                TeardownEvent::Failed(_) => TeardownPhase::Finished,
                _ => s.phase,
            },
            TeardownPhase::DeleteObjects => match e {
                TeardownEvent::Done => if s.next_object + 1 == s.objects@.len() {
                    TeardownPhase::ListUploads
                } else {
                    TeardownPhase::DeleteObjects
                },
                TeardownEvent::Failed(_) => TeardownPhase::Finished,
                _ => s.phase,
            },
            TeardownPhase::ListUploads => match e {
                TeardownEvent::Uploads(u) => if u@.len() > 0 {
                    TeardownPhase::AbortUploads
                } else {
                    TeardownPhase::DeleteBucket
                },
                TeardownEvent::Failed(_) => TeardownPhase::Finished,
                _ => s.phase,
            },
            TeardownPhase::AbortUploads => match e {
                TeardownEvent::Done | TeardownEvent::Failed(_) => if s.next_upload + 1
                    < s.uploads@.len() {
                    TeardownPhase::AbortUploads
                } else if s.abort_failed || e is Failed {
                    TeardownPhase::Finished
                } else {
                    TeardownPhase::DeleteBucket
                },
                _ => s.phase,
            },
            TeardownPhase::DeleteBucket => match e {
                TeardownEvent::Done | TeardownEvent::Failed(_) => TeardownPhase::Finished,
                _ => s.phase,
            },
            TeardownPhase::Finished => s.phase,
        }
    }
}

/// The problem line that `e` adds to the report in `s`, if any: each failed
/// deletion, listing or abort, naming what failed.
pub open spec fn problem_of(s: TeardownState, e: TeardownEvent) -> Option<Seq<char>> {
    if s.aborted || !(e is Failed) {
        None
    } else {
        let m = e->Failed_0@;
        match s.phase {
            TeardownPhase::DeleteProject => Some("project deletion failed: "@ + m),
            TeardownPhase::ListObjects => Some("listing the bucket's objects failed: "@ + m),
            TeardownPhase::DeleteObjects => Some(
                "Failed to delete object: "@ + s.objects@[s.next_object as int]@ + ": "@ + m,
            ),
            TeardownPhase::ListUploads => Some("listing incomplete uploads failed: "@ + m),
            TeardownPhase::AbortUploads => Some(
                "aborting upload of "@ + s.uploads@[s.next_upload as int].key@ + " failed: "@ + m,
            ),
            TeardownPhase::DeleteBucket => Some("bucket deletion failed: "@ + m),
            _ => None,
        }
    }
}

/// One teardown run.
pub struct TeardownState {
    pub phase: TeardownPhase,
    pub force: bool,
    pub project: String,
    pub bucket: String,
    pub project_exists: bool,
    pub bucket_exists: bool,
    pub objects: Vec<String>,
    pub next_object: usize,
    pub uploads: Vec<PendingUpload>,
    pub next_upload: usize,
    /// The objects and the uploads have been listed.
    pub objects_listed: bool,
    pub uploads_listed: bool,
    /// Some incomplete upload could not be aborted.
    pub abort_failed: bool,
    pub aborted: bool,
    /// Why a lookup failed, once one has.
    pub abort_message: String,
    pub report: TeardownReport,
}

impl TeardownState {
    pub open spec fn wf(&self) -> bool {
        &&& self.bucket@ == bucket_name_of(self.project@)
        &&& self.next_object <= self.objects@.len()
        &&& self.next_upload <= self.uploads@.len()
        &&& self.phase == TeardownPhase::DeleteObjects ==> self.objects_listed
            && self.next_object < self.objects@.len()
        &&& self.phase == TeardownPhase::ListUploads ==> self.objects_listed
            && self.next_object == self.objects@.len()
        &&& self.phase == TeardownPhase::AbortUploads ==> self.objects_listed
            && self.next_object == self.objects@.len() && self.uploads_listed
            && self.next_upload < self.uploads@.len()
        &&& self.phase == TeardownPhase::DeleteBucket ==> self.emptied()
        &&& (self.phase == TeardownPhase::LookupProject || self.phase == TeardownPhase::LookupBucket
            || self.phase == TeardownPhase::Confirm || self.phase == TeardownPhase::DeleteProject
            || self.phase == TeardownPhase::ListObjects) ==> !self.objects_listed
            && !self.uploads_listed
        &&& (self.phase == TeardownPhase::DeleteObjects || self.phase == TeardownPhase::ListUploads)
            ==> !self.uploads_listed
        &&& (self.phase == TeardownPhase::LookupProject || self.phase == TeardownPhase::LookupBucket
            || self.phase == TeardownPhase::Confirm || self.phase == TeardownPhase::DeleteProject
            || self.phase == TeardownPhase::ListObjects || self.phase == TeardownPhase::DeleteObjects
            || self.phase == TeardownPhase::ListUploads) ==> !self.abort_failed
        &&& self.report.bucket_deleted ==> self.emptied()
        &&& self.aborted ==> self.phase == TeardownPhase::Finished
    }

    /// Every object listed in the bucket has been deleted and every
    /// incomplete upload listed has been aborted, each confirmed by the
    /// platform.
    pub open spec fn emptied(&self) -> bool {
        &&& self.objects_listed
        &&& self.next_object == self.objects@.len()
        &&& self.uploads_listed
        &&& self.next_upload == self.uploads@.len()
        &&& !self.abort_failed
    }

    /// Starts a teardown for an album. `force` skips the typed
    /// confirmation. Gives nothing when the names leave only the separator.
    pub fn new(artist: &str, album: &str, force: bool) -> (r: Option<TeardownState>)
        ensures
            r is None <==> project_name_of(artist@, album@) == seq!['-'],
            r is Some ==> {
                let s = r->Some_0;
                &&& s.wf()
                &&& s.project@ == project_name_of(artist@, album@)
                &&& s.phase == TeardownPhase::LookupProject
                &&& s.force == force
                &&& !s.objects_listed
                &&& !s.uploads_listed
                &&& s.report.problems@.len() == 0
            },
    {
        let project = derive_project_name(artist, album);
        proof {
            lemma_project_name_shape(artist@, album@);
        }
        let n = project.as_str().unicode_len();
        if n == 1 && project.as_str().get_char(0) == '-' {
            return None;
        }
        proof {
            if project@ == seq!['-'] {
                assert(project@[0] == '-');
            }
        }
        let bucket = concat(project.as_str(), "-audio");
        Some(TeardownState {
            phase: TeardownPhase::LookupProject,
            force,
            project,
            bucket,
            project_exists: false,
            bucket_exists: false,
            objects: Vec::new(),
            next_object: 0,
            uploads: Vec::new(),
            next_upload: 0,
            objects_listed: false,
            uploads_listed: false,
            abort_failed: false,
            aborted: false,
            abort_message: String::new(),
            report: TeardownReport {
                nothing_to_delete: false,
                cancelled: false,
                project_deleted: false,
                bucket_deleted: false,
                problems: Vec::new(),
            },
        })
    }

    /// The action that the current state asks for.
    pub open spec fn action_fits(&self, a: TeardownAction) -> bool {
        if self.aborted {
            a is Abort && a->Abort_message@ == self.abort_message@
        } else {
            match self.phase {
                TeardownPhase::LookupProject => a is LookupProject && a->LookupProject_name@
                    == self.project@,
                TeardownPhase::LookupBucket => a is LookupBucket && a->LookupBucket_name@
                    == self.bucket@,
                TeardownPhase::Confirm => a is Confirm && a->Confirm_name@ == self.project@,
                TeardownPhase::DeleteProject => a is DeleteProject && a->DeleteProject_name@
                    == self.project@,
                TeardownPhase::ListObjects => a is ListObjects && a->ListObjects_bucket@
                    == self.bucket@,
                TeardownPhase::DeleteObjects => a is DeleteObject && a->DeleteObject_bucket@
                    == self.bucket@ && a->DeleteObject_key@
                    == self.objects@[self.next_object as int]@,
                TeardownPhase::ListUploads => a is ListUploads && a->ListUploads_bucket@
                    == self.bucket@,
                TeardownPhase::AbortUploads => a is AbortUpload && a->AbortUpload_bucket@
                    == self.bucket@ && a->AbortUpload_key@
                    == self.uploads@[self.next_upload as int].key@ && a->AbortUpload_id@
                    == self.uploads@[self.next_upload as int].id@,
                TeardownPhase::DeleteBucket => a is DeleteBucket && a->DeleteBucket_name@
                    == self.bucket@,
                TeardownPhase::Finished => a is Finish && a->Finish_report.nothing_to_delete
                    == self.report.nothing_to_delete && a->Finish_report.cancelled
                    == self.report.cancelled && a->Finish_report.project_deleted
                    == self.report.project_deleted && a->Finish_report.bucket_deleted
                    == self.report.bucket_deleted && a->Finish_report.problems@.len()
                    == self.report.problems@.len() && forall|i: int|
                    0 <= i < self.report.problems@.len() ==> #[trigger] a->Finish_report.problems@[i]@
                        == self.report.problems@[i]@,
            }
        }
    }

    /// The action the current phase asks for. A bucket deletion is only
    /// asked for once the bucket has been emptied.
    pub fn action(&self) -> (a: TeardownAction)
        requires
            self.wf(),
        ensures
            self.action_fits(a),
            a is DeleteBucket ==> self.phase == TeardownPhase::DeleteBucket && self.emptied(),
    {
        if self.aborted {
            return TeardownAction::Abort { message: self.abort_message.clone() };
        }
        match self.phase {
            TeardownPhase::LookupProject => TeardownAction::LookupProject {
                name: self.project.clone(),
            },
            TeardownPhase::LookupBucket => TeardownAction::LookupBucket {
                name: self.bucket.clone(),
            },
            TeardownPhase::Confirm => TeardownAction::Confirm { name: self.project.clone() },
            TeardownPhase::DeleteProject => TeardownAction::DeleteProject {
                name: self.project.clone(),
            },
            TeardownPhase::ListObjects => TeardownAction::ListObjects { bucket: self.bucket.clone() },
            TeardownPhase::DeleteObjects => TeardownAction::DeleteObject {
                bucket: self.bucket.clone(),
                key: self.objects[self.next_object].clone(),
            },
            TeardownPhase::ListUploads => TeardownAction::ListUploads { bucket: self.bucket.clone() },
            TeardownPhase::AbortUploads => TeardownAction::AbortUpload {
                bucket: self.bucket.clone(),
                key: self.uploads[self.next_upload].key.clone(),
                id: self.uploads[self.next_upload].id.clone(),
            },
            TeardownPhase::DeleteBucket => TeardownAction::DeleteBucket { name: self.bucket.clone() },
            TeardownPhase::Finished => TeardownAction::Finish { report: self.report_copy() },
        }
    }

    fn report_copy(&self) -> (r: TeardownReport)
        ensures
            r.nothing_to_delete == self.report.nothing_to_delete,
            r.cancelled == self.report.cancelled,
            r.project_deleted == self.report.project_deleted,
            r.bucket_deleted == self.report.bucket_deleted,
            r.problems@.len() == self.report.problems@.len(),
            forall|i: int|
                0 <= i < self.report.problems@.len() ==> #[trigger] r.problems@[i]@
                    == self.report.problems@[i]@,
    {
        TeardownReport {
            nothing_to_delete: self.report.nothing_to_delete,
            cancelled: self.report.cancelled,
            project_deleted: self.report.project_deleted,
            bucket_deleted: self.report.bucket_deleted,
            problems: crate::publish::copy_strings(&self.report.problems),
        }
    }

    /// Moves to the bucket's part of the teardown, or finishes when there is
    /// no bucket.
    fn after_project(&mut self)
        requires
            old(self).wf(),
            old(self).phase == TeardownPhase::Confirm || old(self).phase
                == TeardownPhase::DeleteProject,
        ensures
            final(self).wf(),
            final(self).phase == (if old(self).bucket_exists {
                TeardownPhase::ListObjects
            } else {
                TeardownPhase::Finished
            }),
            final(self).objects == old(self).objects,
            final(self).next_object == old(self).next_object,
            final(self).uploads == old(self).uploads,
            final(self).next_upload == old(self).next_upload,
            final(self).objects_listed == old(self).objects_listed,
            final(self).uploads_listed == old(self).uploads_listed,
            final(self).report == old(self).report,
            final(self).abort_failed == old(self).abort_failed,
            final(self).aborted == old(self).aborted,
            final(self).project == old(self).project,
            final(self).bucket == old(self).bucket,
    {
        self.phase = if self.bucket_exists {
            TeardownPhase::ListObjects
        } else {
            TeardownPhase::Finished
        };
    }

    fn problem(&mut self, label: &str, detail: &str)
        requires
            old(self).wf(),
        ensures
            final(self).wf(),
            final(self).phase == old(self).phase,
            final(self).objects == old(self).objects,
            final(self).next_object == old(self).next_object,
            final(self).uploads == old(self).uploads,
            final(self).next_upload == old(self).next_upload,
            final(self).objects_listed == old(self).objects_listed,
            final(self).uploads_listed == old(self).uploads_listed,
            final(self).report.bucket_deleted == old(self).report.bucket_deleted,
            final(self).report.project_deleted == old(self).report.project_deleted,
            final(self).report.problems@ == old(self).report.problems@.push(
                final(self).report.problems@.last(),
            ),
            final(self).report.problems@.last()@ == label@ + detail@,
            final(self).report.nothing_to_delete == old(self).report.nothing_to_delete,
            final(self).report.cancelled == old(self).report.cancelled,
            final(self).abort_failed == old(self).abort_failed,
            final(self).force == old(self).force,
            final(self).aborted == old(self).aborted,
            final(self).project == old(self).project,
            final(self).bucket == old(self).bucket,
            final(self).bucket_exists == old(self).bucket_exists,
            final(self).project_exists == old(self).project_exists,
    {
        self.report.problems.push(concat(label, detail));
    }

    /// Takes in what came of the last action and moves on.
    ///
    /// The bucket is only ever asked to be deleted once every object listed
    /// in it has been deleted and every incomplete upload listed has been
    /// aborted; any failure on the way leaves the bucket in place.
    #[verifier::rlimit(80)]
    pub fn step(&mut self, e: TeardownEvent)
        requires
            old(self).wf(),
        ensures
            final(self).wf(),
            final(self).phase == teardown_next_phase(*old(self), e),
            final(self).project == old(self).project,
            final(self).bucket == old(self).bucket,
            final(self).report.project_deleted == (old(self).report.project_deleted || (
            !old(self).aborted && old(self).phase == TeardownPhase::DeleteProject && e is Done)),
            final(self).report.bucket_deleted == (old(self).report.bucket_deleted || (
            !old(self).aborted && old(self).phase == TeardownPhase::DeleteBucket && e is Done)),
            final(self).next_object > old(self).next_object ==> old(self).phase
                == TeardownPhase::DeleteObjects && e is Done && final(self).next_object
                == old(self).next_object + 1,
            final(self).next_upload > old(self).next_upload ==> old(self).phase
                == TeardownPhase::AbortUploads && (e is Done || e is Failed)
                && final(self).next_upload == old(self).next_upload + 1,
            !old(self).aborted && old(self).phase == TeardownPhase::AbortUploads && (e is Done
                || e is Failed) ==> final(self).next_upload == old(self).next_upload + 1,
            match problem_of(*old(self), e) {
                Some(p) => final(self).report.problems@ == old(self).report.problems@.push(
                    final(self).report.problems@.last(),
                ) && final(self).report.problems@.last()@ == p,
                None => final(self).report.problems == old(self).report.problems,
            },
            old(self).objects_listed ==> final(self).objects == old(self).objects,
            !old(self).aborted && old(self).phase == TeardownPhase::ListObjects && e is Objects
                ==> final(self).objects@ == e->Objects_0@ && final(self).next_object == 0
                && final(self).objects_listed,
            !old(self).aborted && old(self).phase == TeardownPhase::ListUploads && e is Uploads
                ==> final(self).uploads@ == e->Uploads_0@ && final(self).next_upload == 0
                && final(self).uploads_listed,
            old(self).uploads_listed ==> final(self).uploads == old(self).uploads,
            final(self).phase == TeardownPhase::DeleteBucket ==> final(self).emptied(),
            old(self).phase == TeardownPhase::Confirm && e is Typed ==> (final(self).phase
                == TeardownPhase::Finished <==> trim_of(e->Typed_0@) != old(self).project@ || (
            !old(self).project_exists && !old(self).bucket_exists)),
            old(self).phase == TeardownPhase::Confirm && e is Typed && trim_of(e->Typed_0@)
                != old(self).project@ ==> final(self).report.cancelled,
            old(self).phase == TeardownPhase::LookupBucket && e is Exists && !old(self).project_exists && !e->Exists_0 ==> final(self).phase == TeardownPhase::Finished
                && final(self).report.nothing_to_delete,
            old(self).phase == TeardownPhase::DeleteProject && e is Failed ==> final(self).phase
                == (if old(self).bucket_exists {
                TeardownPhase::ListObjects
            } else {
                TeardownPhase::Finished
            }),
    {
        if self.aborted {
            return ;
        }
        match self.phase {
            TeardownPhase::LookupProject => match e {
                TeardownEvent::Exists(found) => {
                    self.project_exists = found;
                    self.phase = TeardownPhase::LookupBucket;
                },
                TeardownEvent::Failed(m) => {
                    self.abort_message = m;
                    self.aborted = true;
                    self.phase = TeardownPhase::Finished;
                },
                _ => {
                    self.abort_message = String::from_str("unexpected answer to a lookup");
                    self.aborted = true;
                    self.phase = TeardownPhase::Finished;
                },
            },
            TeardownPhase::LookupBucket => match e {
                TeardownEvent::Exists(found) => {
                    self.bucket_exists = found;
                    if !self.project_exists && !found {
                        self.report.nothing_to_delete = true;
                        self.phase = TeardownPhase::Finished;
                    } else if self.force {
                        self.phase = if self.project_exists {
                            TeardownPhase::DeleteProject
                        } else {
                            TeardownPhase::ListObjects
                        };
                    } else {
                        self.phase = TeardownPhase::Confirm;
                    }
                },
                TeardownEvent::Failed(m) => {
                    self.abort_message = m;
                    self.aborted = true;
                    self.phase = TeardownPhase::Finished;
                },
                _ => {
                    self.abort_message = String::from_str("unexpected answer to a lookup");
                    self.aborted = true;
                    self.phase = TeardownPhase::Finished;
                },
            },
            TeardownPhase::Confirm => match e {
                TeardownEvent::Typed(t) => {
                    let typed = string_of_chars(&trim_chars(&chars_of(t.as_str())));
                    if same_text(typed.as_str(), self.project.as_str()) {
                        if self.project_exists {
                            self.phase = TeardownPhase::DeleteProject;
                        } else {
                            self.after_project();
                        }
                    } else {
                        self.report.cancelled = true;
                        self.phase = TeardownPhase::Finished;
                    }
                },
                _ => {},
            },
            TeardownPhase::DeleteProject => match e {
                TeardownEvent::Done => {
                    self.report.project_deleted = true;
                    self.after_project();
                },
                TeardownEvent::Failed(m) => {
                    self.problem("project deletion failed: ", m.as_str());
                    self.after_project();
                },
                _ => {},
            },
            TeardownPhase::ListObjects => match e {
                TeardownEvent::Objects(keys) => {
                    self.objects = keys;
                    self.next_object = 0;
                    self.objects_listed = true;
                    self.phase = if self.objects.len() > 0 {
                        TeardownPhase::DeleteObjects
                    } else {
                        TeardownPhase::ListUploads
                    };
                },
                TeardownEvent::Failed(m) => {
                    self.problem("listing the bucket's objects failed: ", m.as_str());
                    self.phase = TeardownPhase::Finished;
                },
                _ => {},
            },
            TeardownPhase::DeleteObjects => match e {
                TeardownEvent::Done => {
                    let n = self.objects.len();
                    self.next_object = self.next_object + 1;
                    if self.next_object == n {
                        self.phase = TeardownPhase::ListUploads;
                    }
                },
                TeardownEvent::Failed(m) => {
                    let label = concat3(
                        "Failed to delete object: ",
                        self.objects[self.next_object].as_str(),
                        ": ",
                    );
                    self.problem(label.as_str(), m.as_str());
                    self.phase = TeardownPhase::Finished;
                },
                _ => {},
            },
            TeardownPhase::ListUploads => match e {
                TeardownEvent::Uploads(list) => {
                    self.uploads = list;
                    self.next_upload = 0;
                    self.uploads_listed = true;
                    self.phase = if self.uploads.len() > 0 {
                        TeardownPhase::AbortUploads
                    } else {
                        TeardownPhase::DeleteBucket
                    };
                },
                TeardownEvent::Failed(m) => {
                    self.problem("listing incomplete uploads failed: ", m.as_str());
                    self.phase = TeardownPhase::Finished;
                },
                _ => {},
            },
            TeardownPhase::AbortUploads => match e {
                TeardownEvent::Done => {
                    let n = self.uploads.len();
                    self.next_upload = self.next_upload + 1;
                    if self.next_upload == n {
                        self.phase = if self.abort_failed {
                            TeardownPhase::Finished
                        } else {
                            TeardownPhase::DeleteBucket
                        };
                    }
                },
                TeardownEvent::Failed(m) => {
                    let label = concat3(
                        "aborting upload of ",
                        self.uploads[self.next_upload].key.as_str(),
                        " failed: ",
                    );
                    self.problem(label.as_str(), m.as_str());
                    self.abort_failed = true;
                    let n = self.uploads.len();
                    self.next_upload = self.next_upload + 1;
                    if self.next_upload == n {
                        self.phase = TeardownPhase::Finished;
                    }
                },
                _ => {},
            },
            TeardownPhase::DeleteBucket => match e {
                TeardownEvent::Done => {
                    self.report.bucket_deleted = true;
                    self.phase = TeardownPhase::Finished;
                },
                TeardownEvent::Failed(m) => {
                    self.problem("bucket deletion failed: ", m.as_str());
                    self.phase = TeardownPhase::Finished;
                },
                _ => {},
            },
            TeardownPhase::Finished => {},
        }
    }
}

/// Teardown ordering. In every state a teardown can reach, a bucket that
/// is about to be deleted, or has been, has had each of its listed objects
/// deleted and each of its listed incomplete uploads aborted.
pub proof fn lemma_bucket_deleted_only_when_empty(s: TeardownState)
    requires
        s.wf(),
    ensures
        s.phase == TeardownPhase::DeleteBucket || s.report.bucket_deleted ==> s.objects_listed
            && s.next_object == s.objects@.len() && s.uploads_listed && s.next_upload
            == s.uploads@.len(),
{
}

} // verus!
