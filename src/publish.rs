//! The publish workflow as a state machine.
//!
//! The caller performs the action that `PublishState::start` or
//! `PublishState::step` returns (a remote call, the track uploads, the site
//! build), feeds what came of it to `PublishState::step`, and repeats until
//! the action is `Finish` or `Abort`. Every decision (which step comes next, which failures are fatal
//! and which only leave a warning, which URLs are used) is made here.

use vstd::prelude::*;
use crate::naming::{derive_project_name, lemma_project_name_shape, project_name_of};
use crate::text::{concat, concat3};
use crate::upload::FailedUpload;

verus! {

/// The step a publish run is waiting on.
#[derive(Clone, Copy, Debug, PartialEq, Eq, Structural)]
pub enum PublishPhase {
    LookupProject,
    LookupBucket,
    CreateBucket,
    Uploading,
    PublicAccess,
    VerifyBucket,
    CdnDomain,
    CdnZone,
    CdnRecord,
    BuildSite,
    CreateProject,
    UploadSite,
    SiteZone,
    SiteRecord,
    Finished,
    Aborted,
}

/// The part of a publish run that decides what comes next.
#[derive(Clone, Copy, Debug, PartialEq, Eq, Structural)]
pub struct Control {
    pub phase: PublishPhase,
    /// The project is known to exist on the platform.
    pub project_exists: bool,
    /// The audio bucket was created by this run.
    pub bucket_fresh: bool,
    /// A base domain is configured, so audio gets a CDN subdomain.
    pub cdn_domain: bool,
    /// A subdomain and a base domain are configured for the site.
    pub site_domain: bool,
}

/// What came of the last action.
#[derive(Debug)]
pub enum PublishEvent {
    /// A lookup answered whether the resource exists.
    Exists(bool),
    /// The action succeeded.
    Done,
    /// The action failed with this message.
    Failed(String),
    /// A DNS zone lookup answered with the zone's id, if there is one.
    ZoneFound(Option<String>),
    /// The site bundle was deployed; the URL the platform reported, if any.
    Deployed(Option<String>),
    /// Every track upload reached a terminal state; these were given up.
    UploadsJoined(Vec<FailedUpload>),
}

/// Why a publish run stopped.
#[derive(Debug)]
pub enum PublishError {
    /// The artist and album names leave nothing to name the project by.
    InvalidProjectName,
    /// A step that the run cannot do without failed on the platform.
    Remote(String),
    /// Some tracks could not be uploaded.
    UploadsFailed(Vec<FailedUpload>),
    /// The audio bucket was not found right after it was set up.
    BucketMissing,
    /// An event that does not answer the action in progress.
    UnexpectedEvent,
}

/// What a finished publish run reports.
#[derive(Clone, Debug)]
pub struct DeploymentOutcome {
    pub live_url: String,
    pub custom_domain: Option<String>,
    pub warnings: Vec<String>,
}

/// The next thing to do.
#[derive(Debug)]
pub enum PublishAction {
    LookupProject { name: String },
    LookupBucket { name: String },
    CreateBucket { name: String },
    /// Upload every track to the bucket and report the join.
    UploadTracks { bucket: String },
    ConfigurePublicAccess { bucket: String },
    VerifyBucket { name: String },
    AddCustomDomain { bucket: String, domain: String },
    LookupZone { domain: String },
    CreateDnsRecord { zone_id: String, name: String, target: String },
    /// Build the site, with audio served from `asset_base_url`.
    BuildSite { asset_base_url: String },
    CreateProject { name: String },
    UploadSite { project: String },
    Finish { outcome: DeploymentOutcome },
    Abort { error: PublishError },
}

/// The step after "make sure the project exists": create it unless it is
/// known to exist, then upload the site.
pub open spec fn ensure_project_phase(project_exists: bool) -> PublishPhase {
    if project_exists {
        PublishPhase::UploadSite
    } else {
        PublishPhase::CreateProject
    }
}

/// Steps whose failure only leaves a warning.
pub open spec fn is_best_effort(phase: PublishPhase) -> bool {
    phase == PublishPhase::PublicAccess || phase == PublishPhase::CdnDomain || phase
        == PublishPhase::CdnZone || phase == PublishPhase::CdnRecord || phase
        == PublishPhase::SiteZone || phase == PublishPhase::SiteRecord
}

pub open spec fn is_finished(phase: PublishPhase) -> bool {
    phase == PublishPhase::Finished || phase == PublishPhase::Aborted
}

/// The phase after `e` arrives in `c`.
pub open spec fn next_phase(c: Control, e: PublishEvent) -> PublishPhase {
    if is_finished(c.phase) {
        c.phase
    } else if e is Failed {
        if c.phase == PublishPhase::PublicAccess {
            PublishPhase::VerifyBucket
        } else if c.phase == PublishPhase::CdnDomain || c.phase == PublishPhase::CdnZone
            || c.phase == PublishPhase::CdnRecord {
            PublishPhase::BuildSite
        } else if c.phase == PublishPhase::SiteZone || c.phase == PublishPhase::SiteRecord {
            PublishPhase::Finished
        } else {
            PublishPhase::Aborted
        }
    } else {
        match c.phase {
            PublishPhase::LookupProject => match e {
                PublishEvent::Exists(_) => PublishPhase::LookupBucket,
                _ => PublishPhase::Aborted,
            },
            PublishPhase::LookupBucket => match e {
                PublishEvent::Exists(true) => PublishPhase::Uploading,
                PublishEvent::Exists(false) => PublishPhase::CreateBucket,
                _ => PublishPhase::Aborted,
            },
            PublishPhase::CreateBucket => match e {
                PublishEvent::Done => PublishPhase::Uploading,
                _ => PublishPhase::Aborted,
            },
            PublishPhase::Uploading => match e {
                PublishEvent::UploadsJoined(f) => if f@.len() > 0 {
                    PublishPhase::Aborted
                } else if c.bucket_fresh {
                    PublishPhase::PublicAccess
                } else {
                    PublishPhase::VerifyBucket
                },
                _ => PublishPhase::Aborted,
            },
            PublishPhase::PublicAccess => match e {
                PublishEvent::Done => PublishPhase::VerifyBucket,
                _ => PublishPhase::Aborted,
            },
            PublishPhase::VerifyBucket => match e {
                PublishEvent::Exists(true) => if c.cdn_domain {
                    PublishPhase::CdnDomain
                } else {
                    PublishPhase::BuildSite
                },
                _ => PublishPhase::Aborted,
            },
            PublishPhase::CdnDomain => match e {
                PublishEvent::Done => PublishPhase::CdnZone,
                _ => PublishPhase::Aborted,
            },
            PublishPhase::CdnZone => match e {
                PublishEvent::ZoneFound(Some(_)) => PublishPhase::CdnRecord,
                PublishEvent::ZoneFound(None) => PublishPhase::BuildSite,
                _ => PublishPhase::Aborted,
            },
            PublishPhase::CdnRecord => match e {
                PublishEvent::Done => PublishPhase::BuildSite,
                _ => PublishPhase::Aborted,
            },
            PublishPhase::BuildSite => match e {
                PublishEvent::Done => ensure_project_phase(c.project_exists),
                _ => PublishPhase::Aborted,
            },
            PublishPhase::CreateProject => match e {
                PublishEvent::Done => ensure_project_phase(true),
                _ => PublishPhase::Aborted,
            },
            PublishPhase::UploadSite => match e {
                PublishEvent::Deployed(_) => if c.site_domain {
                    PublishPhase::SiteZone
                } else {
                    PublishPhase::Finished
                },
                _ => PublishPhase::Aborted,
            },
            PublishPhase::SiteZone => match e {
                PublishEvent::ZoneFound(Some(_)) => PublishPhase::SiteRecord,
                PublishEvent::ZoneFound(None) => PublishPhase::Finished,
                _ => PublishPhase::Aborted,
            },
            PublishPhase::SiteRecord => match e {
                PublishEvent::Done => PublishPhase::Finished,
                _ => PublishPhase::Aborted,
            },
            _ => c.phase,
        }
    }
}

/// The control part after `e` arrives in `c`.
pub open spec fn control_next(c: Control, e: PublishEvent) -> Control {
    Control {
        phase: next_phase(c, e),
        project_exists: if c.phase == PublishPhase::LookupProject && e is Exists {
            e->Exists_0
        } else if c.phase == PublishPhase::CreateProject && e is Done {
            true
        } else {
            c.project_exists
        },
        bucket_fresh: c.bucket_fresh || (c.phase == PublishPhase::CreateBucket && e is Done),
        cdn_domain: c.cdn_domain,
        site_domain: c.site_domain,
    }
}

/// Whether `e` arriving in `c` leaves a warning.
pub open spec fn warns(c: Control, e: PublishEvent) -> bool {
    &&& is_best_effort(c.phase)
    &&& (e is Failed || ((c.phase == PublishPhase::CdnZone || c.phase == PublishPhase::SiteZone)
        && e == PublishEvent::ZoneFound(None)))
}

/// The control part after a series of events.
pub open spec fn run_control(c: Control, events: Seq<PublishEvent>) -> Control
    decreases events.len(),
{
    if events.len() == 0 {
        c
    } else {
        run_control(control_next(c, events[0]), events.drop_first())
    }
}

/// Idempotent project creation. Once the lookup has found the project, no
/// event, and no series of events, leads to a request to create it; in
/// particular making sure of the project twice over creates nothing.
pub proof fn lemma_existing_project_never_created(c: Control, events: Seq<PublishEvent>)
    requires
        c.project_exists,
        c.phase != PublishPhase::CreateProject,
        c.phase != PublishPhase::LookupProject,
    ensures
        run_control(c, events).project_exists,
        run_control(c, events).phase != PublishPhase::CreateProject,
        run_control(c, events).phase != PublishPhase::LookupProject,
    decreases events.len(),
{
    if events.len() > 0 {
        lemma_existing_project_never_created(control_next(c, events[0]), events.drop_first());
    }
}

/// A creation request is only made for a project not known to exist, and
/// its success moves straight on to the upload, never to a second request.
pub proof fn lemma_create_project_once(c: Control, e: PublishEvent)
    ensures
        control_next(c, e).phase == PublishPhase::CreateProject ==> !c.project_exists,
        c.phase == PublishPhase::CreateProject && e is Done ==> control_next(c, e).phase
            == PublishPhase::UploadSite && control_next(c, e).project_exists,
{
}

/// Best-effort degradation. A failed DNS step never aborts the run: the
/// CDN record's failure goes on to build the site, the site record's
/// failure finishes the run, and either leaves a warning.
pub proof fn lemma_dns_failure_degrades(c: Control, message: String)
    ensures
        c.phase == PublishPhase::CdnRecord ==> control_next(c, PublishEvent::Failed(message)).phase
            == PublishPhase::BuildSite,
        c.phase == PublishPhase::SiteRecord ==> control_next(
            c,
            PublishEvent::Failed(message),
        ).phase == PublishPhase::Finished,
        c.phase == PublishPhase::CdnRecord || c.phase == PublishPhase::SiteRecord ==> warns(
            c,
            PublishEvent::Failed(message),
        ),
{
}

/// The bucket that holds a project's audio.
pub open spec fn bucket_name_of(project: Seq<char>) -> Seq<char> {
    project + "-audio"@
}

pub open spec fn cdn_domain_of(project: Seq<char>, base: Seq<char>) -> Seq<char> {
    project + "-audio."@ + base
}

pub open spec fn default_asset_url_of(account: Seq<char>) -> Seq<char> {
    "https://pub-"@ + account + ".r2.dev"@
}

pub open spec fn storage_host_of(account: Seq<char>) -> Seq<char> {
    account + ".r2.cloudflarestorage.com"@
}

pub open spec fn pages_host_of(project: Seq<char>) -> Seq<char> {
    project + ".pages.dev"@
}

pub open spec fn default_live_url_of(project: Seq<char>) -> Seq<char> {
    "https://"@ + pages_host_of(project)
}

pub open spec fn site_domain_of(sub: Seq<char>, base: Seq<char>) -> Seq<char> {
    sub + "."@ + base
}

/// The error an aborting step reports.
pub open spec fn abort_fits(c: Control, e: PublishEvent, err: PublishError) -> bool {
    if is_finished(c.phase) {
        err == PublishError::UnexpectedEvent
    } else {
        match e {
            PublishEvent::Failed(m) => err is Remote && err->Remote_0@ == m@,
            PublishEvent::UploadsJoined(f) => if c.phase == PublishPhase::Uploading {
                err == PublishError::UploadsFailed(f)
            } else {
                err == PublishError::UnexpectedEvent
            },
            PublishEvent::Exists(false) => if c.phase == PublishPhase::VerifyBucket {
                err == PublishError::BucketMissing
            } else {
                err == PublishError::UnexpectedEvent
            },
            _ => err == PublishError::UnexpectedEvent,
        }
    }
}

/// The text that starts the warning left by a failed best-effort step.
pub open spec fn warning_label_of(phase: PublishPhase) -> Seq<char> {
    match phase {
        PublishPhase::PublicAccess => "public access configuration failed: "@,
        PublishPhase::CdnDomain => "custom domain setup failed: "@,
        PublishPhase::CdnZone => "DNS zone lookup failed: "@,
        PublishPhase::SiteZone => "DNS zone lookup failed: "@,
        _ => "DNS record creation failed: "@,
    }
}

fn warning_label(phase: PublishPhase) -> (r: &'static str)
    ensures
        r@ == warning_label_of(phase),
{
    match phase {
        PublishPhase::PublicAccess => "public access configuration failed: ",
        PublishPhase::CdnDomain => "custom domain setup failed: ",
        PublishPhase::CdnZone => "DNS zone lookup failed: ",
        PublishPhase::SiteZone => "DNS zone lookup failed: ",
        _ => "DNS record creation failed: ",
    }
}

/// The warning that `e` leaves in `s`, when it leaves one.
pub open spec fn warning_of(s: PublishState, e: PublishEvent) -> Seq<char> {
    match e {
        PublishEvent::Failed(m) => warning_label_of(s.control.phase) + m@,
        _ => "DNS zone not found for "@ + s.base_domain->Some_0@,
    }
}

/// Copies of each string of `v`.
pub fn copy_strings(v: &Vec<String>) -> (r: Vec<String>)
    ensures
        r@.len() == v@.len(),
        forall|i: int| 0 <= i < v@.len() ==> #[trigger] r@[i]@ == v@[i]@,
{
    let mut r: Vec<String> = Vec::new();
    let mut i: usize = 0;
    while i < v.len()
        invariant
            i <= v@.len(),
            r@.len() == i,
            forall|j: int| 0 <= j < i ==> #[trigger] r@[j]@ == v@[j]@,
        decreases v@.len() - i,
    {
        r.push(v[i].clone());
        i = i + 1;
    }
    r
}

/// One publish run.
pub struct PublishState {
    pub control: Control,
    pub project: String,
    pub bucket: String,
    pub account_id: String,
    pub base_domain: Option<String>,
    pub subdomain: Option<String>,
    pub asset_url: String,
    pub live_url: String,
    pub zone_id: String,
    pub warnings: Vec<String>,
}

impl PublishState {
    pub open spec fn wf(&self) -> bool {
        &&& self.bucket@ == bucket_name_of(self.project@)
        &&& self.control.cdn_domain == self.base_domain is Some
        &&& self.control.site_domain == (self.base_domain is Some && self.subdomain is Some)
        &&& (self.control.phase == PublishPhase::CdnDomain || self.control.phase
            == PublishPhase::CdnZone || self.control.phase == PublishPhase::CdnRecord)
            ==> self.control.cdn_domain
        &&& (self.control.phase == PublishPhase::SiteZone || self.control.phase
            == PublishPhase::SiteRecord) ==> self.control.site_domain
    }

    /// The action that the current state asks for.
    pub open spec fn action_fits(&self, a: PublishAction) -> bool {
        match self.control.phase {
            PublishPhase::LookupProject => match a {
                PublishAction::LookupProject { name } => name@ == self.project@,
                _ => false,
            },
            PublishPhase::LookupBucket => match a {
                PublishAction::LookupBucket { name } => name@ == self.bucket@,
                _ => false,
            },
            PublishPhase::CreateBucket => match a {
                PublishAction::CreateBucket { name } => name@ == self.bucket@,
                _ => false,
            },
            PublishPhase::Uploading => match a {
                PublishAction::UploadTracks { bucket } => bucket@ == self.bucket@,
                _ => false,
            },
            PublishPhase::PublicAccess => match a {
                PublishAction::ConfigurePublicAccess { bucket } => bucket@ == self.bucket@,
                _ => false,
            },
            PublishPhase::VerifyBucket => match a {
                PublishAction::VerifyBucket { name } => name@ == self.bucket@,
                _ => false,
            },
            PublishPhase::CdnDomain => match a {
                PublishAction::AddCustomDomain { bucket, domain } => bucket@ == self.bucket@
                    && domain@ == cdn_domain_of(self.project@, self.base_domain->Some_0@),
                _ => false,
            },
            PublishPhase::CdnZone => match a {
                PublishAction::LookupZone { domain } => domain@ == self.base_domain->Some_0@,
                _ => false,
            },
            PublishPhase::CdnRecord => match a {
                PublishAction::CreateDnsRecord { zone_id, name, target } => zone_id@
                    == self.zone_id@ && name@ == cdn_domain_of(
                    self.project@,
                    self.base_domain->Some_0@,
                ) && target@ == storage_host_of(self.account_id@),
                _ => false,
            },
            PublishPhase::BuildSite => match a {
                PublishAction::BuildSite { asset_base_url } => asset_base_url@ == self.asset_url@,
                _ => false,
            },
            PublishPhase::CreateProject => match a {
                PublishAction::CreateProject { name } => name@ == self.project@,
                _ => false,
            },
            PublishPhase::UploadSite => match a {
                PublishAction::UploadSite { project } => project@ == self.project@,
                _ => false,
            },
            PublishPhase::SiteZone => match a {
                PublishAction::LookupZone { domain } => domain@ == self.base_domain->Some_0@,
                _ => false,
            },
            PublishPhase::SiteRecord => match a {
                PublishAction::CreateDnsRecord { zone_id, name, target } => zone_id@
                    == self.zone_id@ && name@ == site_domain_of(
                    self.subdomain->Some_0@,
                    self.base_domain->Some_0@,
                ) && target@ == pages_host_of(self.project@),
                _ => false,
            },
            PublishPhase::Finished => match a {
                PublishAction::Finish { outcome } => {
                    &&& outcome.live_url@ == self.live_url@
                    &&& outcome.warnings@.len() == self.warnings@.len()
                    &&& forall|i: int|
                        0 <= i < self.warnings@.len() ==> #[trigger] outcome.warnings@[i]@
                            == self.warnings@[i]@
                    &&& if self.control.site_domain {
                        outcome.custom_domain is Some && outcome.custom_domain->Some_0@ == "https://"@
                            + site_domain_of(self.subdomain->Some_0@, self.base_domain->Some_0@)
                    } else {
                        outcome.custom_domain is None
                    }
                },
                _ => false,
            },
            PublishPhase::Aborted => a is Abort,
        }
    }

    /// Starts a publish run for an album. Fails before any remote call when
    /// the artist and album names leave only the separator as a name.
    pub fn new(
        artist: &str,
        album: &str,
        account_id: &str,
        base_domain: Option<String>,
        subdomain: Option<String>,
    ) -> (r: Result<PublishState, PublishError>)
        ensures
            r is Err <==> project_name_of(artist@, album@) == seq!['-'],
            r is Err ==> r->Err_0 == PublishError::InvalidProjectName,
            r is Ok ==> {
                let s = r->Ok_0;
                &&& s.wf()
                &&& s.project@ == project_name_of(artist@, album@)
                &&& s.account_id@ == account_id@
                &&& s.base_domain == base_domain
                &&& s.subdomain == subdomain
                &&& s.control.phase == PublishPhase::LookupProject
                &&& !s.control.project_exists
                &&& !s.control.bucket_fresh
                &&& s.warnings@.len() == 0
            },
    {
        let project = derive_project_name(artist, album);
        let n = project.as_str().unicode_len();
        proof {
            lemma_project_name_shape(artist@, album@);
        }
        if n == 0 || (n == 1 && project.as_str().get_char(0) == '-') {
            return Err(PublishError::InvalidProjectName);
        }
        proof {
            if project@ == seq!['-'] {
                assert(project@[0] == '-');
            }
        }
        let bucket = concat(project.as_str(), "-audio");
        let cdn = base_domain.is_some();
        let site = base_domain.is_some() && subdomain.is_some();
        Ok(PublishState {
            control: Control {
                phase: PublishPhase::LookupProject,
                project_exists: false,
                bucket_fresh: false,
                cdn_domain: cdn,
                site_domain: site,
            },
            project,
            bucket,
            account_id: String::from_str(account_id),
            base_domain,
            subdomain,
            asset_url: String::new(),
            live_url: String::new(),
            zone_id: String::new(),
            warnings: Vec::new(),
        })
    }
    /// The first action of a run.
    pub fn start(&self) -> (a: PublishAction)
        requires
            self.wf(),
            self.control.phase == PublishPhase::LookupProject,
        ensures
            self.action_fits(a),
    {
        self.current_action()
    }

    fn current_action(&self) -> (a: PublishAction)
        requires
            self.wf(),
            self.control.phase != PublishPhase::Aborted,
        ensures
            self.action_fits(a),
    {
        match self.control.phase {
            PublishPhase::LookupProject => PublishAction::LookupProject { name: self.project.clone() },
            PublishPhase::LookupBucket => PublishAction::LookupBucket { name: self.bucket.clone() },
            PublishPhase::CreateBucket => PublishAction::CreateBucket { name: self.bucket.clone() },
            PublishPhase::Uploading => PublishAction::UploadTracks { bucket: self.bucket.clone() },
            PublishPhase::PublicAccess => PublishAction::ConfigurePublicAccess {
                bucket: self.bucket.clone(),
            },
            PublishPhase::VerifyBucket => PublishAction::VerifyBucket { name: self.bucket.clone() },
            PublishPhase::CdnDomain => {
                let base = self.base_domain.as_ref().unwrap();
                PublishAction::AddCustomDomain {
                    bucket: self.bucket.clone(),
                    domain: concat3(self.project.as_str(), "-audio.", base.as_str()),
                }
            },
            PublishPhase::CdnZone => {
                let base = self.base_domain.as_ref().unwrap();
                PublishAction::LookupZone { domain: base.clone() }
            },
            PublishPhase::CdnRecord => {
                let base = self.base_domain.as_ref().unwrap();
                PublishAction::CreateDnsRecord {
                    zone_id: self.zone_id.clone(),
                    name: concat3(self.project.as_str(), "-audio.", base.as_str()),
                    target: concat(self.account_id.as_str(), ".r2.cloudflarestorage.com"),
                }
            },
            PublishPhase::BuildSite => PublishAction::BuildSite {
                asset_base_url: self.asset_url.clone(),
            },
            PublishPhase::CreateProject => PublishAction::CreateProject { name: self.project.clone() },
            PublishPhase::UploadSite => PublishAction::UploadSite { project: self.project.clone() },
            PublishPhase::SiteZone => {
                let base = self.base_domain.as_ref().unwrap();
                PublishAction::LookupZone { domain: base.clone() }
            },
            PublishPhase::SiteRecord => {
                let base = self.base_domain.as_ref().unwrap();
                let sub = self.subdomain.as_ref().unwrap();
                PublishAction::CreateDnsRecord {
                    zone_id: self.zone_id.clone(),
                    name: concat3(sub.as_str(), ".", base.as_str()),
                    target: concat(self.project.as_str(), ".pages.dev"),
                }
            },
            _ => {
                let custom_domain = if self.control.site_domain {
                    let base = self.base_domain.as_ref().unwrap();
                    let sub = self.subdomain.as_ref().unwrap();
                    let host = concat3(sub.as_str(), ".", base.as_str());
                    Some(concat("https://", host.as_str()))
                } else {
                    None
                };
                PublishAction::Finish {
                    outcome: DeploymentOutcome {
                        live_url: self.live_url.clone(),
                        custom_domain,
                        warnings: copy_strings(&self.warnings),
                    },
                }
            },
        }
    }

    fn warn(&mut self, w: String)
        ensures
            final(self).warnings@ == old(self).warnings@.push(w),
            final(self).control == old(self).control,
            final(self).project == old(self).project,
            final(self).bucket == old(self).bucket,
            final(self).account_id == old(self).account_id,
            final(self).base_domain == old(self).base_domain,
            final(self).subdomain == old(self).subdomain,
            final(self).asset_url == old(self).asset_url,
            final(self).live_url == old(self).live_url,
            final(self).zone_id == old(self).zone_id,
    {
        self.warnings.push(w);
    }

    fn use_default_assets(&mut self)
        ensures
            final(self).asset_url@ == default_asset_url_of(old(self).account_id@),
            final(self).warnings == old(self).warnings,
            final(self).control == old(self).control,
            final(self).project == old(self).project,
            final(self).bucket == old(self).bucket,
            final(self).account_id == old(self).account_id,
            final(self).base_domain == old(self).base_domain,
            final(self).subdomain == old(self).subdomain,
            final(self).live_url == old(self).live_url,
            final(self).zone_id == old(self).zone_id,
    {
        self.asset_url = concat3("https://pub-", self.account_id.as_str(), ".r2.dev");
    }

    fn abort(&mut self, error: PublishError) -> (a: PublishAction)
        ensures
            a == (PublishAction::Abort { error }),
            final(self).control == (Control { phase: PublishPhase::Aborted, ..old(self).control }),
            final(self).warnings == old(self).warnings,
            final(self).project == old(self).project,
            final(self).bucket == old(self).bucket,
            final(self).account_id == old(self).account_id,
            final(self).base_domain == old(self).base_domain,
            final(self).subdomain == old(self).subdomain,
            final(self).asset_url == old(self).asset_url,
            final(self).live_url == old(self).live_url,
            final(self).zone_id == old(self).zone_id,
    {
        self.control.phase = PublishPhase::Aborted;
        PublishAction::Abort { error }
    }

    /// Takes in what came of the last action and returns the next one.
    pub fn step(&mut self, e: PublishEvent) -> (a: PublishAction)
        requires
            old(self).wf(),
        ensures
            final(self).wf(),
            final(self).control == control_next(old(self).control, e),
            final(self).project == old(self).project,
            final(self).bucket == old(self).bucket,
            final(self).account_id == old(self).account_id,
            final(self).base_domain == old(self).base_domain,
            final(self).subdomain == old(self).subdomain,
            final(self).control.phase != PublishPhase::Aborted ==> final(self).action_fits(a),
            final(self).control.phase == PublishPhase::Aborted ==> a is Abort && abort_fits(
                old(self).control,
                e,
                a->Abort_error,
            ),
            warns(old(self).control, e) ==> final(self).warnings@ == old(self).warnings@.push(
                final(self).warnings@.last(),
            ) && final(self).warnings@.last()@ == warning_of(*old(self), e),
            !warns(old(self).control, e) ==> final(self).warnings == old(self).warnings,
            final(self).control.phase == PublishPhase::BuildSite && old(self).control.phase
                != PublishPhase::BuildSite ==> final(self).asset_url@ == if old(self).control.phase
                == PublishPhase::CdnRecord && e is Done {
                "https://"@ + cdn_domain_of(old(self).project@, old(self).base_domain->Some_0@)
            } else {
                default_asset_url_of(old(self).account_id@)
            },
            old(self).control.phase == PublishPhase::UploadSite && e is Deployed ==> final(self).live_url@ == match e->Deployed_0 {
                Some(u) => u@,
                None => default_live_url_of(old(self).project@),
            },
            !(old(self).control.phase == PublishPhase::UploadSite && e is Deployed) ==> final(self).live_url == old(self).live_url,
            (old(self).control.phase == PublishPhase::CdnZone || old(self).control.phase
                == PublishPhase::SiteZone) && e is ZoneFound && e->ZoneFound_0 is Some ==> final(self).zone_id == e->ZoneFound_0->Some_0,
    {
        let c = self.control;
        if c.phase == PublishPhase::Finished {
            return self.current_action();
        }
        if c.phase == PublishPhase::Aborted {
            return PublishAction::Abort { error: PublishError::UnexpectedEvent };
        }
        match e {
            PublishEvent::Failed(m) => {
                match c.phase {
                    PublishPhase::PublicAccess => {
                        self.warn(concat(warning_label(c.phase), m.as_str()));
                        self.control.phase = PublishPhase::VerifyBucket;
                    },
                    PublishPhase::CdnDomain | PublishPhase::CdnZone | PublishPhase::CdnRecord => {
                        self.warn(concat(warning_label(c.phase), m.as_str()));
                        self.use_default_assets();
                        self.control.phase = PublishPhase::BuildSite;
                    },
                    PublishPhase::SiteZone | PublishPhase::SiteRecord => {
                        self.warn(concat(warning_label(c.phase), m.as_str()));
                        self.control.phase = PublishPhase::Finished;
                    },
                    _ => {
                        return self.abort(PublishError::Remote(m));
                    },
                }
                self.current_action()
            },
            PublishEvent::Exists(found) => {
                match c.phase {
                    PublishPhase::LookupProject => {
                        self.control.project_exists = found;
                        self.control.phase = PublishPhase::LookupBucket;
                    },
                    PublishPhase::LookupBucket => {
                        self.control.phase = if found {
                            PublishPhase::Uploading
                        } else {
                            PublishPhase::CreateBucket
                        };
                    },
                    PublishPhase::VerifyBucket => {
                        if !found {
                            return self.abort(PublishError::BucketMissing);
                        }
                        if c.cdn_domain {
                            self.control.phase = PublishPhase::CdnDomain;
                        } else {
                            self.use_default_assets();
                            self.control.phase = PublishPhase::BuildSite;
                        }
                    },
                    _ => {
                        return self.abort(PublishError::UnexpectedEvent);
                    },
                }
                self.current_action()
            },
            PublishEvent::Done => {
                match c.phase {
                    PublishPhase::CreateBucket => {
                        self.control.bucket_fresh = true;
                        self.control.phase = PublishPhase::Uploading;
                    },
                    PublishPhase::PublicAccess => {
                        self.control.phase = PublishPhase::VerifyBucket;
                    },
                    PublishPhase::CdnDomain => {
                        self.control.phase = PublishPhase::CdnZone;
                    },
                    PublishPhase::CdnRecord => {
                        let base = self.base_domain.as_ref().unwrap();
                        let host = concat3(self.project.as_str(), "-audio.", base.as_str());
                        self.asset_url = concat("https://", host.as_str());
                        self.control.phase = PublishPhase::BuildSite;
                    },
                    PublishPhase::BuildSite => {
                        self.control.phase = if c.project_exists {
                            PublishPhase::UploadSite
                        } else {
                            PublishPhase::CreateProject
                        };
                    },
                    PublishPhase::CreateProject => {
                        self.control.project_exists = true;
                        self.control.phase = PublishPhase::UploadSite;
                    },
                    PublishPhase::SiteRecord => {
                        self.control.phase = PublishPhase::Finished;
                    },
                    _ => {
                        return self.abort(PublishError::UnexpectedEvent);
                    },
                }
                self.current_action()
            },
            PublishEvent::ZoneFound(zone) => {
                match c.phase {
                    PublishPhase::CdnZone => {
                        match zone {
                            Some(id) => {
                                self.zone_id = id;
                                self.control.phase = PublishPhase::CdnRecord;
                            },
                            None => {
                                let base = self.base_domain.as_ref().unwrap();
                                let w = concat("DNS zone not found for ", base.as_str());
                                self.warn(w);
                                self.use_default_assets();
                                self.control.phase = PublishPhase::BuildSite;
                            },
                        }
                    },
                    PublishPhase::SiteZone => {
                        match zone {
                            Some(id) => {
                                self.zone_id = id;
                                self.control.phase = PublishPhase::SiteRecord;
                            },
                            None => {
                                let base = self.base_domain.as_ref().unwrap();
                                let w = concat("DNS zone not found for ", base.as_str());
                                self.warn(w);
                                self.control.phase = PublishPhase::Finished;
                            },
                        }
                    },
                    _ => {
                        return self.abort(PublishError::UnexpectedEvent);
                    },
                }
                self.current_action()
            },
            PublishEvent::Deployed(url) => {
                if c.phase != PublishPhase::UploadSite {
                    return self.abort(PublishError::UnexpectedEvent);
                }
                self.live_url = match url {
                    Some(u) => u,
                    None => concat3("https://", self.project.as_str(), ".pages.dev"),
                };
                self.control.phase = if c.site_domain {
                    PublishPhase::SiteZone
                } else {
                    PublishPhase::Finished
                };
                self.current_action()
            },
            PublishEvent::UploadsJoined(failed) => {
                if c.phase != PublishPhase::Uploading {
                    return self.abort(PublishError::UnexpectedEvent);
                }
                if failed.len() > 0 {
                    return self.abort(PublishError::UploadsFailed(failed));
                }
                self.control.phase = if c.bucket_fresh {
                    PublishPhase::PublicAccess
                } else {
                    PublishPhase::VerifyBucket
                };
                self.current_action()
            },
        }
    }
}

} // verus!
