//! Acquiring a repository: clone over HTTPS, fall back to SSH, and
//! optionally strip the clone down to a plain tree.
//!
//! Nothing here touches the network or the disk. An [`Acquisition`] says
//! which [`Action`] it is waiting for; the caller performs it and reports
//! what happened as an [`Event`], until the acquisition is finished.
use crate::errors::{DegitError, FetchError, UrlError};
use crate::github::GitHub;
use crate::remote::{url_parse, RepoUrl};
use crate::version::{latest_version_tag, spec_latest_version_tag};
use vstd::prelude::*;
use vstd::string::*;

verus! {

/// What a degit checks out before the history is removed.
#[derive(Debug, PartialEq, Eq)]
pub enum CheckoutTarget {
    /// A branch or tag, by the full name of its reference. The head is set
    /// to the reference.
    Tag(String),
    /// A bare commit, by its id. The head is detached at it.
    Commit(String),
    /// Whatever the clone checked out. Nothing is checked out again.
    DefaultBranchTip,
}

/// Which transports a clone may use.
#[derive(Debug, Clone, Copy, PartialEq, Eq, Structural)]
pub enum Transport {
    /// HTTPS, then SSH if HTTPS fails.
    HttpsThenSsh,
    /// SSH only.
    Ssh,
}

/// What to clone, and where to.
#[derive(Debug, PartialEq, Eq)]
pub struct CloneRequest {
    /// The URL handed to the HTTPS attempt.
    pub source: String,
    /// The remote the SSH attempt clones from, or why the source has none.
    pub ssh_source: Result<String, UrlError>,
    /// The directory to clone into.
    pub target_path: String,
    /// The only branch to fetch, if the clone is restricted to one.
    pub branch: Option<String>,
    /// How many commits of history the HTTPS attempt fetches; all of them
    /// where `None`.
    pub depth: Option<u32>,
    /// The transports to try.
    pub transport: Transport,
}

/// A [`CloneRequest`] as plain sequences of characters.
pub struct CloneRequestView {
    pub source: Seq<char>,
    pub ssh_source: Result<Seq<char>, UrlError>,
    pub target_path: Seq<char>,
    pub branch: Option<Seq<char>>,
    pub depth: Option<u32>,
    pub transport: Transport,
}

impl View for CloneRequest {
    type V = CloneRequestView;

    open spec fn view(&self) -> CloneRequestView {
        CloneRequestView {
            source: self.source@,
            ssh_source: match self.ssh_source {
                Ok(url) => Ok(url@),
                Err(e) => Err(e),
            },
            target_path: self.target_path@,
            branch: match self.branch {
                Some(branch) => Some(branch@),
                None => None,
            },
            depth: self.depth,
            transport: self.transport,
        }
    }
}

/// What happens to the clone once it is there.
#[derive(Debug, PartialEq, Eq)]
pub enum Plan {
    /// It is kept as it is, history included.
    Keep,
    /// It is stripped down to a plain tree, at `revision` if one is given.
    Degit { revision: Option<String> },
}

/// Something for the caller to do.
#[derive(Debug, PartialEq, Eq)]
pub enum Action {
    /// Find out whether `path` exists.
    ProbeTarget { path: String },
    /// Clone `url` over HTTPS, without credentials.
    CloneHttps { url: String, branch: Option<String>, depth: Option<u32> },
    /// Clone `url` over SSH with the host's credentials, full history.
    CloneSsh { url: String, branch: Option<String> },
    /// Look `revision` up in the clone.
    ResolveRevision { revision: String },
    /// Check the tree of the resolved revision out into the working
    /// directory.
    CheckoutTree,
    /// Point the head at the reference named `reference`.
    SetHead { reference: String },
    /// Detach the head at `commit`.
    SetHeadDetached { commit: String },
    /// List the names of the clone's tags.
    ListTags,
    /// Delete the clone's metadata directory.
    RemoveMetadata,
    /// Nothing: the acquisition is finished.
    Done,
}

/// What came of an [`Action`].
#[derive(Debug, PartialEq, Eq)]
pub enum Event {
    /// The target path was looked at.
    TargetProbed { exists: bool },
    /// The clone is in place.
    Cloned,
    /// The clone failed, with what the transport reported.
    CloneFailed(String),
    /// The revision names this target.
    RevisionResolved(CheckoutTarget),
    /// The clone has no such revision.
    RevisionNotFound,
    /// The tree is checked out.
    CheckedOut,
    /// The head points where it was asked to.
    HeadSet,
    /// The clone's tags in listing order, or `None` if they could not be
    /// listed.
    TagsListed(Option<Vec<String>>),
    /// The metadata directory is gone.
    MetadataRemoved,
    /// The metadata directory could not be deleted.
    MetadataRemovalFailed,
}

/// How far an acquisition has come.
#[derive(Debug, PartialEq, Eq)]
pub enum Phase {
    Probing,
    CloningHttps,
    CloningSsh { url: String },
    Resolving { revision: String },
    CheckingOut { target: CheckoutTarget, version: String },
    SettingHead { target: CheckoutTarget, version: String },
    ListingTags,
    Cleaning { version: Option<String> },
    Finished { outcome: Result<Option<String>, FetchError> },
}

/// The phase that clones over SSH, or the end if the source has no SSH
/// form.
pub open spec fn ssh_phase(request: CloneRequest) -> Phase {
    match request.ssh_source {
        Ok(url) => Phase::CloningSsh { url },
        Err(e) => Phase::Finished { outcome: Err(FetchError::InvalidUrl(e)) },
    }
}

/// The phase that brings the working tree to `target`. The default branch
/// tip is already checked out, so the tags are listed next.
pub open spec fn checkout_phase(target: CheckoutTarget, version: String) -> Phase {
    match target {
        CheckoutTarget::DefaultBranchTip => Phase::ListingTags,
        _ => Phase::CheckingOut { target, version },
    }
}

/// The phase that follows a successful clone.
pub open spec fn cloned_phase(plan: Plan) -> Phase {
    match plan {
        Plan::Keep => Phase::Finished { outcome: Ok(None) },
        Plan::Degit { revision: Some(revision) } => Phase::Resolving { revision },
        Plan::Degit { revision: None } => Phase::ListingTags,
    }
}

/// The phase that follows `phase` once `event` has been reported. An event
/// that does not answer the pending action changes nothing.
pub open spec fn next_phase(request: CloneRequest, plan: Plan, phase: Phase, event: Event) -> Phase {
    match (phase, event) {
        (Phase::Probing, Event::TargetProbed { exists }) => if exists {
            Phase::Finished { outcome: Ok(None) }
        } else {
            match request.transport {
                Transport::HttpsThenSsh => Phase::CloningHttps,
                Transport::Ssh => ssh_phase(request),
            }
        },
        (Phase::CloningHttps, Event::Cloned) => cloned_phase(plan),
        (Phase::CloningHttps, Event::CloneFailed(_)) => ssh_phase(request),
        (Phase::CloningSsh { .. }, Event::Cloned) => cloned_phase(plan),
        (Phase::CloningSsh { .. }, Event::CloneFailed(reason)) => Phase::Finished {
            outcome: Err(FetchError::CloneFailed(reason)),
        },
        (Phase::Resolving { revision }, Event::RevisionResolved(target)) => checkout_phase(
            target,
            revision,
        ),
        (Phase::Resolving { .. }, Event::RevisionNotFound) => Phase::Finished {
            outcome: Err(FetchError::Degit(DegitError::RevisionNotFound)),
        },
        (Phase::CheckingOut { target, version }, Event::CheckedOut) => Phase::SettingHead {
            target,
            version,
        },
        (Phase::SettingHead { version, .. }, Event::HeadSet) => Phase::Cleaning {
            version: Some(version),
        },
        (Phase::ListingTags, Event::TagsListed(Some(tags))) => Phase::Cleaning {
            version: spec_latest_version_tag(tags@),
        },
        (Phase::ListingTags, Event::TagsListed(None)) => Phase::Cleaning { version: None },
        (Phase::Cleaning { version }, Event::MetadataRemoved) => Phase::Finished {
            outcome: Ok(version),
        },
        (Phase::Cleaning { .. }, Event::MetadataRemovalFailed) => Phase::Finished {
            outcome: Err(FetchError::Degit(DegitError::CleanupFailed)),
        },
        (phase, _) => phase,
    }
}

/// What `phase` waits for.
pub open spec fn pending_action(request: CloneRequest, phase: Phase) -> Action {
    match phase {
        Phase::Probing => Action::ProbeTarget { path: request.target_path },
        Phase::CloningHttps => Action::CloneHttps {
            url: request.source,
            branch: request.branch,
            depth: request.depth,
        },
        Phase::CloningSsh { url } => Action::CloneSsh { url, branch: request.branch },
        Phase::Resolving { revision } => Action::ResolveRevision { revision },
        Phase::CheckingOut { .. } => Action::CheckoutTree,
        Phase::SettingHead { target: CheckoutTarget::Tag(reference), .. } => Action::SetHead {
            reference,
        },
        Phase::SettingHead { target: CheckoutTarget::Commit(commit), .. } =>
            Action::SetHeadDetached { commit },
        Phase::SettingHead { target: CheckoutTarget::DefaultBranchTip, .. } => Action::Done,
        Phase::ListingTags => Action::ListTags,
        Phase::Cleaning { .. } => Action::RemoveMetadata,
        Phase::Finished { .. } => Action::Done,
    }
}

/// A phase that checks out or sets the head has something to check out:
/// its target is never the default branch tip.
pub open spec fn phase_is_sound(phase: Phase) -> bool {
    match phase {
        Phase::CheckingOut { target, .. } => !(target is DefaultBranchTip),
        Phase::SettingHead { target, .. } => !(target is DefaultBranchTip),
        _ => true,
    }
}

/// The phase reached from `phase` after `events`, reported in order.
pub open spec fn phase_after(
    request: CloneRequest,
    plan: Plan,
    phase: Phase,
    events: Seq<Event>,
) -> Phase
    decreases events.len(),
{
    if events.len() == 0 {
        phase
    } else {
        phase_after(
            request,
            plan,
            next_phase(request, plan, phase, events[0]),
            events.drop_first(),
        )
    }
}

/// One acquisition of a repository, from the first look at the target path
/// to its outcome.
#[derive(Debug, PartialEq, Eq)]
pub struct Acquisition {
    request: CloneRequest,
    plan: Plan,
    phase: Phase,
}

fn copy_of(text: &Option<String>) -> (copy: Option<String>)
    ensures
        copy == *text,
{
    match text {
        Some(text) => Some(text.clone()),
        None => None,
    }
}

impl Acquisition {
    #[verifier::type_invariant]
    spec fn sound(self) -> bool {
        phase_is_sound(self.phase)
    }

    /// What is being cloned.
    pub closed spec fn request(self) -> CloneRequest {
        self.request
    }

    /// What becomes of the clone.
    pub closed spec fn plan(self) -> Plan {
        self.plan
    }

    /// How far the acquisition has come.
    pub closed spec fn phase(self) -> Phase {
        self.phase
    }

    /// An acquisition that has not started.
    pub fn new(request: CloneRequest, plan: Plan) -> (acquisition: Acquisition)
        ensures
            acquisition.request() == request,
            acquisition.plan() == plan,
            acquisition.phase() == Phase::Probing,
    {
        Acquisition { request, plan, phase: Phase::Probing }
    }

    /// The action to perform next. Its outcome goes to [`Self::advance`].
    pub fn pending(&self) -> (action: Action)
        ensures
            action == pending_action(self.request(), self.phase()),
            phase_is_sound(self.phase()),
    {
        proof {
            use_type_invariant(self);
        }
        match &self.phase {
            Phase::Probing => Action::ProbeTarget { path: self.request.target_path.clone() },
            Phase::CloningHttps => Action::CloneHttps {
                url: self.request.source.clone(),
                branch: copy_of(&self.request.branch),
                depth: self.request.depth,
            },
            Phase::CloningSsh { url } => Action::CloneSsh {
                url: url.clone(),
                branch: copy_of(&self.request.branch),
            },
            Phase::Resolving { revision } => Action::ResolveRevision { revision: revision.clone() },
            Phase::CheckingOut { .. } => Action::CheckoutTree,
            Phase::SettingHead { target, .. } => match target {
                CheckoutTarget::Tag(reference) => Action::SetHead { reference: reference.clone() },
                CheckoutTarget::Commit(commit) => Action::SetHeadDetached {
                    commit: commit.clone(),
                },
                CheckoutTarget::DefaultBranchTip => Action::Done,
            },
            Phase::ListingTags => Action::ListTags,
            Phase::Cleaning { .. } => Action::RemoveMetadata,
            Phase::Finished { .. } => Action::Done,
        }
    }

    /// Takes in what came of the pending action.
    pub fn advance(self, event: Event) -> (next: Acquisition)
        ensures
            next.request() == self.request(),
            next.plan() == self.plan(),
            next.phase() == next_phase(self.request(), self.plan(), self.phase(), event),
    {
        proof {
            use_type_invariant(&self);
        }
        let Acquisition { request, plan, phase } = self;
        let phase = match (phase, event) {
            (Phase::Probing, Event::TargetProbed { exists }) => {
                if exists {
                    Phase::Finished { outcome: Ok(None) }
                } else {
                    match request.transport {
                        Transport::HttpsThenSsh => Phase::CloningHttps,
                        Transport::Ssh => Self::fall_back(&request),
                    }
                }
            },
            (Phase::CloningHttps, Event::Cloned) => Self::proceed(&plan),
            (Phase::CloningHttps, Event::CloneFailed(_)) => Self::fall_back(&request),
            (Phase::CloningSsh { .. }, Event::Cloned) => Self::proceed(&plan),
            (Phase::CloningSsh { .. }, Event::CloneFailed(reason)) => Phase::Finished {
                outcome: Err(FetchError::CloneFailed(reason)),
            },
            (Phase::Resolving { revision }, Event::RevisionResolved(target)) => match target {
                CheckoutTarget::DefaultBranchTip => Phase::ListingTags,
                target => Phase::CheckingOut { target, version: revision },
            },
            (Phase::Resolving { .. }, Event::RevisionNotFound) => Phase::Finished {
                outcome: Err(FetchError::Degit(DegitError::RevisionNotFound)),
            },
            (Phase::CheckingOut { target, version }, Event::CheckedOut) => Phase::SettingHead {
                target,
                version,
            },
            (Phase::SettingHead { version, .. }, Event::HeadSet) => Phase::Cleaning {
                version: Some(version),
            },
            (Phase::ListingTags, Event::TagsListed(Some(tags))) => Phase::Cleaning {
                version: latest_version_tag(&tags),
            },
            (Phase::ListingTags, Event::TagsListed(None)) => Phase::Cleaning { version: None },
            (Phase::Cleaning { version }, Event::MetadataRemoved) => Phase::Finished {
                outcome: Ok(version),
            },
            (Phase::Cleaning { .. }, Event::MetadataRemovalFailed) => Phase::Finished {
                outcome: Err(FetchError::Degit(DegitError::CleanupFailed)),
            },
            (phase, _) => phase,
        };
        Acquisition { request, plan, phase }
    }

    fn fall_back(request: &CloneRequest) -> (phase: Phase)
        ensures
            phase == ssh_phase(*request),
    {
        match &request.ssh_source {
            Ok(url) => Phase::CloningSsh { url: url.clone() },
            Err(e) => Phase::Finished { outcome: Err(FetchError::InvalidUrl(*e)) },
        }
    }

    fn proceed(plan: &Plan) -> (phase: Phase)
        ensures
            phase == cloned_phase(*plan),
    {
        match plan {
            Plan::Keep => Phase::Finished { outcome: Ok(None) },
            Plan::Degit { revision: Some(revision) } => Phase::Resolving {
                revision: revision.clone(),
            },
            Plan::Degit { revision: None } => Phase::ListingTags,
        }
    }

    /// Whether nothing is left to do.
    pub fn is_finished(&self) -> (finished: bool)
        ensures
            finished == (self.phase() is Finished),
    {
        match &self.phase {
            Phase::Finished { .. } => true,
            _ => false,
        }
    }

    /// How the acquisition ended: the version that was checked out or found
    /// to be the latest, if any, or why there is no usable tree. `None`
    /// while the acquisition is under way.
    pub fn into_outcome(self) -> (outcome: Option<Result<Option<String>, FetchError>>)
        ensures
            match outcome {
                Some(outcome) => self.phase() == (Phase::Finished { outcome }),
                None => !(self.phase() is Finished),
            },
    {
        match self.phase {
            Phase::Finished { outcome } => Some(outcome),
            _ => None,
        }
    }
}

/// The SSH remote of a source given as text, or why it has none.
pub open spec fn ssh_source_of(source: Seq<char>) -> Result<Seq<char>, UrlError> {
    match url_parse(source) {
        Some(url) => Ok(url.ssh_url()),
        None => Err(UrlError::Malformed),
    }
}

pub struct Git;

impl Git {
    /// Plans a shallow clone of `url` into `working_dir`, restricted to
    /// `branch` if one is given. Nothing is cloned where `working_dir`
    /// exists already. HTTPS is tried first with one commit of history, then
    /// SSH with all of it.
    pub fn clone(url: &RepoUrl, working_dir: &str, branch: Option<&str>) -> (acquisition:
        Acquisition)
        ensures
            acquisition.request()@ == (CloneRequestView {
                source: url@.href,
                ssh_source: Ok(url@.ssh_url()),
                target_path: working_dir@,
                branch: match branch {
                    Some(branch) => Some(branch@),
                    None => None,
                },
                depth: Some(1u32),
                transport: Transport::HttpsThenSsh,
            }),
            acquisition.plan() == Plan::Keep,
            acquisition.phase() == Phase::Probing,
    {
        let request = CloneRequest {
            source: url.as_str().to_owned(),
            ssh_source: Ok(GitHub::convert_to_ssh_url(url)),
            target_path: working_dir.to_owned(),
            branch: match branch {
                Some(branch) => Some(branch.to_owned()),
                None => None,
            },
            depth: Some(1),
            transport: Transport::HttpsThenSsh,
        };
        Acquisition::new(request, Plan::Keep)
    }

    /// Plans a clone of `url` into `working_dir` over SSH alone, with the
    /// host's credentials, restricted to `branch` if one is given. Nothing
    /// is cloned where `working_dir` exists already.
    pub fn ssh_clone(url: &RepoUrl, working_dir: &str, branch: Option<&str>) -> (acquisition:
        Acquisition)
        ensures
            acquisition.request()@ == (CloneRequestView {
                source: url@.href,
                ssh_source: Ok(url@.ssh_url()),
                target_path: working_dir@,
                branch: match branch {
                    Some(branch) => Some(branch@),
                    None => None,
                },
                depth: None,
                transport: Transport::Ssh,
            }),
            acquisition.plan() == Plan::Keep,
            acquisition.phase() == Phase::Probing,
    {
        let request = CloneRequest {
            source: url.as_str().to_owned(),
            ssh_source: Ok(GitHub::convert_to_ssh_url(url)),
            target_path: working_dir.to_owned(),
            branch: match branch {
                Some(branch) => Some(branch.to_owned()),
                None => None,
            },
            depth: None,
            transport: Transport::Ssh,
        };
        Acquisition::new(request, Plan::Keep)
    }

    /// Plans a full clone of `url` into `target` that is then stripped of
    /// its history: at `tag_version` if one is given, else at the tip of
    /// the default branch, in which case the outcome names the latest
    /// version among the clone's tags. Where `target` exists already,
    /// nothing is done and no version is named.
    pub fn clone_and_degit(url: &str, target: &str, tag_version: Option<String>) -> (acquisition:
        Acquisition)
        ensures
            acquisition.request()@ == (CloneRequestView {
                source: url@,
                ssh_source: ssh_source_of(url@),
                target_path: target@,
                branch: None,
                depth: None,
                transport: Transport::HttpsThenSsh,
            }),
            acquisition.plan() == (Plan::Degit { revision: tag_version }),
            acquisition.phase() == Phase::Probing,
    {
        let ssh_source = match RepoUrl::parse(url) {
            Ok(parsed) => Ok(GitHub::convert_to_ssh_url(&parsed)),
            Err(e) => Err(e),
        };
        let request = CloneRequest {
            source: url.to_owned(),
            ssh_source,
            target_path: target.to_owned(),
            branch: None,
            depth: None,
            transport: Transport::HttpsThenSsh,
        };
        Acquisition::new(request, Plan::Degit { revision: tag_version })
    }
}

} // verus!
