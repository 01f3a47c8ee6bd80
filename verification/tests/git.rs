use pop_parachains::errors::{DegitError, FetchError, UrlError};
use pop_parachains::git::{
    Acquisition, Action, CheckoutTarget, CloneRequest, Event, Git, Plan, Transport,
};
use pop_parachains::remote::RepoUrl;

const SOURCE: &str = "https://github.com/r0gue-io/base-parachain";
const SSH_SOURCE: &str = "git@github.com:r0gue-io/base-parachain.git";

/// Reports `events` one by one and returns each action that was pending
/// before an event, then the outcome.
fn drive(
    mut acquisition: Acquisition,
    events: Vec<Event>,
) -> (Vec<String>, Option<Result<Option<String>, FetchError>>) {
    let mut asked = Vec::new();
    for event in events {
        asked.push(describe(&acquisition.pending()));
        acquisition = acquisition.advance(event);
    }
    asked.push(describe(&acquisition.pending()));
    (asked, acquisition.into_outcome())
}

fn describe(action: &Action) -> String {
    match action {
        Action::ProbeTarget { path } => format!("probe {path}"),
        Action::CloneHttps { url, branch, depth } => format!("https {url} {branch:?} {depth:?}"),
        Action::CloneSsh { url, branch } => format!("ssh {url} {branch:?}"),
        Action::ResolveRevision { revision } => format!("resolve {revision}"),
        Action::CheckoutTree => "checkout".to_string(),
        Action::SetHead { reference } => format!("head {reference}"),
        Action::SetHeadDetached { commit } => format!("detach {commit}"),
        Action::ListTags => "tags".to_string(),
        Action::RemoveMetadata => "clean".to_string(),
        Action::Done => "done".to_string(),
    }
}

fn tags(names: &[&str]) -> Vec<String> {
    names.iter().map(|name| name.to_string()).collect()
}

#[test]
fn degit_of_default_branch_reports_latest_version() {
    let (asked, outcome) = drive(
        Git::clone_and_degit(SOURCE, "/tmp/para", None),
        vec![
            Event::TargetProbed { exists: false },
            Event::Cloned,
            Event::TagsListed(Some(tags(&["polkadot-v1.9.0", "some-other-tag", "polkadot-v1.10.0"]))),
            Event::MetadataRemoved,
        ],
    );
    assert_eq!(
        asked,
        vec![
            "probe /tmp/para".to_string(),
            format!("https {SOURCE} None None"),
            "tags".to_string(),
            "clean".to_string(),
            "done".to_string(),
        ]
    );
    assert_eq!(outcome, Some(Ok(Some("polkadot-v1.10.0".to_string()))));
}

#[test]
fn degit_without_version_tags_names_no_version() {
    let (_, outcome) = drive(
        Git::clone_and_degit(SOURCE, "/tmp/para", None),
        vec![
            Event::TargetProbed { exists: false },
            Event::Cloned,
            Event::TagsListed(Some(tags(&["nightly"]))),
            Event::MetadataRemoved,
        ],
    );
    assert_eq!(outcome, Some(Ok(None)));

    let (asked, outcome) = drive(
        Git::clone_and_degit(SOURCE, "/tmp/para", None),
        vec![
            Event::TargetProbed { exists: false },
            Event::Cloned,
            Event::TagsListed(None),
            Event::MetadataRemoved,
        ],
    );
    assert_eq!(asked[3], "clean");
    assert_eq!(outcome, Some(Ok(None)));
}

#[test]
fn degit_at_a_tag_sets_the_head_to_its_reference() {
    let (asked, outcome) = drive(
        Git::clone_and_degit(SOURCE, "/tmp/para", Some("v1.0.0".to_string())),
        vec![
            Event::TargetProbed { exists: false },
            Event::Cloned,
            Event::RevisionResolved(CheckoutTarget::Tag("refs/tags/v1.0.0".to_string())),
            Event::CheckedOut,
            Event::HeadSet,
            Event::MetadataRemoved,
        ],
    );
    assert_eq!(
        asked,
        vec![
            "probe /tmp/para".to_string(),
            format!("https {SOURCE} None None"),
            "resolve v1.0.0".to_string(),
            "checkout".to_string(),
            "head refs/tags/v1.0.0".to_string(),
            "clean".to_string(),
            "done".to_string(),
        ]
    );
    assert_eq!(outcome, Some(Ok(Some("v1.0.0".to_string()))));
}

#[test]
fn degit_at_a_commit_detaches_the_head() {
    let commit = "0bb6249268c0b77d2834640b84cb52fdd3d7e860";
    let (asked, outcome) = drive(
        Git::clone_and_degit(SOURCE, "/tmp/para", Some("0bb6249".to_string())),
        vec![
            Event::TargetProbed { exists: false },
            Event::Cloned,
            Event::RevisionResolved(CheckoutTarget::Commit(commit.to_string())),
            Event::CheckedOut,
            Event::HeadSet,
            Event::MetadataRemoved,
        ],
    );
    assert_eq!(asked[4], format!("detach {commit}"));
    assert_eq!(outcome, Some(Ok(Some("0bb6249".to_string()))));
}

#[test]
fn revision_that_names_the_default_tip_skips_the_checkout() {
    let (asked, outcome) = drive(
        Git::clone_and_degit(SOURCE, "/tmp/para", Some("HEAD".to_string())),
        vec![
            Event::TargetProbed { exists: false },
            Event::Cloned,
            Event::RevisionResolved(CheckoutTarget::DefaultBranchTip),
            Event::TagsListed(Some(tags(&["v0.1.0"]))),
            Event::MetadataRemoved,
        ],
    );
    assert_eq!(asked[3], "tags");
    assert_eq!(outcome, Some(Ok(Some("v0.1.0".to_string()))));
}

#[test]
fn missing_revision_keeps_the_metadata() {
    let (asked, outcome) = drive(
        Git::clone_and_degit(SOURCE, "/tmp/para", Some("v9.9.9".to_string())),
        vec![
            Event::TargetProbed { exists: false },
            Event::Cloned,
            Event::RevisionNotFound,
            Event::MetadataRemoved,
        ],
    );
    assert!(!asked.contains(&"clean".to_string()));
    assert_eq!(asked[3], "done");
    assert_eq!(outcome, Some(Err(FetchError::Degit(DegitError::RevisionNotFound))));
}

#[test]
fn failed_cleanup_is_reported() {
    let (_, outcome) = drive(
        Git::clone_and_degit(SOURCE, "/tmp/para", None),
        vec![
            Event::TargetProbed { exists: false },
            Event::Cloned,
            Event::TagsListed(Some(tags(&["v1.0.0"]))),
            Event::MetadataRemovalFailed,
        ],
    );
    assert_eq!(outcome, Some(Err(FetchError::Degit(DegitError::CleanupFailed))));
}

#[test]
fn existing_target_is_left_alone() {
    for tag in [None, Some("v1.0.0".to_string())] {
        let (asked, outcome) = drive(
            Git::clone_and_degit(SOURCE, "/tmp/para", tag),
            vec![Event::TargetProbed { exists: true }, Event::Cloned, Event::MetadataRemoved],
        );
        assert_eq!(asked, vec!["probe /tmp/para", "done", "done", "done"]);
        assert_eq!(outcome, Some(Ok(None)));
    }
    let url = RepoUrl::parse(SOURCE).unwrap();
    let (asked, outcome) =
        drive(Git::clone(&url, "/tmp/para", None), vec![Event::TargetProbed { exists: true }]);
    assert_eq!(asked, vec!["probe /tmp/para", "done"]);
    assert_eq!(outcome, Some(Ok(None)));
}

#[test]
fn https_failure_falls_back_to_ssh() {
    let (asked, outcome) = drive(
        Git::clone_and_degit(SOURCE, "/tmp/para", None),
        vec![
            Event::TargetProbed { exists: false },
            Event::CloneFailed("connection refused".to_string()),
            Event::Cloned,
            Event::TagsListed(Some(tags(&["v1.0.0"]))),
            Event::MetadataRemoved,
        ],
    );
    assert_eq!(asked[1], format!("https {SOURCE} None None"));
    assert_eq!(asked[2], format!("ssh {SSH_SOURCE} None"));
    assert_eq!(asked[3], "tags");
    assert_eq!(outcome, Some(Ok(Some("v1.0.0".to_string()))));
}

#[test]
fn ssh_failure_after_https_failure_is_fatal() {
    let (asked, outcome) = drive(
        Git::clone_and_degit(SOURCE, "/tmp/para", None),
        vec![
            Event::TargetProbed { exists: false },
            Event::CloneFailed("connection refused".to_string()),
            Event::CloneFailed("no credentials left".to_string()),
            Event::Cloned,
        ],
    );
    assert_eq!(asked[3], "done");
    assert_eq!(asked[4], "done");
    assert_eq!(outcome, Some(Err(FetchError::CloneFailed("no credentials left".to_string()))));
}

#[test]
fn source_without_ssh_form_ends_the_fallback() {
    let (asked, outcome) = drive(
        Git::clone_and_degit("../local/repository", "/tmp/para", None),
        vec![Event::TargetProbed { exists: false }, Event::CloneFailed("not found".to_string())],
    );
    assert_eq!(asked[1], "https ../local/repository None None");
    assert_eq!(asked[2], "done");
    assert_eq!(outcome, Some(Err(FetchError::InvalidUrl(UrlError::Malformed))));
}

#[test]
fn source_that_is_no_url_can_still_be_cloned() {
    let (_, outcome) = drive(
        Git::clone_and_degit("../local/repository", "/tmp/para", None),
        vec![
            Event::TargetProbed { exists: false },
            Event::Cloned,
            Event::TagsListed(Some(vec![])),
            Event::MetadataRemoved,
        ],
    );
    assert_eq!(outcome, Some(Ok(None)));
}

#[test]
fn plain_clone_is_shallow_and_keeps_the_branch() {
    let url = RepoUrl::parse(SOURCE).unwrap();
    let (asked, outcome) = drive(
        Git::clone(&url, "/tmp/para", Some("main")),
        vec![
            Event::TargetProbed { exists: false },
            Event::CloneFailed("denied".to_string()),
            Event::Cloned,
        ],
    );
    assert_eq!(
        asked,
        vec![
            "probe /tmp/para".to_string(),
            format!("https {SOURCE} Some(\"main\") Some(1)"),
            format!("ssh {SSH_SOURCE} Some(\"main\")"),
            "done".to_string(),
        ]
    );
    assert_eq!(outcome, Some(Ok(None)));
}

#[test]
fn ssh_clone_never_tries_https() {
    let url = RepoUrl::parse(SOURCE).unwrap();
    let (asked, outcome) = drive(
        Git::ssh_clone(&url, "/tmp/para", Some("main")),
        vec![Event::TargetProbed { exists: false }, Event::CloneFailed("denied".to_string())],
    );
    assert_eq!(
        asked,
        vec![
            "probe /tmp/para".to_string(),
            format!("ssh {SSH_SOURCE} Some(\"main\")"),
            "done".to_string(),
        ]
    );
    assert_eq!(outcome, Some(Err(FetchError::CloneFailed("denied".to_string()))));
}

#[test]
fn fallback_goes_on_as_a_direct_ssh_clone() {
    let url = RepoUrl::parse(SOURCE).unwrap();
    let (through_https, first) = drive(
        Git::clone(&url, "/tmp/para", None),
        vec![
            Event::TargetProbed { exists: false },
            Event::CloneFailed("denied".to_string()),
            Event::Cloned,
        ],
    );
    let (direct, second) = drive(
        Git::ssh_clone(&url, "/tmp/para", None),
        vec![Event::TargetProbed { exists: false }, Event::Cloned],
    );
    assert_eq!(through_https[2..], direct[1..]);
    assert_eq!(first, second);
}

#[test]
fn events_that_answer_nothing_change_nothing() {
    let (asked, outcome) = drive(
        Git::clone_and_degit(SOURCE, "/tmp/para", None),
        vec![
            Event::Cloned,
            Event::MetadataRemoved,
            Event::TargetProbed { exists: false },
            Event::HeadSet,
            Event::TargetProbed { exists: true },
        ],
    );
    assert_eq!(asked[0], "probe /tmp/para");
    assert_eq!(asked[1], "probe /tmp/para");
    assert_eq!(asked[2], "probe /tmp/para");
    assert_eq!(asked[3], format!("https {SOURCE} None None"));
    assert_eq!(asked[5], format!("https {SOURCE} None None"));
    assert_eq!(outcome, None);
}

#[test]
fn acquisition_under_way_has_no_outcome() {
    let acquisition = Git::clone_and_degit(SOURCE, "/tmp/para", None);
    assert!(!acquisition.is_finished());
    let acquisition = acquisition.advance(Event::TargetProbed { exists: true });
    assert!(acquisition.is_finished());
    assert_eq!(acquisition.into_outcome(), Some(Ok(None)));
}

#[test]
fn hand_made_request_is_followed() {
    let request = CloneRequest {
        source: "https://example.org/a/b".to_string(),
        ssh_source: Err(UrlError::MissingName),
        target_path: "out".to_string(),
        branch: None,
        depth: Some(3),
        transport: Transport::Ssh,
    };
    let (asked, outcome) = drive(
        Acquisition::new(request, Plan::Keep),
        vec![Event::TargetProbed { exists: false }],
    );
    assert_eq!(asked, vec!["probe out", "done"]);
    assert_eq!(outcome, Some(Err(FetchError::InvalidUrl(UrlError::MissingName))));
}
