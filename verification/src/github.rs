//! GitHub addresses derived from a repository URL.
use crate::errors::{ApiError, UrlError};
use crate::json::{json_decode, Json, JsonValue};
use crate::release::{release_views, releases_of, Release, ReleaseView};
use crate::remote::{RepoUrl, UrlView};
use crate::text::{lemma_split_at_separator, lemma_split_without_separator, texts};
use vstd::prelude::*;
use vstd::string::*;

verus! {

/// The host assumed for a URL that has none.
pub open spec fn default_host() -> Seq<char> {
    "github.com"@
}

/// `path` without the slash it starts with, if it starts with one.
pub open spec fn without_leading_slash(path: Seq<char>) -> Seq<char> {
    if path.len() > 0 && path[0] == '/' {
        path.subrange(1, path.len() as int)
    } else {
        path
    }
}

impl UrlView {
    /// The first path segment: the organization or user that owns the
    /// repository.
    pub open spec fn organization(self) -> Result<Seq<char>, UrlError> {
        match self.path_segments() {
            Some(segments) => Ok(segments[0]),
            None => Err(UrlError::MissingOrganization),
        }
    }

    /// The second path segment: the repository's name.
    pub open spec fn repository_name(self) -> Result<Seq<char>, UrlError> {
        match self.path_segments() {
            Some(segments) if segments.len() >= 2 => Ok(segments[1]),
            _ => Err(UrlError::MissingName),
        }
    }

    /// Where the REST API lists the repository's releases.
    pub open spec fn api_releases(self) -> Result<Seq<char>, UrlError> {
        match (self.organization(), self.repository_name()) {
            (Ok(org), Ok(name)) => Ok(
                "https://api.github.com/repos/"@ + org + "/"@ + name + "/releases"@,
            ),
            (Err(e), _) => Err(e),
            (_, Err(e)) => Err(e),
        }
    }

    /// Where the REST API describes the reference of tag `tag`.
    pub open spec fn api_tag_information(self, tag: Seq<char>) -> Result<Seq<char>, UrlError> {
        match (self.organization(), self.repository_name()) {
            (Ok(org), Ok(name)) => Ok(
                "https://api.github.com/repos/"@ + org + "/"@ + name + "/git/ref/tags/"@ + tag,
            ),
            (Err(e), _) => Err(e),
            (_, Err(e)) => Err(e),
        }
    }

    /// Where `artifact` of the release tagged `tag` is downloaded from.
    pub open spec fn release(self, tag: Seq<char>, artifact: Seq<char>) -> Seq<char> {
        self.href + "/releases/download/"@ + tag + "/"@ + artifact
    }

    /// The remote in the form `git@<host>:<path>.git`.
    pub open spec fn ssh_url(self) -> Seq<char> {
        let host = match self.host {
            Some(host) => host,
            None => default_host(),
        };
        "git@"@ + host + ":"@ + without_leading_slash(self.path) + ".git"@
    }
}

/// Whether an HTTP status reports success.
pub open spec fn is_success(status: u16) -> bool {
    200 <= status < 300
}

/// The releases that a listing describes, or why it describes none.
pub open spec fn releases_in(document: JsonValue) -> Result<Seq<ReleaseView>, ApiError> {
    match releases_of(document) {
        Some(list) => Ok(list),
        None => Err(ApiError::DecodeFailed),
    }
}

/// The commit that a tag's reference points at: the string at `object.sha`.
pub open spec fn commit_sha_in(document: JsonValue) -> Result<Seq<char>, ApiError> {
    match document.member("object"@) {
        Some(object) => match object.member("sha"@) {
            Some(JsonValue::Text(sha)) => Ok(sha),
            _ => Err(ApiError::MissingField),
        },
        None => Err(ApiError::MissingField),
    }
}

/// What the answer to a request for a release listing amounts to.
pub open spec fn latest_releases(status: u16, body: Seq<u8>) -> Result<
    Seq<ReleaseView>,
    ApiError,
> {
    if !is_success(status) {
        Err(ApiError::RequestFailed)
    } else {
        match json_decode(body) {
            Some(document) => releases_in(document),
            None => Err(ApiError::DecodeFailed),
        }
    }
}

/// What the answer to a request for a tag's reference amounts to.
pub open spec fn commit_sha_from_release(status: u16, body: Seq<u8>) -> Result<
    Seq<char>,
    ApiError,
> {
    if !is_success(status) {
        Err(ApiError::RequestFailed)
    } else {
        match json_decode(body) {
            Some(document) => commit_sha_in(document),
            None => Err(ApiError::DecodeFailed),
        }
    }
}

pub struct GitHub;

impl GitHub {
    /// Reads the answer to a `GET` of [`Self::url_api_releases`]: the
    /// releases it lists, in its order.
    pub fn get_latest_releases(status: u16, body: &[u8]) -> (r: Result<Vec<Release>, ApiError>)
        ensures
            match r {
                Ok(list) => latest_releases(status, body@) == Ok::<Seq<ReleaseView>, ApiError>(
                    release_views(list@),
                ),
                Err(e) => latest_releases(status, body@) == Err::<Seq<ReleaseView>, ApiError>(e),
            },
    {
        if status < 200 || status >= 300 {
            return Err(ApiError::RequestFailed);
        }
        match Json::parse(body) {
            Ok(document) => Self::releases_in(&document),
            Err(e) => Err(e),
        }
    }

    /// Reads the answer to a `GET` of [`Self::url_api_tag_information`]:
    /// the commit that the tag points at.
    pub fn get_commit_sha_from_release(status: u16, body: &[u8]) -> (r: Result<String, ApiError>)
        ensures
            match r {
                Ok(sha) => commit_sha_from_release(status, body@) == Ok::<Seq<char>, ApiError>(
                    sha@,
                ),
                Err(e) => commit_sha_from_release(status, body@) == Err::<Seq<char>, ApiError>(e),
            },
    {
        if status < 200 || status >= 300 {
            return Err(ApiError::RequestFailed);
        }
        match Json::parse(body) {
            Ok(document) => Self::commit_sha_in(&document),
            Err(e) => Err(e),
        }
    }

    /// The releases that a decoded listing describes.
    pub fn releases_in(document: &Json) -> (r: Result<Vec<Release>, ApiError>)
        ensures
            match r {
                Ok(list) => releases_in(document@) == Ok::<Seq<ReleaseView>, ApiError>(
                    release_views(list@),
                ),
                Err(e) => releases_in(document@) == Err::<Seq<ReleaseView>, ApiError>(e),
            },
    {
        match Release::list_from_json(document) {
            Some(list) => Ok(list),
            None => Err(ApiError::DecodeFailed),
        }
    }

    /// The commit that a decoded tag reference points at.
    pub fn commit_sha_in(document: &Json) -> (r: Result<String, ApiError>)
        ensures
            match r {
                Ok(sha) => commit_sha_in(document@) == Ok::<Seq<char>, ApiError>(sha@),
                Err(e) => commit_sha_in(document@) == Err::<Seq<char>, ApiError>(e),
            },
    {
        let object = match document.get("object") {
            Some(object) => object,
            None => {
                return Err(ApiError::MissingField);
            },
        };
        match object.get("sha") {
            Some(sha) => match sha.as_str() {
                Some(sha) => Ok(sha.to_owned()),
                None => Err(ApiError::MissingField),
            },
            None => Err(ApiError::MissingField),
        }
    }

    pub fn url_api_releases(repo: &RepoUrl) -> (r: Result<String, UrlError>)
        ensures
            match r {
                Ok(url) => repo@.api_releases() == Ok::<Seq<char>, UrlError>(url@),
                Err(e) => repo@.api_releases() == Err::<Seq<char>, UrlError>(e),
            },
    {
        let org = match Self::org(repo) {
            Ok(org) => org,
            Err(e) => {
                return Err(e);
            },
        };
        let name = match Self::name(repo) {
            Ok(name) => name,
            Err(e) => {
                return Err(e);
            },
        };
        Ok(Self::releases_url_of(org.as_str(), name.as_str()))
    }

    pub fn url_api_tag_information(repo: &RepoUrl, tag_name: &str) -> (r: Result<
        String,
        UrlError,
    >)
        ensures
            match r {
                Ok(url) => repo@.api_tag_information(tag_name@) == Ok::<Seq<char>, UrlError>(url@),
                Err(e) => repo@.api_tag_information(tag_name@) == Err::<Seq<char>, UrlError>(e),
            },
    {
        let org = match Self::org(repo) {
            Ok(org) => org,
            Err(e) => {
                return Err(e);
            },
        };
        let name = match Self::name(repo) {
            Ok(name) => name,
            Err(e) => {
                return Err(e);
            },
        };
        Ok(Self::tag_url_of(org.as_str(), name.as_str(), tag_name))
    }

    /// Where the REST API lists the releases of `name`, owned by `org`.
    pub fn releases_url_of(org: &str, name: &str) -> (url: String)
        ensures
            url@ == "https://api.github.com/repos/"@ + org@ + "/"@ + name@ + "/releases"@,
    {
        let mut url = "https://api.github.com/repos/".to_owned();
        url.append(org);
        url.append("/");
        url.append(name);
        url.append("/releases");
        url
    }

    /// Where the REST API describes the reference of tag `tag` of `name`,
    /// owned by `org`.
    pub fn tag_url_of(org: &str, name: &str, tag: &str) -> (url: String)
        ensures
            url@ == "https://api.github.com/repos/"@ + org@ + "/"@ + name@ + "/git/ref/tags/"@
                + tag@,
    {
        let mut url = "https://api.github.com/repos/".to_owned();
        url.append(org);
        url.append("/");
        url.append(name);
        url.append("/git/ref/tags/");
        url.append(tag);
        url
    }

    /// The organization or user that owns the repository.
    pub fn org(repo: &RepoUrl) -> (r: Result<String, UrlError>)
        ensures
            match r {
                Ok(org) => repo@.organization() == Ok::<Seq<char>, UrlError>(org@),
                Err(e) => repo@.organization() == Err::<Seq<char>, UrlError>(e),
            },
    {
        match repo.path_segments() {
            Some(segments) => {
                assert(texts(segments@).len() >= 1) by {
                    crate::text::lemma_split_is_not_empty(
                        repo@.path.subrange(1, repo@.path.len() as int),
                        '/',
                    );
                }
                assert(texts(segments@)[0] == segments@[0]@);
                Ok(segments[0].clone())
            },
            None => Err(UrlError::MissingOrganization),
        }
    }

    /// The repository's name.
    pub fn name(repo: &RepoUrl) -> (r: Result<String, UrlError>)
        ensures
            match r {
                Ok(name) => repo@.repository_name() == Ok::<Seq<char>, UrlError>(name@),
                Err(e) => repo@.repository_name() == Err::<Seq<char>, UrlError>(e),
            },
    {
        match repo.path_segments() {
            Some(segments) => {
                if segments.len() >= 2 {
                    assert(texts(segments@)[1] == segments@[1]@);
                    Ok(segments[1].clone())
                } else {
                    Err(UrlError::MissingName)
                }
            },
            None => Err(UrlError::MissingName),
        }
    }

    /// Where `artifact` of the release tagged `tag` is downloaded from.
    pub fn release(repo: &RepoUrl, tag: &str, artifact: &str) -> (url: String)
        ensures
            url@ == repo@.release(tag@, artifact@),
    {
        let mut url = repo.as_str().to_owned();
        url.append("/releases/download/");
        url.append(tag);
        url.append("/");
        url.append(artifact);
        url
    }

    /// Translates a repository URL into the remote that SSH clones from.
    pub fn convert_to_ssh_url(url: &RepoUrl) -> (ssh: String)
        ensures
            ssh@ == url@.ssh_url(),
    {
        let mut ssh = "git@".to_owned();
        match url.host_str() {
            Some(host) => ssh.append(host),
            None => ssh.append("github.com"),
        }
        ssh.append(":");
        let path = url.path();
        let n: usize = path.unicode_len();
        if n > 0 && path.get_char(0) == '/' {
            ssh.append(path.substring_char(1, n));
        } else {
            ssh.append(path);
        }
        ssh.append(".git");
        ssh
    }
}

/// A repository at `/<org>/<name>` has its releases listed under
/// `https://api.github.com/repos/<org>/<name>/releases`, and the reference
/// of its tag `tag` under `.../git/ref/tags/<tag>`.
pub proof fn lemma_api_urls_of_repository(
    url: UrlView,
    org: Seq<char>,
    name: Seq<char>,
    tag: Seq<char>,
)
    requires
        url.path == seq!['/'] + org + seq!['/'] + name,
        !org.contains('/'),
        !name.contains('/'),
    ensures
        url.organization() == Ok::<Seq<char>, UrlError>(org),
        url.repository_name() == Ok::<Seq<char>, UrlError>(name),
        url.api_releases() == Ok::<Seq<char>, UrlError>(
            "https://api.github.com/repos/"@ + org + "/"@ + name + "/releases"@,
        ),
        url.api_tag_information(tag) == Ok::<Seq<char>, UrlError>(
            "https://api.github.com/repos/"@ + org + "/"@ + name + "/git/ref/tags/"@ + tag,
        ),
{
    let rest = url.path.subrange(1, url.path.len() as int);
    assert(rest == org + seq!['/'] + name);
    lemma_split_at_separator(org, name, '/');
    lemma_split_without_separator(org, '/');
    lemma_split_without_separator(name, '/');
    assert(seq![org] + seq![name] == seq![org, name]);
}

/// A repository on `github.com` at `/<org>/<name>` is cloned over SSH from
/// `git@github.com:<org>/<name>.git`.
pub proof fn lemma_ssh_url_of_github_repository(url: UrlView, org: Seq<char>, name: Seq<char>)
    requires
        url.host == Some("github.com"@),
        url.path == seq!['/'] + org + seq!['/'] + name,
    ensures
        url.ssh_url() == "git@github.com:"@ + org + "/"@ + name + ".git"@,
{
    reveal_strlit("git@github.com:");
    reveal_strlit("git@");
    reveal_strlit("github.com");
    reveal_strlit(":");
    reveal_strlit("/");
    assert(without_leading_slash(url.path) == org + seq!['/'] + name);
    assert("git@"@ + "github.com"@ + ":"@ == "git@github.com:"@);
    assert("/"@ == seq!['/']);
    assert("git@"@ + "github.com"@ + ":"@ + (org + seq!['/'] + name) + ".git"@
        == "git@github.com:"@ + org + "/"@ + name + ".git"@);
}

/// A successful answer whose body is JSON without a string at `object.sha`
/// is reported as a missing field, whatever else the body holds.
pub proof fn lemma_missing_sha_is_reported(status: u16, body: Seq<u8>, document: JsonValue)
    requires
        is_success(status),
        json_decode(body) == Some(document),
        !(document.member("object"@) matches Some(object) && object.member("sha"@) matches Some(
            JsonValue::Text(_),
        )),
    ensures
        commit_sha_from_release(status, body) == Err::<Seq<char>, ApiError>(
            ApiError::MissingField,
        ),
{
}

} // verus!
