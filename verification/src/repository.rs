//! A remote repository: a URL known to name an organization and a
//! repository.
use crate::errors::UrlError;
use crate::github::GitHub;
use crate::remote::{url_parse, RepoUrl, UrlView};
use vstd::prelude::*;
use vstd::string::*;

verus! {

/// A repository on a remote host. Its URL always has an organization and a
/// name, so every address derived from it exists.
#[derive(Debug, PartialEq, Eq)]
pub struct RemoteRepository {
    url: RepoUrl,
    organization: String,
    name: String,
}

/// Why `url` does not name a repository, if it does not.
pub open spec fn repository_error(url: UrlView) -> Option<UrlError> {
    match (url.organization(), url.repository_name()) {
        (Ok(_), Ok(_)) => None,
        (Err(e), _) => Some(e),
        (_, Err(e)) => Some(e),
    }
}

impl RemoteRepository {
    #[verifier::type_invariant]
    spec fn well_formed(self) -> bool {
        &&& self.url@.organization() == Ok::<Seq<char>, UrlError>(self.organization@)
        &&& self.url@.repository_name() == Ok::<Seq<char>, UrlError>(self.name@)
    }

    /// The repository's URL.
    pub closed spec fn url(self) -> UrlView {
        self.url@
    }

    /// Takes `url` as a repository's, if it names one.
    pub fn new(url: RepoUrl) -> (r: Result<RemoteRepository, UrlError>)
        ensures
            match r {
                Ok(repository) => repository.url() == url@ && repository_error(url@) is None,
                Err(e) => repository_error(url@) == Some(e),
            },
    {
        let organization = match GitHub::org(&url) {
            Ok(organization) => organization,
            Err(e) => {
                return Err(e);
            },
        };
        let name = match GitHub::name(&url) {
            Ok(name) => name,
            Err(e) => {
                return Err(e);
            },
        };
        Ok(RemoteRepository { url, organization, name })
    }

    /// Reads a repository's URL.
    pub fn parse(text: &str) -> (r: Result<RemoteRepository, UrlError>)
        ensures
            match r {
                Ok(repository) => url_parse(text@) == Some(repository.url())
                    && repository_error(repository.url()) is None,
                Err(e) => match url_parse(text@) {
                    Some(url) => repository_error(url) == Some(e),
                    None => e == UrlError::Malformed,
                },
            },
    {
        match RepoUrl::parse(text) {
            Ok(url) => Self::new(url),
            Err(e) => Err(e),
        }
    }

    /// The organization or user that owns the repository.
    pub fn organization(&self) -> (organization: &str)
        ensures
            self.url().organization() == Ok::<Seq<char>, UrlError>(organization@),
    {
        proof {
            use_type_invariant(self);
        }
        self.organization.as_str()
    }

    /// The repository's name.
    pub fn name(&self) -> (name: &str)
        ensures
            self.url().repository_name() == Ok::<Seq<char>, UrlError>(name@),
    {
        proof {
            use_type_invariant(self);
        }
        self.name.as_str()
    }

    /// The URL the repository was made from.
    pub fn as_url(&self) -> (url: &RepoUrl)
        ensures
            url@ == self.url(),
    {
        &self.url
    }

    /// The remote that SSH clones from.
    pub fn to_ssh(&self) -> (ssh: String)
        ensures
            ssh@ == self.url().ssh_url(),
    {
        GitHub::convert_to_ssh_url(&self.url)
    }

    /// Where the REST API lists the repository's releases.
    pub fn releases_url(&self) -> (url: String)
        ensures
            self.url().api_releases() == Ok::<Seq<char>, UrlError>(url@),
    {
        proof {
            use_type_invariant(self);
        }
        GitHub::releases_url_of(self.organization.as_str(), self.name.as_str())
    }

    /// Where the REST API describes the reference of tag `tag`.
    pub fn tag_ref_url(&self, tag: &str) -> (url: String)
        ensures
            self.url().api_tag_information(tag@) == Ok::<Seq<char>, UrlError>(url@),
    {
        proof {
            use_type_invariant(self);
        }
        GitHub::tag_url_of(self.organization.as_str(), self.name.as_str(), tag)
    }
}

} // verus!
