//! What can go wrong while a repository is acquired or its releases are
//! looked up.
use vstd::prelude::*;
use vstd::string::*;

verus! {

/// The repository URL cannot be used.
#[derive(Debug, Clone, Copy, PartialEq, Eq, Structural)]
pub enum UrlError {
    /// The text is not an absolute URL.
    Malformed,
    /// The URL has no first path segment.
    MissingOrganization,
    /// The URL has no second path segment.
    MissingName,
}

impl UrlError {
    pub open spec fn spec_message(self) -> Seq<char> {
        match self {
            UrlError::Malformed => "the repository url is not a valid absolute url"@,
            UrlError::MissingOrganization =>
                "the organization (or user) is missing from the github url"@,
            UrlError::MissingName => "the repository name is missing from the github url"@,
        }
    }

    /// A sentence for the user.
    pub fn message(&self) -> (text: String)
        ensures
            text@ == self.spec_message(),
    {
        match self {
            UrlError::Malformed => "the repository url is not a valid absolute url".to_owned(),
            UrlError::MissingOrganization =>
                "the organization (or user) is missing from the github url".to_owned(),
            UrlError::MissingName => "the repository name is missing from the github url".to_owned(),
        }
    }
}

/// A call to the GitHub REST API did not yield what was asked for.
#[derive(Debug, Clone, Copy, PartialEq, Eq, Structural)]
pub enum ApiError {
    /// No response arrived, or its status was not a success.
    RequestFailed,
    /// The body is not JSON of the expected shape.
    DecodeFailed,
    /// The body is JSON but lacks the value that was looked for.
    MissingField,
}

impl ApiError {
    pub open spec fn spec_message(self) -> Seq<char> {
        match self {
            ApiError::RequestFailed => "the github api request failed"@,
            ApiError::DecodeFailed => "the github api response could not be decoded"@,
            ApiError::MissingField => "the github release tag sha was not found"@,
        }
    }

    /// A sentence for the user.
    pub fn message(&self) -> (text: String)
        ensures
            text@ == self.spec_message(),
    {
        match self {
            ApiError::RequestFailed => "the github api request failed".to_owned(),
            ApiError::DecodeFailed => "the github api response could not be decoded".to_owned(),
            ApiError::MissingField => "the github release tag sha was not found".to_owned(),
        }
    }
}

/// Stripping a clone down to a plain tree failed.
#[derive(Debug, Clone, Copy, PartialEq, Eq, Structural)]
pub enum DegitError {
    /// The requested tag or commit is not in the repository. The clone is
    /// left as it was, metadata included.
    RevisionNotFound,
    /// The checkout succeeded but the metadata directory could not be
    /// removed. The working tree itself is usable.
    CleanupFailed,
}

/// An acquisition ended without a usable tree, or with stale metadata.
#[derive(Debug, Clone, PartialEq, Eq)]
pub enum FetchError {
    /// The HTTPS attempt failed and the source has no SSH form.
    InvalidUrl(UrlError),
    /// Both the HTTPS and the SSH attempt failed. Carries what the SSH
    /// transport reported.
    CloneFailed(String),
    /// The clone succeeded but the degit step did not.
    Degit(DegitError),
}

} // verus!
