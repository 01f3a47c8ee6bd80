//! Repository URLs, taken apart.
use crate::errors::UrlError;
use crate::text::{split, split_text, texts};
use vstd::prelude::*;
use vstd::string::*;

verus! {

/// `url::ParseError`, why `url::Url::parse` rejected a text. It is only
/// carried from the call to the place that maps it to a [`UrlError`].
#[verifier::external_type_specification]
#[verifier::external_body]
pub struct ExParseError(url::ParseError);

/// The parts of an absolute URL that this library reads.
#[derive(Debug, PartialEq, Eq)]
pub struct RepoUrl {
    /// The URL as it is written out in full.
    pub href: String,
    /// The host, where the URL has one.
    pub host: Option<String>,
    /// The path, percent-encoded, without query or fragment.
    pub path: String,
}

/// A [`RepoUrl`] as plain sequences of characters.
pub struct UrlView {
    pub href: Seq<char>,
    pub host: Option<Seq<char>>,
    pub path: Seq<char>,
}

impl View for RepoUrl {
    type V = UrlView;

    open spec fn view(&self) -> UrlView {
        UrlView {
            href: self.href@,
            host: match self.host {
                Some(host) => Some(host@),
                None => None,
            },
            path: self.path@,
        }
    }
}

/// What `url::Url::parse` makes of `input`: `None` where it rejects the
/// text, else the serialization, host and path of the URL it returns.
pub uninterp spec fn url_parse(input: Seq<char>) -> Option<UrlView>;

/// Calls `url::Url::parse` and copies out what `Url::as_str`,
/// `Url::host_str` and `Url::path` return for the parsed URL. The contract
/// only gives that result its name, [`url_parse`].
#[verifier::external_body]
fn parse_parts(input: &str) -> (r: Result<RepoUrl, url::ParseError>)
    ensures
        match r {
            Ok(parts) => url_parse(input@) == Some(parts@),
            Err(_) => url_parse(input@) is None,
        },
{
    let url = url::Url::parse(input)?;
    Ok(
        RepoUrl {
            href: url.as_str().to_owned(),
            host: url.host_str().map(|host| host.to_owned()),
            path: url.path().to_owned(),
        },
    )
}

impl UrlView {
    /// The slash-separated pieces of the path after its leading slash, or
    /// `None` where the path does not start with a slash.
    pub open spec fn path_segments(self) -> Option<Seq<Seq<char>>> {
        if self.path.len() > 0 && self.path[0] == '/' {
            Some(split(self.path.subrange(1, self.path.len() as int), '/'))
        } else {
            None
        }
    }
}

impl RepoUrl {
    /// Parses an absolute URL.
    pub fn parse(input: &str) -> (r: Result<RepoUrl, UrlError>)
        ensures
            match r {
                Ok(url) => url_parse(input@) == Some(url@),
                Err(e) => e == UrlError::Malformed && url_parse(input@) is None,
            },
    {
        match parse_parts(input) {
            Ok(url) => Ok(url),
            Err(_) => Err(UrlError::Malformed),
        }
    }

    /// The URL written out in full.
    pub fn as_str(&self) -> (text: &str)
        ensures
            text@ == self@.href,
    {
        self.href.as_str()
    }

    /// The host, if there is one.
    pub fn host_str(&self) -> (host: Option<&str>)
        ensures
            match host {
                Some(h) => self@.host == Some(h@),
                None => self@.host is None,
            },
    {
        match &self.host {
            Some(host) => Some(host.as_str()),
            None => None,
        }
    }

    /// The path, starting with a slash unless the URL cannot be a base.
    pub fn path(&self) -> (path: &str)
        ensures
            path@ == self@.path,
    {
        self.path.as_str()
    }

    /// The path split at its slashes, the leading one left out.
    pub fn path_segments(&self) -> (segments: Option<Vec<String>>)
        ensures
            match segments {
                Some(list) => self@.path_segments() == Some(texts(list@)),
                None => self@.path_segments() is None,
            },
    {
        let path = self.path.as_str();
        let n: usize = path.unicode_len();
        if n > 0 && path.get_char(0) == '/' {
            Some(split_text(path.substring_char(1, n), '/'))
        } else {
            None
        }
    }
}

} // verus!
