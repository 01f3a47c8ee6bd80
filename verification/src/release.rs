//! Releases, as GitHub's REST API lists them.
use crate::json::{views, Json, JsonValue};
use vstd::prelude::*;
use vstd::string::*;

verus! {

/// One release of a repository.
#[derive(Debug, PartialEq, Eq)]
pub struct Release {
    /// The tag the release was cut from.
    pub tag_name: String,
    /// The name the release is shown under.
    pub name: String,
    /// Whether the release is marked as not ready for production.
    pub prerelease: bool,
    /// The commit the tag points at, where it is known.
    pub commit: Option<String>,
}

/// A [`Release`] as plain sequences of characters.
pub struct ReleaseView {
    pub tag_name: Seq<char>,
    pub name: Seq<char>,
    pub prerelease: bool,
    pub commit: Option<Seq<char>>,
}

impl View for Release {
    type V = ReleaseView;

    open spec fn view(&self) -> ReleaseView {
        ReleaseView {
            tag_name: self.tag_name@,
            name: self.name@,
            prerelease: self.prerelease,
            commit: match self.commit {
                Some(commit) => Some(commit@),
                None => None,
            },
        }
    }
}

/// The view of each release of a list.
pub open spec fn release_views(list: Seq<Release>) -> Seq<ReleaseView> {
    list.map_values(|release: Release| release@)
}

/// The commit that an entry names: none where the member is absent or
/// `null`. `None` where the member is there but is no string.
pub open spec fn commit_of(entry: JsonValue) -> Option<Option<Seq<char>>> {
    match entry.member("commit"@) {
        None => Some(None),
        Some(JsonValue::Null) => Some(None),
        Some(JsonValue::Text(commit)) => Some(Some(commit)),
        Some(_) => None,
    }
}

/// The release that an entry of the listing describes: an object with the
/// strings `tag_name` and `name` and the truth value `prerelease`, and
/// perhaps the string `commit`. Other members are ignored. `None` where the
/// entry is anything else.
pub open spec fn release_of(entry: JsonValue) -> Option<ReleaseView> {
    match (
        entry.member("tag_name"@),
        entry.member("name"@),
        entry.member("prerelease"@),
        commit_of(entry),
    ) {
        (
            Some(JsonValue::Text(tag_name)),
            Some(JsonValue::Text(name)),
            Some(JsonValue::Bool(prerelease)),
            Some(commit),
        ) => Some(ReleaseView { tag_name, name, prerelease, commit }),
        _ => None,
    }
}

/// The releases that a listing describes, in its order: an array whose
/// every entry describes a release. `None` where the document is anything
/// else.
pub open spec fn releases_of(document: JsonValue) -> Option<Seq<ReleaseView>> {
    match document {
        JsonValue::Array(entries) => if forall|i: int|
            0 <= i < entries.len() ==> (#[trigger] release_of(entries[i])) is Some {
            Some(Seq::new(entries.len(), |i: int| release_of(entries[i])->0))
        } else {
            None
        },
        _ => None,
    }
}

fn text_member(entry: &Json, name: &str) -> (text: Option<String>)
    ensures
        match text {
            Some(text) => entry@.member(name@) == Some(JsonValue::Text(text@)),
            None => !(entry@.member(name@) matches Some(JsonValue::Text(_))),
        },
{
    match entry.get(name) {
        Some(value) => match value.as_str() {
            Some(text) => Some(text.to_owned()),
            None => None,
        },
        None => None,
    }
}

impl Release {
    /// Reads one entry of a release listing.
    pub fn from_json(entry: &Json) -> (release: Option<Release>)
        ensures
            match release {
                Some(release) => release_of(entry@) == Some(release@),
                None => release_of(entry@) is None,
            },
    {
        let tag_name = match text_member(entry, "tag_name") {
            Some(tag_name) => tag_name,
            None => {
                return None;
            },
        };
        let name = match text_member(entry, "name") {
            Some(name) => name,
            None => {
                return None;
            },
        };
        let prerelease = match entry.get("prerelease") {
            Some(value) => match value.as_bool() {
                Some(prerelease) => prerelease,
                None => {
                    return None;
                },
            },
            None => {
                return None;
            },
        };
        let commit = match entry.get("commit") {
            None => None,
            Some(value) => {
                if value.is_null() {
                    None
                } else {
                    match value.as_str() {
                        Some(commit) => Some(commit.to_owned()),
                        None => {
                            return None;
                        },
                    }
                }
            },
        };
        Some(Release { tag_name, name, prerelease, commit })
    }

    /// Reads a release listing.
    pub fn list_from_json(document: &Json) -> (releases: Option<Vec<Release>>)
        ensures
            match releases {
                Some(list) => releases_of(document@) == Some(release_views(list@)),
                None => releases_of(document@) is None,
            },
    {
        let entries = match document.as_array() {
            Some(entries) => entries,
            None => {
                return None;
            },
        };
        let mut list: Vec<Release> = Vec::new();
        let mut i: usize = 0;
        while i < entries.len()
            invariant
                i <= entries@.len(),
                list@.len() == i,
                document@ == JsonValue::Array(views(entries@)),
                forall|k: int|
                    0 <= k < i ==> (#[trigger] release_of(views(entries@)[k])) == Some(list@[k]@),
            decreases entries@.len() - i,
        {
            match Release::from_json(&entries[i]) {
                Some(release) => {
                    list.push(release);
                },
                None => {
                    assert(release_of(views(entries@)[i as int]) is None);
                    return None;
                },
            }
            i = i + 1;
        }
        assert(release_views(list@) == Seq::new(
            entries@.len(),
            |k: int| release_of(views(entries@)[k])->0,
        ));
        Some(list)
    }
}

} // verus!
