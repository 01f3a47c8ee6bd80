//! Which tag of a repository is its latest released version.
use vstd::prelude::*;
use vstd::string::*;

verus! {

/// What a version looks like inside a tag name: `v<major>.<minor>.<patch>`.
pub const VERSION_PATTERN: &'static str = r"v\d+\.\d+\.\d+";

/// What the `regex` crate makes of a pattern and a haystack: `None` where
/// `Regex::new` rejects the pattern, else whether `Regex::is_match` finds
/// the compiled pattern anywhere in the haystack.
pub uninterp spec fn regex_search(pattern: Seq<char>, haystack: Seq<char>) -> Option<bool>;

/// Compiles `pattern` once with `regex::Regex::new` and asks
/// `Regex::is_match` about each haystack in turn. The contract only names
/// the outcome for each haystack, as [`regex_search`]: a rejected pattern is
/// rejected whatever the haystack.
#[verifier::external_body]
fn search_each(pattern: &str, haystacks: &Vec<String>) -> (found: Option<Vec<bool>>)
    ensures
        match found {
            Some(flags) => {
                &&& flags@.len() == haystacks@.len()
                &&& forall|i: int|
                    0 <= i < flags@.len() ==> regex_search(pattern@, #[trigger] haystacks@[i]@)
                        == Some(flags@[i])
            },
            None => forall|i: int|
                0 <= i < haystacks@.len() ==> regex_search(pattern@, #[trigger] haystacks@[i]@)
                    is None,
        },
{
    let regex = regex::Regex::new(pattern).ok()?;
    Some(haystacks.iter().map(|haystack| regex.is_match(haystack)).collect())
}

/// Whether a tag name holds a version.
pub open spec fn is_version_tag(tag: Seq<char>) -> bool {
    regex_search(VERSION_PATTERN@, tag) == Some(true)
}

/// For each tag, whether it holds a version.
pub open spec fn version_flags(tags: Seq<String>) -> Seq<bool> {
    tags.map_values(|tag: String| is_version_tag(tag@))
}

/// Whether position `i` is flagged. A position past the end of `flags` is
/// not.
pub open spec fn flagged(flags: Seq<bool>, i: int) -> bool {
    0 <= i < flags.len() && flags[i]
}

/// The last flagged tag, if any tag is flagged.
pub open spec fn last_flagged(tags: Seq<String>, flags: Seq<bool>) -> Option<String>
    decreases tags.len(),
{
    if tags.len() == 0 {
        None
    } else if flagged(flags, tags.len() - 1) {
        Some(tags.last())
    } else {
        last_flagged(tags.drop_last(), flags)
    }
}

/// The tag listed last among those that hold a version.
pub open spec fn spec_latest_version_tag(tags: Seq<String>) -> Option<String> {
    last_flagged(tags, version_flags(tags))
}

/// [`last_flagged`] picks a flagged position after which none is flagged,
/// and finds nothing only where no position is flagged.
pub proof fn lemma_last_flagged(tags: Seq<String>, flags: Seq<bool>)
    ensures
        match last_flagged(tags, flags) {
            Some(tag) => exists|i: int|
                {
                    &&& 0 <= i < tags.len()
                    &&& #[trigger] tags[i] == tag
                    &&& flagged(flags, i)
                    &&& forall|j: int| i < j < tags.len() ==> !flagged(flags, j)
                },
            None => forall|i: int| 0 <= i < tags.len() ==> !flagged(flags, i),
        },
    decreases tags.len(),
{
    if tags.len() == 0 {
    } else if flagged(flags, tags.len() - 1) {
        let i = tags.len() - 1;
        assert(tags[i] == tags.last());
    } else {
        let init = tags.drop_last();
        lemma_last_flagged(init, flags);
        match last_flagged(init, flags) {
            Some(tag) => {
                let i = choose|i: int|
                    {
                        &&& 0 <= i < init.len()
                        &&& #[trigger] init[i] == tag
                        &&& flagged(flags, i)
                        &&& forall|j: int| i < j < init.len() ==> !flagged(flags, j)
                    };
                assert(tags[i] == tag);
            },
            None => {},
        }
    }
}

/// Where the flags beyond the tags do not matter: flags that agree on every
/// tag's position pick the same tag.
pub proof fn lemma_last_flagged_agrees(tags: Seq<String>, a: Seq<bool>, b: Seq<bool>)
    requires
        forall|i: int| 0 <= i < tags.len() ==> flagged(a, i) == flagged(b, i),
    ensures
        last_flagged(tags, a) == last_flagged(tags, b),
    decreases tags.len(),
{
    if tags.len() > 0 {
        lemma_last_flagged_agrees(tags.drop_last(), a, b);
    }
}

/// Picks the last tag whose flag is set. Tags without a flag count as not
/// flagged.
pub fn pick_last_flagged(tags: &Vec<String>, flags: &Vec<bool>) -> (picked: Option<String>)
    ensures
        picked == last_flagged(tags@, flags@),
{
    let mut i: usize = tags.len();
    assert(tags@.subrange(0, i as int) == tags@);
    while i > 0
        invariant
            i <= tags@.len(),
            last_flagged(tags@, flags@) == last_flagged(tags@.subrange(0, i as int), flags@),
        decreases i,
    {
        let ghost prefix = tags@.subrange(0, i as int);
        assert(prefix.drop_last() == tags@.subrange(0, i - 1));
        assert(prefix.last() == tags@[i - 1]);
        i = i - 1;
        if i < flags.len() && flags[i] {
            return Some(tags[i].clone());
        }
    }
    assert(tags@.subrange(0, 0).len() == 0);
    None
}

/// Finds the most recent released version among a repository's tags, given
/// in the order the repository lists them: the last one that holds a
/// version. `None` means that no version has been released.
pub fn latest_version_tag(tags: &Vec<String>) -> (latest: Option<String>)
    ensures
        latest == spec_latest_version_tag(tags@),
{
    match search_each(VERSION_PATTERN, tags) {
        Some(flags) => {
            proof {
                lemma_last_flagged_agrees(tags@, flags@, version_flags(tags@));
            }
            pick_last_flagged(tags, &flags)
        },
        None => {
            proof {
                lemma_last_flagged(tags@, version_flags(tags@));
            }
            None
        },
    }
}

} // verus!
