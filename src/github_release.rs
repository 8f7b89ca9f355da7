//! GitHub releases: identifiers, tags and the versions they name.
use vstd::prelude::*;
use vstd::string::{StrSliceExecFns, StringExecFns};

use crate::error::CheckError;

verus! {

broadcast use vstd::string::group_string_axioms;

/// A release as the GitHub releases listing gives it.
#[derive(Debug, Clone)]
pub struct GithubRelease {
    pub tag_name: String,
}

/// Whether `i` is the position of the first `/` in `s`.
pub open spec fn first_slash_at(s: Seq<char>, i: int) -> bool {
    0 <= i < s.len() && s[i] == '/' && forall|j: int| 0 <= j < i ==> s[j] != '/'
}

/// An `owner/repo` identifier split at its first `/`; `None` where it has none.
pub open spec fn owner_and_repo(s: Seq<char>) -> Option<(Seq<char>, Seq<char>)> {
    if exists|i: int| first_slash_at(s, i) {
        let i = choose|i: int| first_slash_at(s, i);
        Some((s.take(i), s.skip(i + 1)))
    } else {
        None
    }
}

/// The version a release tag names: the tag without its leading `v`;
/// `None` where it does not start with `v`.
pub open spec fn version_of_tag(tag: Seq<char>) -> Option<Seq<char>> {
    if tag.len() > 0 && tag[0] == 'v' {
        Some(tag.drop_first())
    } else {
        None
    }
}

/// Whether every release's tag names a version.
pub open spec fn all_tags_versioned(releases: Seq<GithubRelease>) -> bool {
    forall|i: int| 0 <= i < releases.len() ==> (#[trigger] version_of_tag(releases[i].tag_name@)) is Some
}

/// The URL that lists the releases of `owner/repo`.
pub open spec fn releases_url_of(owner: Seq<char>, repo: Seq<char>) -> Seq<char> {
    "https://api.github.com/repos/"@ + owner + "/"@ + repo + "/releases"@
}

/// Splits an `owner/repo` identifier at its first `/`.
pub fn split_identifier(name: &str) -> (r: Result<(String, String), CheckError>)
    ensures
        match r {
            Ok((owner, repo)) => owner_and_repo(name@) == Some((owner@, repo@)),
            Err(e) => e == CheckError::InvalidIdentifier && owner_and_repo(name@) is None,
        },
{
    let n = name.unicode_len();
    let mut i: usize = 0;
    while i < n
        invariant
            n == name@.len(),
            i <= n,
            forall|j: int| 0 <= j < i ==> name@[j] != '/',
        decreases n - i,
    {
        if name.get_char(i) == '/' {
            assert(first_slash_at(name@, i as int));
            proof {
                let k = choose|k: int| first_slash_at(name@, k);
                assert(k == i) by {
                    if k < i {
                        assert(name@[k] != '/');
                    } else if k > i {
                        assert(name@[i as int] != '/');
                    }
                }
            }
            let owner = name.substring_char(0, i).to_string();
            let repo = name.substring_char(i + 1, n).to_string();
            return Ok((owner, repo));
        }
        i = i + 1;
    }
    assert(!exists|k: int| first_slash_at(name@, k));
    Err(CheckError::InvalidIdentifier)
}

/// The version that a release tag names.
pub fn version_from_tag(tag: &str) -> (r: Result<String, CheckError>)
    ensures
        match r {
            Ok(v) => version_of_tag(tag@) == Some(v@),
            Err(e) => e == CheckError::TagFormat && version_of_tag(tag@) is None,
        },
{
    let n = tag.unicode_len();
    if n > 0 && tag.get_char(0) == 'v' {
        let v = tag.substring_char(1, n).to_string();
        assert(v@ =~= tag@.drop_first());
        Ok(v)
    } else {
        Err(CheckError::TagFormat)
    }
}

/// The published versions that a releases listing names, in its order.
pub fn versions_from_releases(releases: &Vec<GithubRelease>) -> (r: Result<Vec<String>, CheckError>)
    ensures
        match r {
            Ok(v) => all_tags_versioned(releases@) && v@.len() == releases@.len()
                && forall|i: int| 0 <= i < releases@.len()
                    ==> version_of_tag(#[trigger] releases@[i].tag_name@) == Some(v@[i]@),
            Err(e) => e == CheckError::TagFormat && !all_tags_versioned(releases@),
        },
{
    let mut versions: Vec<String> = Vec::new();
    let mut i: usize = 0;
    while i < releases.len()
        invariant
            i <= releases.len(),
            versions@.len() == i,
            forall|j: int| 0 <= j < i ==> version_of_tag(#[trigger] releases@[j].tag_name@) == Some(versions@[j]@),
        decreases releases.len() - i,
    {
        match version_from_tag(releases[i].tag_name.as_str()) {
            Ok(v) => versions.push(v),
            Err(e) => {
                assert(version_of_tag(releases@[i as int].tag_name@) is None);
                return Err(e);
            },
        }
        i = i + 1;
    }
    Ok(versions)
}

/// Builds the URL that lists the releases of `owner/repo`.
pub fn releases_url(owner: &str, repo: &str) -> (r: String)
    ensures
        r@ == releases_url_of(owner@, repo@),
{
    let mut r = "https://api.github.com/repos/".to_string();
    r.append(owner);
    r.append("/");
    r.append(repo);
    r.append("/releases");
    r
}

} // verus!
