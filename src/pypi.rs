//! The PyPI JSON description of a project, and the versions it lists.
use vstd::prelude::*;
use vstd::string::StringExecFns;

use crate::text::views;

verus! {

/// Download counts of a project.
#[derive(Debug, Clone)]
pub struct PypiDownloads {
    pub last_day: i64,
    pub last_month: i64,
    pub last_week: i64,
}

/// The `info` part of a PyPI project description.
#[derive(Debug, Clone)]
pub struct PypiInfo {
    pub author: String,
    pub author_email: String,
    pub bugtrack_url: Option<String>,
    pub classifiers: Vec<String>,
    pub description: String,
    pub description_content_type: String,
    pub docs_url: Option<String>,
    pub download_url: String,
    pub downloads: PypiDownloads,
    pub home_page: String,
    pub keywords: String,
    pub license: String,
    pub maintainer: String,
    pub maintainer_email: String,
    pub name: String,
    pub package_url: String,
    pub platform: String,
    pub project_url: String,
    /// Label and URL of each project link, one entry per label.
    pub project_urls: Vec<(String, String)>,
    pub release_url: String,
    pub requires_dist: Vec<String>,
    pub requires_python: String,
    pub summary: String,
    /// The latest version, as the registry declares it.
    pub version: String,
    pub yanked: bool,
    pub yanked_reason: Option<String>,
}

/// One file of a release.
#[derive(Debug, Clone)]
pub struct PypiRelease {
    pub comment_text: String,
    /// Algorithm and digest of each checksum, one entry per algorithm.
    pub digests: Vec<(String, String)>,
    pub downloads: i64,
    pub filename: String,
    pub has_sig: bool,
    pub md5_digest: String,
    pub packagetype: String,
    pub python_version: String,
    pub requires_python: Option<String>,
    pub size: u64,
    pub upload_time: String,
    pub upload_time_iso_8601: String,
    pub url: String,
    pub yanked: bool,
    pub yanked_reson: Option<String>,
}

/// A PyPI project description.
#[derive(Debug, Clone)]
pub struct PypiProject {
    pub info: PypiInfo,
    pub last_serial: u64,
    /// Each published version with its files, one entry per version.
    pub releases: Vec<(String, Vec<PypiRelease>)>,
    pub urls: Vec<PypiRelease>,
    pub vulnerabilities: Vec<String>,
}

/// Whether no two entries of a table share a key: a table of pairs holds
/// what a map from keys to values holds.
pub open spec fn unique_keys<V>(entries: Seq<(String, V)>) -> bool {
    forall|i: int, j: int| 0 <= i < j < entries.len() ==> entries[i].0@ != entries[j].0@
}

impl PypiInfo {
    /// Each link label appears once.
    pub open spec fn well_formed(&self) -> bool {
        unique_keys(self.project_urls@)
    }
}

impl PypiRelease {
    /// Each digest algorithm appears once.
    pub open spec fn well_formed(&self) -> bool {
        unique_keys(self.digests@)
    }
}

/// The versions that a releases table lists, in its order.
pub open spec fn release_keys(releases: Seq<(String, Vec<PypiRelease>)>) -> Seq<Seq<char>> {
    releases.map_values(|e: (String, Vec<PypiRelease>)| e.0@)
}

/// The URL of the JSON description of project `name`.
pub open spec fn project_url_of(name: Seq<char>) -> Seq<char> {
    "https://pypi.org/pypi/"@ + name + "/json"@
}

impl PypiProject {
    /// Each version appears once in the releases table, and every table
    /// within is well formed.
    pub open spec fn well_formed(&self) -> bool {
        &&& self.info.well_formed()
        &&& unique_keys(self.releases@)
        &&& forall|i: int, k: int| 0 <= i < self.releases@.len() && 0 <= k < self.releases@[i].1@.len()
            ==> (#[trigger] self.releases@[i].1@[k]).well_formed()
        &&& forall|k: int| 0 <= k < self.urls@.len() ==> (#[trigger] self.urls@[k]).well_formed()
    }

    /// The versions that have been published; each appears once where the
    /// project description is well formed.
    pub fn release_versions(&self) -> (r: Vec<String>)
        ensures
            views(r@) == release_keys(self.releases@),
            self.well_formed() ==> views(r@).no_duplicates(),
    {
        let mut versions: Vec<String> = Vec::new();
        let mut i: usize = 0;
        while i < self.releases.len()
            invariant
                i <= self.releases.len(),
                views(versions@) =~= release_keys(self.releases@.take(i as int)),
            decreases self.releases.len() - i,
        {
            let ghost before = views(versions@);
            versions.push(self.releases[i].0.clone());
            assert(views(versions@) =~= before.push(self.releases@[i as int].0@));
            assert(self.releases@.take(i + 1) =~= self.releases@.take(i as int).push(self.releases@[i as int]));
            i = i + 1;
        }
        assert(self.releases@.take(i as int) =~= self.releases@);
        assert(self.well_formed() ==> views(versions@).no_duplicates()) by {
            if self.well_formed() {
                assert forall|a: int, b: int| 0 <= a < views(versions@).len() && 0 <= b < views(versions@).len() && a != b
                    implies views(versions@)[a] != views(versions@)[b] by {
                    if a < b {
                        assert(self.releases@[a].0@ != self.releases@[b].0@);
                    } else {
                        assert(self.releases@[b].0@ != self.releases@[a].0@);
                    }
                }
            }
        }
        versions
    }
}

/// Builds the URL of the JSON description of project `name`.
pub fn project_url(name: &str) -> (r: String)
    ensures
        r@ == project_url_of(name@),
{
    let mut r = "https://pypi.org/pypi/".to_string();
    r.append(name);
    r.append("/json");
    r
}

} // verus!
