//! Where a project's version comes from, where it is published, and the
//! decisions of a check.
use vstd::prelude::*;
use vstd::string::StringExecFns;

use crate::error::CheckError;
use crate::github_release::{owner_and_repo, releases_url, releases_url_of, split_identifier};
use crate::pypi::{project_url, project_url_of};
use crate::pypoetry::{poetry_manifest, read_pyproject_toml};
use crate::rust_cargo::{cargo_manifest, github_repo_of, identifier_of, lemma_github_repo_of_url, read_cargo_toml};
use crate::text::split_spec;
use crate::text::views;

verus! {

/// Where a package is published.
#[derive(Debug, Clone, Copy, PartialEq, Eq, Structural)]
pub enum PublishType {
    Pypi,
    GithubRelease,
}

/// The kind of manifest a project declares its version in.
#[derive(Debug, Clone, Copy, PartialEq, Eq, Structural)]
pub enum PackageType {
    PythonPoetry,
    Rust,
}

/// The name a package is published under, and the version it declares.
#[derive(Debug, Clone)]
pub struct VersionInfo {
    pub published_name: String,
    pub current_version: String,
}

/// What a check does next, once the published versions are known.
#[derive(Debug, Clone, Copy, PartialEq, Eq, Structural)]
pub enum Step {
    /// The check has failed.
    Fail(CheckError),
    /// The changelog must be scanned for the version.
    ScanChangelog,
    /// The check has passed.
    Succeed,
}

pub open spec fn publish_type_named(s: Seq<char>) -> Option<PublishType> {
    if s == "pypi"@ {
        Some(PublishType::Pypi)
    } else if s == "github-release"@ {
        Some(PublishType::GithubRelease)
    } else {
        None
    }
}

pub open spec fn package_type_named(s: Seq<char>) -> Option<PackageType> {
    if s == "python-poetry"@ {
        Some(PackageType::PythonPoetry)
    } else if s == "rust"@ {
        Some(PackageType::Rust)
    } else {
        None
    }
}

/// The published name and the version that a manifest text of kind `kind`
/// declares, or the error reading it ends in.
pub open spec fn version_info_of(kind: PackageType, text: Seq<char>) -> Result<(Seq<char>, Seq<char>), CheckError> {
    match kind {
        PackageType::PythonPoetry => match poetry_manifest(text) {
            Some((name, version)) => Ok((name, version)),
            None => Err(CheckError::ManifestParse),
        },
        PackageType::Rust => match cargo_manifest(text) {
            None => Err(CheckError::ManifestParse),
            Some((version, repository)) => match repository {
                None => Err(CheckError::MissingRepository),
                Some(url) => match github_repo_of(url) {
                    None => Err(CheckError::MissingRepository),
                    Some((owner, repo)) => Ok((identifier_of(owner, repo), version)),
                },
            },
        },
    }
}

/// The URL that lists what has been published under `name`.
pub open spec fn registry_url_of(kind: PublishType, name: Seq<char>) -> Result<Seq<char>, CheckError> {
    match kind {
        PublishType::Pypi => Ok(project_url_of(name)),
        PublishType::GithubRelease => match owner_and_repo(name) {
            Some((owner, repo)) => Ok(releases_url_of(owner, repo)),
            None => Err(CheckError::InvalidIdentifier),
        },
    }
}

/// The step after learning the published versions: a version already
/// published is a conflict; else the changelog is scanned where asked for.
pub open spec fn step_of(version: Seq<char>, published: Seq<Seq<char>>, check_changelog: bool) -> Step {
    if published.contains(version) {
        Step::Fail(CheckError::VersionConflict)
    } else if check_changelog {
        Step::ScanChangelog
    } else {
        Step::Succeed
    }
}

impl PublishType {
    /// The publish type of a command-line name (`pypi`, `github-release`).
    pub fn from_name(s: &str) -> (r: Option<PublishType>)
        ensures
            r == publish_type_named(s@),
    {
        let s = s.to_string();
        if s == "pypi".to_string() {
            Some(PublishType::Pypi)
        } else if s == "github-release".to_string() {
            Some(PublishType::GithubRelease)
        } else {
            None
        }
    }

    /// The URL to query for the versions published under `published_name`.
    pub fn registry_url(&self, published_name: &str) -> (r: Result<String, CheckError>)
        ensures
            match r {
                Ok(u) => registry_url_of(*self, published_name@) == Ok::<Seq<char>, CheckError>(u@),
                Err(e) => registry_url_of(*self, published_name@) == Err::<Seq<char>, CheckError>(e),
            },
    {
        match self {
            PublishType::Pypi => Ok(project_url(published_name)),
            PublishType::GithubRelease => match split_identifier(published_name) {
                Ok((owner, repo)) => Ok(releases_url(owner.as_str(), repo.as_str())),
                Err(e) => Err(e),
            },
        }
    }
}

impl PackageType {
    /// The package type of a command-line name (`python-poetry`, `rust`).
    pub fn from_name(s: &str) -> (r: Option<PackageType>)
        ensures
            r == package_type_named(s@),
    {
        let s = s.to_string();
        if s == "python-poetry".to_string() {
            Some(PackageType::PythonPoetry)
        } else if s == "rust".to_string() {
            Some(PackageType::Rust)
        } else {
            None
        }
    }

    /// The name of the manifest file in a project directory.
    pub fn manifest_file_name(&self) -> (r: String)
        ensures
            r@ == match self {
                PackageType::PythonPoetry => "pyproject.toml"@,
                PackageType::Rust => "Cargo.toml"@,
            },
    {
        match self {
            PackageType::PythonPoetry => "pyproject.toml".to_string(),
            PackageType::Rust => "Cargo.toml".to_string(),
        }
    }

    /// Reads the published name and the version from the manifest text.
    pub fn get_current_version(&self, manifest: &str) -> (r: Result<VersionInfo, CheckError>)
        ensures
            match r {
                Ok(info) => version_info_of(*self, manifest@)
                    == Ok::<(Seq<char>, Seq<char>), CheckError>((info.published_name@, info.current_version@)),
                Err(e) => version_info_of(*self, manifest@) == Err::<(Seq<char>, Seq<char>), CheckError>(e),
            },
    {
        match self {
            PackageType::PythonPoetry => match read_pyproject_toml(manifest) {
                Ok(config) => Ok(VersionInfo {
                    published_name: config.tool.poetry.name,
                    current_version: config.tool.poetry.version,
                }),
                Err(e) => Err(e),
            },
            PackageType::Rust => match read_cargo_toml(manifest) {
                Err(e) => Err(e),
                Ok(cargo) => match cargo.package.get_github_repo() {
                    Some(repo) => Ok(VersionInfo {
                        published_name: repo.identifier(),
                        current_version: cargo.package.version,
                    }),
                    None => Err(CheckError::MissingRepository),
                },
            },
        }
    }
}

/// Whether `version` is among the published versions.
pub fn is_published(version: &String, published: &Vec<String>) -> (r: bool)
    ensures
        r == views(published@).contains(version@),
{
    let mut i: usize = 0;
    while i < published.len()
        invariant
            i <= published.len(),
            forall|j: int| 0 <= j < i ==> published@[j]@ != version@,
        decreases published.len() - i,
    {
        if published[i] == *version {
            assert(views(published@)[i as int] == version@);
            return true;
        }
        i = i + 1;
    }
    assert(!views(published@).contains(version@)) by {
        if views(published@).contains(version@) {
            let k = choose|k: int| 0 <= k < views(published@).len() && views(published@)[k] == version@;
            assert(published@[k]@ == version@);
        }
    }
    false
}

/// Decides the step after learning the published versions.
pub fn next_step(info: &VersionInfo, published: &Vec<String>, check_changelog: bool) -> (r: Step)
    ensures
        r == step_of(info.current_version@, views(published@), check_changelog),
{
    if is_published(&info.current_version, published) {
        Step::Fail(CheckError::VersionConflict)
    } else if check_changelog {
        Step::ScanChangelog
    } else {
        Step::Succeed
    }
}

/// The outcome of a check once the changelog has been scanned.
pub fn changelog_outcome(found: bool) -> (r: Result<(), CheckError>)
    ensures
        found ==> r is Ok,
        !found ==> r == Err::<(), CheckError>(CheckError::ChangelogMissing),
{
    if found {
        Ok(())
    } else {
        Err(CheckError::ChangelogMissing)
    }
}

/// The report of a version that is already published, naming the first
/// published version as the latest.
pub fn conflict_message(version: &str, published: &Vec<String>) -> (r: String)
    requires
        published@.len() > 0,
    ensures
        r@ == "Version "@ + version@ + " already exists, latest version is "@ + published@[0]@,
{
    let mut r = "Version ".to_string();
    r.append(version);
    r.append(" already exists, latest version is ");
    r.append(published[0].as_str());
    r
}

/// The report of a changelog that lacks the version.
pub fn missing_changelog_message(version: &str, changelog_name: &str) -> (r: String)
    ensures
        r@ == "Unable to find version "@ + version@ + " in "@ + changelog_name@,
{
    let mut r = "Unable to find version ".to_string();
    r.append(version);
    r.append(" in ");
    r.append(changelog_name);
    r
}

/// A Poetry manifest that declares name `name` and version `version` under
/// `tool.poetry` yields exactly that name and that version.
pub proof fn lemma_poetry_version_info(text: Seq<char>, name: Seq<char>, version: Seq<char>)
    requires
        poetry_manifest(text) == Some((name, version)),
    ensures
        version_info_of(PackageType::PythonPoetry, text) == Ok::<(Seq<char>, Seq<char>), CheckError>((name, version)),
{
}

/// A Cargo manifest whose repository is `https://github.com/<owner>/<repo>`
/// is published under `<owner>/<repo>`, with the version it declares.
pub proof fn lemma_cargo_github_identifier(text: Seq<char>, version: Seq<char>, owner: Seq<char>, repo: Seq<char>)
    requires
        owner.len() > 0,
        repo.len() > 0,
        !owner.contains('/'),
        !repo.contains('/'),
        cargo_manifest(text) == Some((version, Some("https://github.com/"@ + owner + "/"@ + repo))),
    ensures
        version_info_of(PackageType::Rust, text)
            == Ok::<(Seq<char>, Seq<char>), CheckError>((owner + "/"@ + repo, version)),
{
    reveal_strlit("https://github.com/");
    reveal_strlit("https://github.com");
    reveal_strlit("/");
    assert("https://github.com/"@ + owner + "/"@ + repo =~= "https://github.com"@ + "/"@ + owner + "/"@ + repo);
    lemma_github_repo_of_url("https://github.com"@, owner, repo);
}

/// A Cargo manifest whose repository has fewer than three `/`-separated
/// segments names no repository, and reading it fails.
pub proof fn lemma_cargo_short_repository(text: Seq<char>, version: Seq<char>, url: Seq<char>)
    requires
        cargo_manifest(text) == Some((version, Some(url))),
        split_spec(url, '/').len() < 3,
    ensures
        version_info_of(PackageType::Rust, text) == Err::<(Seq<char>, Seq<char>), CheckError>(CheckError::MissingRepository),
{
}

/// A version that is already published fails the check with a conflict,
/// and the changelog is never scanned, whether or not that was asked for.
pub proof fn lemma_published_version_conflicts(version: Seq<char>, published: Seq<Seq<char>>, check_changelog: bool)
    requires
        published.contains(version),
    ensures
        step_of(version, published, check_changelog) == Step::Fail(CheckError::VersionConflict),
        step_of(version, published, check_changelog) != Step::ScanChangelog,
{
}

/// A version not yet published, with no changelog check asked for, passes
/// without the changelog being scanned.
pub proof fn lemma_new_version_passes(version: Seq<char>, published: Seq<Seq<char>>)
    requires
        !published.contains(version),
    ensures
        step_of(version, published, false) == Step::Succeed,
{
}

} // verus!
