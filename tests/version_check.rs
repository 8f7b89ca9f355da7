use pypi_version_check::changelog::check_for_changelog;
use pypi_version_check::error::CheckError;
use pypi_version_check::github_release::{
    split_identifier, version_from_tag, versions_from_releases, GithubRelease,
};
use pypi_version_check::pypi::{project_url, PypiDownloads, PypiInfo, PypiProject};
use pypi_version_check::version_check::{
    changelog_outcome, conflict_message, is_published, missing_changelog_message, next_step,
    PackageType, PublishType, Step, VersionInfo,
};

fn info(version: &str) -> VersionInfo {
    VersionInfo { published_name: "pkg".to_string(), current_version: version.to_string() }
}

fn strings(items: &[&str]) -> Vec<String> {
    items.iter().map(|s| s.to_string()).collect()
}

fn release(tag: &str) -> GithubRelease {
    GithubRelease { tag_name: tag.to_string() }
}

#[test]
fn published_version_conflicts() {
    let published = strings(&["0.8.0", "1.0.0"]);
    assert_eq!(next_step(&info("1.0.0"), &published, true), Step::Fail(CheckError::VersionConflict));
    assert_eq!(next_step(&info("1.0.0"), &published, false), Step::Fail(CheckError::VersionConflict));
}

#[test]
fn new_version_without_changelog_check_passes() {
    let published = strings(&["0.8.0"]);
    assert_eq!(next_step(&info("1.0.0"), &published, false), Step::Succeed);
    assert_eq!(next_step(&info("1.0.0"), &Vec::new(), false), Step::Succeed);
    assert_eq!(next_step(&info("1.0.0"), &published, true), Step::ScanChangelog);
}

#[test]
fn is_published_membership() {
    let published = strings(&["0.8.0", "0.9.0", "0.9.0"]);
    assert!(is_published(&"0.9.0".to_string(), &published));
    assert!(!is_published(&"0.9".to_string(), &published));
}

#[test]
fn github_tags_map_to_versions() {
    assert_eq!(version_from_tag("v2.0.0"), Ok("2.0.0".to_string()));
    assert_eq!(version_from_tag("2.0.0"), Err(CheckError::TagFormat));
    assert_eq!(version_from_tag(""), Err(CheckError::TagFormat));
    let releases = vec![release("v2.0.0"), release("v1.0.0")];
    assert_eq!(versions_from_releases(&releases), Ok(strings(&["2.0.0", "1.0.0"])));
    let releases = vec![release("v2.0.0"), release("1.0.0")];
    assert_eq!(versions_from_releases(&releases), Err(CheckError::TagFormat));
}

#[test]
fn github_identifier_splits_at_first_slash() {
    assert_eq!(split_identifier("owner/repo"), Ok(("owner".to_string(), "repo".to_string())));
    assert_eq!(split_identifier("a/b/c"), Ok(("a".to_string(), "b/c".to_string())));
    assert_eq!(split_identifier("noslash"), Err(CheckError::InvalidIdentifier));
}

#[test]
fn registry_urls() {
    assert_eq!(
        PublishType::GithubRelease.registry_url("dbradf/tool"),
        Ok("https://api.github.com/repos/dbradf/tool/releases".to_string())
    );
    assert_eq!(PublishType::GithubRelease.registry_url("tool"), Err(CheckError::InvalidIdentifier));
    assert_eq!(PublishType::Pypi.registry_url("pkg"), Ok("https://pypi.org/pypi/pkg/json".to_string()));
    assert_eq!(project_url("x"), "https://pypi.org/pypi/x/json");
}

#[test]
fn publish_type_names() {
    assert_eq!(PublishType::from_name("pypi"), Some(PublishType::Pypi));
    assert_eq!(PublishType::from_name("github-release"), Some(PublishType::GithubRelease));
    assert_eq!(PublishType::from_name("github"), None);
}

#[test]
fn messages() {
    let published = strings(&["0.8.0", "0.9.0"]);
    assert_eq!(conflict_message("0.9.0", &published), "Version 0.9.0 already exists, latest version is 0.8.0");
    assert_eq!(missing_changelog_message("1.0.0", "CHANGELOG.md"), "Unable to find version 1.0.0 in CHANGELOG.md");
    assert_eq!(changelog_outcome(true), Ok(()));
    assert_eq!(changelog_outcome(false), Err(CheckError::ChangelogMissing));
}

#[test]
fn pypi_release_versions() {
    let project = PypiProject {
        info: PypiInfo {
            author: String::new(),
            author_email: String::new(),
            bugtrack_url: None,
            classifiers: Vec::new(),
            description: String::new(),
            description_content_type: String::new(),
            docs_url: None,
            download_url: String::new(),
            downloads: PypiDownloads { last_day: 0, last_month: 0, last_week: 0 },
            home_page: String::new(),
            keywords: String::new(),
            license: String::new(),
            maintainer: String::new(),
            maintainer_email: String::new(),
            name: "pkg".to_string(),
            package_url: String::new(),
            platform: String::new(),
            project_url: String::new(),
            project_urls: Vec::new(),
            release_url: String::new(),
            requires_dist: Vec::new(),
            requires_python: String::new(),
            summary: String::new(),
            version: "0.9.0".to_string(),
            yanked: false,
            yanked_reason: None,
        },
        last_serial: 1,
        releases: vec![("0.8.0".to_string(), Vec::new()), ("0.9.0".to_string(), Vec::new())],
        urls: Vec::new(),
        vulnerabilities: Vec::new(),
    };
    assert_eq!(project.release_versions(), strings(&["0.8.0", "0.9.0"]));
}

#[test]
fn run_fails_on_existing_version() {
    let manifest = "[tool.poetry]\nname = \"pkg\"\nversion = \"0.9.0\"\n";
    let version_info = PackageType::PythonPoetry.get_current_version(manifest).unwrap();
    let published = strings(&["0.8.0", "0.9.0"]);
    let step = next_step(&version_info, &published, true);
    assert_eq!(step, Step::Fail(CheckError::VersionConflict));
    let message = conflict_message(&version_info.current_version, &published);
    assert!(message.contains("Version 0.9.0 already exists"));
}

#[test]
fn run_fails_on_missing_changelog_entry() {
    let manifest = "[tool.poetry]\nname = \"pkg\"\nversion = \"1.0.0\"\n";
    let version_info = PackageType::PythonPoetry.get_current_version(manifest).unwrap();
    let published = strings(&["0.9.0"]);
    assert_eq!(next_step(&version_info, &published, true), Step::ScanChangelog);
    let changelog = "# Changelog\n## 0.9.0 - 2023-01-01\n";
    let found = check_for_changelog(changelog, &version_info.current_version).unwrap();
    assert!(!found);
    assert_eq!(changelog_outcome(found), Err(CheckError::ChangelogMissing));
}
