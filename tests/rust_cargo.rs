use pypi_version_check::error::CheckError;
use pypi_version_check::rust_cargo::{read_cargo_toml, CargoPackage, GithubRepo};

#[test]
fn test_from_github_url() {
    let url = "https://github.com/dbradf/pypi-version-check";

    let github_repo = GithubRepo::from_github_url(url);

    assert!(github_repo.is_some());
    let github_repo = github_repo.unwrap();

    assert_eq!(github_repo.owner, "dbradf");
    assert_eq!(github_repo.repo, "pypi-version-check");
}

#[test]
fn from_github_url_needs_three_segments() {
    assert!(GithubRepo::from_github_url("owner/repo").is_none());
    assert!(GithubRepo::from_github_url("repo").is_none());
    assert!(GithubRepo::from_github_url("").is_none());
}

#[test]
fn from_github_url_skips_empty_segments() {
    let repo = GithubRepo::from_github_url("https://github.com/owner/repo/").unwrap();
    assert_eq!(repo.owner, "owner");
    assert_eq!(repo.repo, "repo");
    let repo = GithubRepo::from_github_url("/a/b").unwrap();
    assert_eq!(repo.owner, "a");
    assert_eq!(repo.repo, "b");
    assert!(GithubRepo::from_github_url("a//").is_none());
}

#[test]
fn identifier_joins_owner_and_repo() {
    let repo = GithubRepo { owner: "dbradf".to_string(), repo: "tool".to_string() };
    assert_eq!(repo.identifier(), "dbradf/tool");
}

#[test]
fn get_github_repo_reads_repository() {
    let package = CargoPackage {
        version: "1.0.0".to_string(),
        repository: Some("https://github.com/o/r".to_string()),
    };
    let repo = package.get_github_repo().unwrap();
    assert_eq!(repo.identifier(), "o/r");
    let package = CargoPackage { version: "1.0.0".to_string(), repository: None };
    assert!(package.get_github_repo().is_none());
}

#[test]
fn read_cargo_toml_fields() {
    let text = "[package]\nname = \"x\"\nversion = \"0.3.1\"\nrepository = \"https://github.com/o/r\"\n";
    let config = read_cargo_toml(text).unwrap();
    assert_eq!(config.package.version, "0.3.1");
    assert_eq!(config.package.repository, Some("https://github.com/o/r".to_string()));

    let config = read_cargo_toml("[package]\nversion = \"0.3.1\"\n").unwrap();
    assert_eq!(config.package.repository, None);
}

#[test]
fn read_cargo_toml_errors() {
    assert_eq!(read_cargo_toml("[package").unwrap_err(), CheckError::ManifestParse);
    assert_eq!(read_cargo_toml("[package]\nname = \"x\"\n").unwrap_err(), CheckError::ManifestParse);
    assert_eq!(read_cargo_toml("[package]\nversion = 3\n").unwrap_err(), CheckError::ManifestParse);
    assert_eq!(
        read_cargo_toml("[package]\nversion = \"1\"\nrepository = 4\n").unwrap_err(),
        CheckError::ManifestParse
    );
}
