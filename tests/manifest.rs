use pypi_version_check::error::CheckError;
use pypi_version_check::pypoetry::read_pyproject_toml;
use pypi_version_check::version_check::PackageType;

#[test]
fn poetry_manifest_gives_name_and_version() {
    let text = "[tool.poetry]\nname = \"my-package\"\nversion = \"1.4.0\"\ndescription = \"d\"\n";
    let info = PackageType::PythonPoetry.get_current_version(text).unwrap();
    assert_eq!(info.published_name, "my-package");
    assert_eq!(info.current_version, "1.4.0");
}

#[test]
fn poetry_manifest_missing_fields() {
    let text = "[tool.poetry]\nname = \"my-package\"\n";
    assert_eq!(
        PackageType::PythonPoetry.get_current_version(text).unwrap_err(),
        CheckError::ManifestParse
    );
    let text = "[tool.poetry]\nname = \"p\"\nversion = 1\n";
    assert_eq!(read_pyproject_toml(text).unwrap_err(), CheckError::ManifestParse);
    assert_eq!(read_pyproject_toml("not toml [").unwrap_err(), CheckError::ManifestParse);
    assert_eq!(read_pyproject_toml("").unwrap_err(), CheckError::ManifestParse);
}

#[test]
fn read_pyproject_toml_fields() {
    let text = "[tool.poetry]\nversion = \"2.0\"\nname = \"pkg\"\n[tool.other]\nx = 1\n";
    let config = read_pyproject_toml(text).unwrap();
    assert_eq!(config.tool.poetry.name, "pkg");
    assert_eq!(config.tool.poetry.version, "2.0");
}

#[test]
fn cargo_manifest_gives_github_identifier() {
    let text = "[package]\nname = \"tool\"\nversion = \"0.2.0\"\nrepository = \"https://github.com/OWNER/REPO\"\n";
    let info = PackageType::Rust.get_current_version(text).unwrap();
    assert_eq!(info.published_name, "OWNER/REPO");
    assert_eq!(info.current_version, "0.2.0");
}

#[test]
fn cargo_manifest_without_repository_fails() {
    let text = "[package]\nversion = \"0.2.0\"\n";
    assert_eq!(PackageType::Rust.get_current_version(text).unwrap_err(), CheckError::MissingRepository);
    let text = "[package]\nversion = \"0.2.0\"\nrepository = \"owner/repo\"\n";
    assert_eq!(PackageType::Rust.get_current_version(text).unwrap_err(), CheckError::MissingRepository);
    let text = "[package]\nrepository = \"https://github.com/o/r\"\n";
    assert_eq!(PackageType::Rust.get_current_version(text).unwrap_err(), CheckError::ManifestParse);
}

#[test]
fn package_type_names() {
    assert_eq!(PackageType::from_name("python-poetry"), Some(PackageType::PythonPoetry));
    assert_eq!(PackageType::from_name("rust"), Some(PackageType::Rust));
    assert_eq!(PackageType::from_name("Rust"), None);
    assert_eq!(PackageType::PythonPoetry.manifest_file_name(), "pyproject.toml");
    assert_eq!(PackageType::Rust.manifest_file_name(), "Cargo.toml");
}
