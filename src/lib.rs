//! Pre-publish gate: checks that the version declared in a project's
//! manifest has not been published yet, and that a changelog documents it.
pub mod changelog;
pub mod error;
pub mod github_release;
pub mod pypi;
pub mod pypoetry;
pub mod rust_cargo;
pub mod text;
pub mod toml_doc;
pub mod version_check;
