//! The ways a check can fail. Each one ends the run.
use vstd::prelude::*;

verus! {

#[derive(Debug, Clone, Copy, PartialEq, Eq, Structural)]
pub enum CheckError {
    /// The manifest file is missing or unreadable.
    ManifestRead,
    /// The manifest does not parse, or lacks a required field.
    ManifestParse,
    /// No GitHub repository can be derived from the Cargo manifest.
    MissingRepository,
    /// The registry could not be queried or its answer decoded.
    RegistryQuery,
    /// A GitHub identifier is not of the form `owner/repo`.
    InvalidIdentifier,
    /// A GitHub release tag does not start with `v`.
    TagFormat,
    /// The changelog file is missing or unreadable.
    ChangelogRead,
    /// The changelog pattern for the version is not a valid regular expression.
    ChangelogPattern,
    /// The version has already been published.
    VersionConflict,
    /// The changelog has no entry for the version.
    ChangelogMissing,
}

} // verus!
