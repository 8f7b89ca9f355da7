//! Poetry manifests (`pyproject.toml`).
use vstd::prelude::*;

use crate::error::CheckError;
use crate::toml_doc::{parse_document, read_table_string, table_string, toml_lookup, toml_parse};

verus! {

/// The `[tool.poetry]` table: the fields a check reads.
#[derive(Debug, Clone)]
pub struct Poetry {
    pub name: String,
    pub version: String,
}

/// The `[tool]` table.
#[derive(Debug, Clone)]
pub struct Tool {
    pub poetry: Poetry,
}

/// A `pyproject.toml` manifest.
#[derive(Debug, Clone)]
pub struct PyProjectConfig {
    pub tool: Tool,
}

/// Name and version that a Poetry manifest text declares under
/// `tool.poetry`; `None` where the text does not parse or either is
/// missing or no string.
pub open spec fn poetry_manifest(text: Seq<char>) -> Option<(Seq<char>, Seq<char>)> {
    match toml_parse(text) {
        None => None,
        Some(doc) => match toml_lookup(doc, "tool"@) {
            None => None,
            Some(tool) => match (table_string(tool, "poetry"@, "name"@), table_string(tool, "poetry"@, "version"@)) {
                (Some(name), Some(version)) => Some((name, version)),
                _ => None,
            },
        },
    }
}

/// Reads a Poetry manifest from its text.
pub fn read_pyproject_toml(contents: &str) -> (r: Result<PyProjectConfig, CheckError>)
    ensures
        match r {
            Ok(c) => poetry_manifest(contents@) == Some((c.tool.poetry.name@, c.tool.poetry.version@)),
            Err(e) => e == CheckError::ManifestParse && poetry_manifest(contents@) is None,
        },
{
    let doc = match parse_document(contents) {
        Some(d) => d,
        None => return Err(CheckError::ManifestParse),
    };
    let tool = match crate::toml_doc::lookup(&doc, "tool") {
        Some(t) => t,
        None => return Err(CheckError::ManifestParse),
    };
    let name = read_table_string(&tool, "poetry", "name");
    let version = read_table_string(&tool, "poetry", "version");
    match (name, version) {
        (Some(name), Some(version)) => Ok(PyProjectConfig { tool: Tool { poetry: Poetry { name, version } } }),
        _ => Err(CheckError::ManifestParse),
    }
}

} // verus!
