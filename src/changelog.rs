//! Looking for a version's entry in a changelog.
use vstd::prelude::*;
use vstd::string::StringExecFns;

use crate::error::CheckError;
use crate::text::{lines_of, lines_spec, views};

verus! {

#[verifier::external_type_specification]
#[verifier::external_body]
pub struct ExRegex(regex::Regex);

#[verifier::external_type_specification]
#[verifier::external_body]
pub struct ExRegexError(regex::Error);

/// Whether a pattern is accepted by `regex::Regex::new`.
pub uninterp spec fn regex_compiles(pattern: Seq<char>) -> bool;

/// Whether `pattern`, compiled with the default settings of
/// `regex::Regex::new`, matches somewhere in `haystack`.
pub uninterp spec fn regex_finds(pattern: Seq<char>, haystack: Seq<char>) -> bool;

/// Whether the compiled regex `re` matches somewhere in `haystack`.
pub uninterp spec fn regex_matches(re: regex::Regex, haystack: Seq<char>) -> bool;

/// Relies on regex::Regex::new: whether a pattern compiles depends on the
/// pattern alone, and the regex it gives matches what the pattern matches
/// under the default settings.
#[verifier::external_body]
fn compile_regex(pattern: &str) -> (r: Result<regex::Regex, regex::Error>)
    ensures
        r is Ok == regex_compiles(pattern@),
        r matches Ok(re) ==> forall|h: Seq<char>| #[trigger] regex_matches(re, h) == regex_finds(pattern@, h),
{
    regex::Regex::new(pattern)
}

/// Relies on regex::Regex::is_match: a match of the regex anywhere in the haystack.
#[verifier::external_body]
fn regex_is_match(re: &regex::Regex, haystack: &str) -> (r: bool)
    ensures
        r == regex_matches(*re, haystack@),
{
    re.is_match(haystack)
}

/// The pattern of a changelog entry for `version`: `## <version> - YYYY-MM-DD`.
/// The version stands in it as it is, not escaped.
pub open spec fn entry_pattern(version: Seq<char>) -> Seq<char> {
    "## "@ + version + " - \\d{4}-\\d{2}-\\d{2}"@
}

/// Whether some line of `contents` holds a match of `pattern`.
pub open spec fn some_line_matches(contents: Seq<char>, pattern: Seq<char>) -> bool {
    exists|i: int| 0 <= i < lines_spec(contents).len() && regex_finds(pattern, #[trigger] lines_spec(contents)[i])
}

/// Builds the pattern of the changelog entry for `version`.
pub fn changelog_pattern(version: &str) -> (r: String)
    ensures
        r@ == entry_pattern(version@),
{
    let mut r = "## ".to_string();
    r.append(version);
    r.append(" - \\d{4}-\\d{2}-\\d{2}");
    r
}

/// Whether the compiled `re` matches in some line of `contents`.
pub open spec fn some_line_matched_by(contents: Seq<char>, re: regex::Regex) -> bool {
    exists|i: int| 0 <= i < lines_spec(contents).len() && regex_matches(re, #[trigger] lines_spec(contents)[i])
}

/// Whether the compiled `re` matches in some line of `contents`.
pub fn any_line_matches(contents: &str, re: &regex::Regex) -> (r: bool)
    ensures
        r == some_line_matched_by(contents@, *re),
{
    let lines = lines_of(contents);
    let ghost ls = views(lines@);
    let mut i: usize = 0;
    while i < lines.len()
        invariant
            ls == views(lines@),
            ls == lines_spec(contents@),
            i <= lines.len(),
            forall|j: int| 0 <= j < i ==> !regex_matches(*re, #[trigger] ls[j]),
        decreases lines.len() - i,
    {
        if regex_is_match(re, lines[i].as_str()) {
            assert(regex_matches(*re, ls[i as int]));
            return true;
        }
        i = i + 1;
    }
    false
}

/// Checks whether the changelog text `contents` has an entry line for
/// `version`: a line holding a match of `entry_pattern(version)`.
pub fn check_for_changelog(contents: &str, version: &str) -> (r: Result<bool, CheckError>)
    ensures
        match r {
            Ok(found) => regex_compiles(entry_pattern(version@))
                && found == some_line_matches(contents@, entry_pattern(version@)),
            Err(e) => e == CheckError::ChangelogPattern && !regex_compiles(entry_pattern(version@)),
        },
{
    let pattern = changelog_pattern(version);
    match compile_regex(pattern.as_str()) {
        Ok(re) => {
            let found = any_line_matches(contents, &re);
            assert(found == some_line_matches(contents@, entry_pattern(version@))) by {
                if found {
                    let i = choose|i: int| 0 <= i < lines_spec(contents@).len()
                        && regex_matches(re, #[trigger] lines_spec(contents@)[i]);
                    assert(regex_finds(entry_pattern(version@), lines_spec(contents@)[i]));
                }
                if some_line_matches(contents@, entry_pattern(version@)) {
                    let i = choose|i: int| 0 <= i < lines_spec(contents@).len()
                        && regex_finds(entry_pattern(version@), #[trigger] lines_spec(contents@)[i]);
                    assert(regex_matches(re, lines_spec(contents@)[i]));
                }
            }
            Ok(found)
        },
        Err(_) => Err(CheckError::ChangelogPattern),
    }
}

} // verus!
