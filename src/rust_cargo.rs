//! Cargo manifests and the GitHub repository they name.
use vstd::prelude::*;
use vstd::string::StringExecFns;

use crate::error::CheckError;
use crate::text::{lemma_split_join, lemma_split_single, split_on, split_spec, views};
use crate::toml_doc::{lookup, parse_document, read_table_string, string_of, table_string, toml_lookup, toml_parse, toml_string};

verus! {

/// A GitHub repository, named by its owner and its name.
#[derive(Debug, Clone)]
pub struct GithubRepo {
    pub owner: String,
    pub repo: String,
}

impl View for GithubRepo {
    type V = (Seq<char>, Seq<char>);

    open spec fn view(&self) -> (Seq<char>, Seq<char>) {
        (self.owner@, self.repo@)
    }
}

/// Holds of the segments that are not empty.
pub open spec fn nonempty() -> spec_fn(Seq<char>) -> bool {
    |p: Seq<char>| p.len() > 0
}

/// Owner and repository named by a URL: its last two non-empty
/// `/`-separated segments, where the URL has at least three segments.
pub open spec fn github_repo_of(url: Seq<char>) -> Option<(Seq<char>, Seq<char>)> {
    let parts = split_spec(url, '/');
    let named = parts.filter(nonempty());
    if parts.len() >= 3 && named.len() >= 2 {
        Some((named[named.len() - 2], named[named.len() - 1]))
    } else {
        None
    }
}

/// A URL `<host>/<owner>/<repo>` names `owner` and `repo`, whatever the
/// host, where both are non-empty and hold no `/`.
pub proof fn lemma_github_repo_of_url(host: Seq<char>, owner: Seq<char>, repo: Seq<char>)
    requires
        owner.len() > 0,
        repo.len() > 0,
        !owner.contains('/'),
        !repo.contains('/'),
    ensures
        github_repo_of(host + "/"@ + owner + "/"@ + repo) == Some((owner, repo)),
{
    reveal_strlit("/");
    let url = host + "/"@ + owner + "/"@ + repo;
    assert(url =~= (host + seq!['/'] + owner) + seq!['/'] + repo);
    lemma_split_join(host + seq!['/'] + owner, repo, '/');
    lemma_split_join(host, owner, '/');
    lemma_split_single(owner, '/');
    lemma_split_single(repo, '/');
    let front = split_spec(host, '/');
    let parts = split_spec(url, '/');
    assert(parts =~= front.push(owner).push(repo));
    crate::text::lemma_split_nonempty(host, '/');
    reveal(Seq::filter);
    assert(parts.drop_last() =~= front.push(owner));
    assert(front.push(owner).drop_last() =~= front);
    let named = parts.filter(nonempty());
    assert(named == front.filter(nonempty()).push(owner).push(repo));
}

/// The `owner/repo` form of a repository.
pub open spec fn identifier_of(owner: Seq<char>, repo: Seq<char>) -> Seq<char> {
    owner + "/"@ + repo
}

impl GithubRepo {
    /// Derives the repository from a URL such as `https://github.com/owner/repo`.
    pub fn from_github_url(url: &str) -> (r: Option<GithubRepo>)
        ensures
            match r {
                Some(g) => github_repo_of(url@) == Some(g@),
                None => github_repo_of(url@) is None,
            },
    {
        let parts = split_on(url, '/');
        let ghost all = views(parts@);
        let ghost pred = nonempty();
        let mut count: usize = 0;
        let mut last: usize = 0;
        let mut prev: usize = 0;
        let mut i: usize = 0;
        proof {
            reveal(Seq::filter);
            assert(all.take(0) =~= Seq::<Seq<char>>::empty());
        }
        while i < parts.len()
            invariant
                all == views(parts@),
                pred == nonempty(),
                i <= parts.len(),
                count == all.take(i as int).filter(pred).len(),
                count >= 1 ==> last < i,
                count >= 2 ==> prev < i,
                count >= 1 ==> all.take(i as int).filter(pred)[count - 1] == parts@[last as int]@,
                count >= 2 ==> all.take(i as int).filter(pred)[count - 2] == parts@[prev as int]@,
            decreases parts.len() - i,
        {
            let ghost before = all.take(i as int).filter(pred);
            proof {
                reveal(Seq::filter);
                assert(all.take(i + 1).drop_last() =~= all.take(i as int));
                assert(all.take(i + 1).last() == parts@[i as int]@);
                assert(before.len() <= i) by {
                    all.take(i as int).lemma_filter_len(pred);
                }
            }
            let seg_len = parts[i].as_str().unicode_len();
            assert(seg_len == parts@[i as int]@.len());
            assert(pred(parts@[i as int]@) == (parts@[i as int]@.len() > 0));
            if seg_len > 0 {
                assert(all.take(i + 1).filter(pred) == before.push(parts@[i as int]@));
                prev = last;
                last = i;
                count = count + 1;
            } else {
                assert(all.take(i + 1).filter(pred) == before);
            }
            i = i + 1;
        }
        proof {
            assert(all.take(i as int) =~= all);
        }
        if parts.len() >= 3 && count >= 2 {
            Some(GithubRepo { owner: parts[prev].clone(), repo: parts[last].clone() })
        } else {
            None
        }
    }

    /// The `owner/repo` form of this repository.
    pub fn identifier(&self) -> (r: String)
        ensures
            r@ == identifier_of(self.owner@, self.repo@),
    {
        let mut r = self.owner.clone();
        r.append("/");
        r.append(self.repo.as_str());
        r
    }
}

/// The `[package]` table of a Cargo manifest.
#[derive(Debug, Clone)]
pub struct CargoPackage {
    pub version: String,
    pub repository: Option<String>,
}

/// A Cargo manifest.
#[derive(Debug, Clone)]
pub struct CargoConfig {
    pub package: CargoPackage,
}

/// The view of an optional string.
pub open spec fn opt_view(o: Option<String>) -> Option<Seq<char>> {
    match o {
        Some(s) => Some(s@),
        None => None,
    }
}

/// What a Cargo manifest text declares: the package version, and the
/// repository where one is given. `None` where the text does not parse,
/// `package.version` is no string, or `package.repository` is there but is
/// no string.
pub open spec fn cargo_manifest(text: Seq<char>) -> Option<(Seq<char>, Option<Seq<char>>)> {
    match toml_parse(text) {
        None => None,
        Some(doc) => match table_string(doc, "package"@, "version"@) {
            None => None,
            Some(version) => match toml_lookup(doc, "package"@) {
                None => None,
                Some(pkg) => match toml_lookup(pkg, "repository"@) {
                    None => Some((version, None)),
                    Some(v) => match toml_string(v) {
                        Some(repo) => Some((version, Some(repo))),
                        None => None,
                    },
                },
            },
        },
    }
}

impl CargoPackage {
    /// The GitHub repository that the `repository` field names, if any.
    pub fn get_github_repo(&self) -> (r: Option<GithubRepo>)
        ensures
            match r {
                Some(g) => self.repository is Some && github_repo_of(self.repository->Some_0@) == Some(g@),
                None => self.repository is None || github_repo_of(self.repository->Some_0@) is None,
            },
    {
        match &self.repository {
            Some(repository) => GithubRepo::from_github_url(repository.as_str()),
            None => None,
        }
    }
}

/// Reads a Cargo manifest from its text.
pub fn read_cargo_toml(contents: &str) -> (r: Result<CargoConfig, CheckError>)
    ensures
        match r {
            Ok(c) => cargo_manifest(contents@) == Some((c.package.version@, opt_view(c.package.repository))),
            Err(e) => e == CheckError::ManifestParse && cargo_manifest(contents@) is None,
        },
{
    let doc = match parse_document(contents) {
        Some(d) => d,
        None => return Err(CheckError::ManifestParse),
    };
    let version = match read_table_string(&doc, "package", "version") {
        Some(v) => v,
        None => return Err(CheckError::ManifestParse),
    };
    let pkg = match lookup(&doc, "package") {
        Some(p) => p,
        None => return Err(CheckError::ManifestParse),
    };
    let repository = match lookup(&pkg, "repository") {
        None => None,
        Some(v) => match string_of(&v) {
            Some(repo) => Some(repo),
            None => return Err(CheckError::ManifestParse),
        },
    };
    Ok(CargoConfig { package: CargoPackage { version, repository } })
}

} // verus!
