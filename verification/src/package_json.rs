use vstd::prelude::*;
use vstd::string::*;

use crate::error::CommonError;
use crate::strutil::{
    ends_with_seq, replace_all, replace_seq, starts_with_seq, str_ends_with, str_eq,
    str_starts_with,
};

verus! {

/// The fields of a package.json manifest that the dispatcher reads.
#[derive(Debug, Clone)]
pub struct PackageJson {
    pub name: Option<String>,
    pub version: Option<String>,
    pub repository: Option<PkgRepo>,
    pub scripts: Option<Vec<(String, String)>>,
    pub package_manager: Option<String>,
}

/// A package.json `repository` field: either a bare URL string or a
/// table of entries such as `type` and `url`.
#[derive(Debug, Clone)]
pub enum PkgRepo {
    Str(String),
    Table(Vec<(String, String)>),
}

/// The value of the first pair of `t` whose key is `k`.
pub open spec fn table_get(t: Seq<(String, String)>, k: Seq<char>) -> Option<Seq<char>>
    decreases t.len(),
{
    if t.len() == 0 {
        None
    } else if t[0].0@ == k {
        Some(t[0].1@)
    } else {
        table_get(t.drop_first(), k)
    }
}

/// The value stored under key `k`, if any.
pub fn table_lookup(t: &Vec<(String, String)>, k: &str) -> (r: Option<String>)
    ensures
        r.deep_view() == table_get(t@, k@),
{
    let mut i: usize = 0;
    proof {
        assert(t@.skip(0) =~= t@);
    }
    while i < t.len()
        invariant
            i <= t@.len(),
            table_get(t@, k@) == table_get(t@.skip(i as int), k@),
        decreases t@.len() - i,
    {
        proof {
            assert(t@.skip(i as int)[0] == t@[i as int]);
            assert(t@.skip(i as int).drop_first() =~= t@.skip(i + 1));
        }
        if str_eq(t[i].0.as_str(), k) {
            return Some(t[i].1.clone());
        }
        i += 1;
    }
    proof {
        assert(t@.skip(t@.len() as int) =~= Seq::<(String, String)>::empty());
    }
    None
}

/// The repository URL with a leading `git+` and then a trailing `.git`
/// stripped.
pub open spec fn stripped_url(s: Seq<char>) -> Seq<char> {
    let a = if starts_with_seq(s, "git+"@) {
        replace_seq(s, "git+"@, Seq::empty())
    } else {
        s
    };
    if ends_with_seq(a, ".git"@) {
        replace_seq(a, ".git"@, Seq::empty())
    } else {
        a
    }
}

/// What `parse_url` returns for a repository URL `s`.
pub open spec fn parse_url_post(r: Result<String, CommonError>, s: Seq<char>) -> bool {
    if stripped_url(s).len() > 0 {
        r matches Ok(u) && u@ == stripped_url(s)
    } else {
        r matches Err(CommonError::NotFound(m)) && m@
            == "package.json repository url field is empty!"@
    }
}

/// The repository URL cleaned for display: `git+` and `.git` are
/// stripped, and an empty result is an error.
pub fn parse_url(url: &str) -> (r: Result<String, CommonError>)
    ensures
        parse_url_post(r, url@),
{
    proof {
        reveal_strlit("git+");
        reveal_strlit(".git");
        reveal_strlit("");
    }
    let a = if str_starts_with(url, "git+") {
        replace_all(url, "git+", "")
    } else {
        url.to_owned()
    };
    proof {
        assert(""@ =~= Seq::<char>::empty());
    }
    let b = if str_ends_with(a.as_str(), ".git") {
        replace_all(a.as_str(), ".git", "")
    } else {
        a
    };
    if b.as_str().unicode_len() == 0 {
        proof {
            assert(stripped_url(url@).len() == 0);
        }
        Err(
            CommonError::NotFound(
                String::from_str("package.json repository url field is empty!"),
            ),
        )
    } else {
        Ok(b)
    }
}

impl PackageJson {
    /// The repository page URL taken from the `repository` field (or
    /// its `url` entry) and cleaned by `parse_url`.
    pub fn get_url(&self) -> (r: Result<String, CommonError>)
        ensures
            self.repository is None ==> (r matches Err(CommonError::NotFound(m)) && m@
                == "package.json repository field not found!"@),
            self.repository matches Some(PkgRepo::Str(u)) ==> parse_url_post(r, u@),
            self.repository matches Some(PkgRepo::Table(t)) ==> match table_get(t@, "url"@) {
                Some(u) => parse_url_post(r, u),
                None => r matches Err(CommonError::NotFound(m)) && m@
                    == "package.json repository url field not found!"@,
            },
    {
        match &self.repository {
            Some(repo) => match repo {
                PkgRepo::Str(repository) => parse_url(repository.as_str()),
                PkgRepo::Table(repo) => match table_lookup(repo, "url") {
                    Some(url) => parse_url(url.as_str()),
                    None => Err(
                        CommonError::NotFound(
                            String::from_str("package.json repository url field not found!"),
                        ),
                    ),
                },
            },
            None => Err(
                CommonError::NotFound(
                    String::from_str("package.json repository field not found!"),
                ),
            ),
        }
    }
}

} // verus!
