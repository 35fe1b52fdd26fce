//! Accessors for the repository resources: each knows the path of its
//! resource and assembles the URI of a listing from its options.
use vstd::prelude::*;
use crate::encoding::{parse_url_path, url_path_of};
use crate::list_options::{OrganizationRepoListOptions, RepoListOptions, UserRepoListOptions};

verus! {

/// `base`, followed by `?` and the query where there is one.
pub open spec fn with_query(base: Seq<char>, query: Option<Seq<char>>) -> Seq<char> {
    match query {
        None => base,
        Some(q) => base + "?"@ + q,
    }
}

/// Appends `?` and the query, where there is one, to `base`.
fn append_query(base: String, query: Option<String>) -> (r: String)
    ensures
        r@ == with_query(
            base@,
            match query {
                None => None,
                Some(q) => Some(q@),
            },
        ),
{
    let mut r = base;
    match query {
        None => {},
        Some(q) => {
            r.append("?");
            r.append(q.as_str());
        },
    }
    r
}

/// The repositories of the authenticated user.
#[derive(Debug)]
pub struct Repositories {}

impl Repositories {
    pub open spec fn path_of(more: Seq<char>) -> Seq<char> {
        "/user/repos"@ + more
    }

    pub fn new() -> (r: Repositories) {
        Repositories {  }
    }

    pub fn path(&self, more: &str) -> (r: String)
        ensures
            r@ == Self::path_of(more@),
    {
        let mut r = String::from_str("/user/repos");
        r.append(more);
        r
    }

    /// The URI at which the repositories that `options` select are listed.
    pub fn list_uri(&self, options: &RepoListOptions) -> (r: String)
        requires
            options.wf(),
        ensures
            r@ == with_query(Self::path_of(""@), options.query()),
    {
        let base = self.path("");
        append_query(base, options.serialize())
    }
}

/// The repositories of one user.
#[derive(Debug)]
pub struct UserRepositories {
    owner: String,
}

impl UserRepositories {
    pub closed spec fn owner(&self) -> Seq<char> {
        self.owner@
    }

    pub open spec fn path_of(owner: Seq<char>, more: Seq<char>) -> Seq<char> {
        "/users/"@ + owner + "/repos"@ + more
    }

    pub fn new(owner: &str) -> (r: UserRepositories)
        ensures
            r.owner() == owner@,
    {
        UserRepositories { owner: String::from_str(owner) }
    }

    pub fn path(&self, more: &str) -> (r: String)
        ensures
            r@ == Self::path_of(self.owner(), more@),
    {
        let mut r = String::from_str("/users/");
        r.append(self.owner.as_str());
        r.append("/repos");
        r.append(more);
        r
    }

    /// The URI at which the repositories that `options` select are listed.
    pub fn list_uri(&self, options: &UserRepoListOptions) -> (r: String)
        requires
            options.wf(),
        ensures
            r@ == with_query(Self::path_of(self.owner(), ""@), options.query()),
    {
        let base = self.path("");
        append_query(base, options.serialize())
    }
}

/// The repositories of one organization.
#[derive(Debug)]
pub struct OrganizationRepositories {
    org: String,
}

impl OrganizationRepositories {
    pub closed spec fn org(&self) -> Seq<char> {
        self.org@
    }

    pub open spec fn path_of(org: Seq<char>, more: Seq<char>) -> Seq<char> {
        "/orgs/"@ + org + "/repos"@ + more
    }

    pub fn new(org: &str) -> (r: OrganizationRepositories)
        ensures
            r.org() == org@,
    {
        OrganizationRepositories { org: String::from_str(org) }
    }

    pub fn path(&self, more: &str) -> (r: String)
        ensures
            r@ == Self::path_of(self.org(), more@),
    {
        let mut r = String::from_str("/orgs/");
        r.append(self.org.as_str());
        r.append("/repos");
        r.append(more);
        r
    }

    /// The URI at which the repositories that `options` select are listed.
    pub fn list_uri(&self, options: &OrganizationRepoListOptions) -> (r: String)
        requires
            options.wf(),
        ensures
            r@ == with_query(Self::path_of(self.org(), ""@), options.query()),
    {
        let base = self.path("");
        append_query(base, options.serialize())
    }
}

/// One repository, named by its owner and its name.
#[derive(Debug)]
pub struct Repository {
    owner: String,
    repo: String,
}

impl Repository {
    pub closed spec fn owner(&self) -> Seq<char> {
        self.owner@
    }

    pub closed spec fn repo(&self) -> Seq<char> {
        self.repo@
    }

    pub fn new(owner: &str, repo: &str) -> (r: Repository)
        ensures
            r.owner() == owner@,
            r.repo() == repo@,
    {
        Repository { owner: String::from_str(owner), repo: String::from_str(repo) }
    }
}

/// The path at which the languages of a repository are listed, taken from
/// the absolute URL that the repository record gives for them; `None` where
/// that URL does not parse.
pub fn languages_path(languages_url: &str) -> (r: Option<String>)
    ensures
        r.is_none() == url_path_of(languages_url@).is_none(),
        r.is_some() ==> url_path_of(languages_url@) == Some(r.unwrap()@),
{
    parse_url_path(languages_url)
}

} // verus!
