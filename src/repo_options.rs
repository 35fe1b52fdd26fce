//! The settings of a repository to create, and their builder.
use vstd::prelude::*;

verus! {

/// The settings of a repository to create. Only `name` is required; a
/// setting left `None` is left to the server.
#[derive(Debug)]
pub struct RepoOptions {
    pub name: String,
    pub description: Option<String>,
    pub homepage: Option<String>,
    pub private: Option<bool>,
    pub has_issues: Option<bool>,
    pub has_wiki: Option<bool>,
    pub has_downloads: Option<bool>,
    pub team_id: Option<i32>,
    pub auto_init: Option<bool>,
    pub gitignore_template: Option<String>,
    pub license_template: Option<String>,
}

/// An independent copy of an optional text.
fn copy_text(t: &Option<String>) -> (r: Option<String>)
    ensures
        r == *t,
{
    match t {
        Some(s) => Some(s.clone()),
        None => None,
    }
}

impl RepoOptions {
    pub fn new(
        name: String,
        description: Option<String>,
        homepage: Option<String>,
        private: Option<bool>,
        has_issues: Option<bool>,
        has_wiki: Option<bool>,
        has_downloads: Option<bool>,
        team_id: Option<i32>,
        auto_init: Option<bool>,
        gitignore_template: Option<String>,
        license_template: Option<String>,
    ) -> (r: RepoOptions)
        ensures
            r.name == name,
            r.description == description,
            r.homepage == homepage,
            r.private == private,
            r.has_issues == has_issues,
            r.has_wiki == has_wiki,
            r.has_downloads == has_downloads,
            r.team_id == team_id,
            r.auto_init == auto_init,
            r.gitignore_template == gitignore_template,
            r.license_template == license_template,
    {
        RepoOptions {
            name,
            description,
            homepage,
            private,
            has_issues,
            has_wiki,
            has_downloads,
            team_id,
            auto_init,
            gitignore_template,
            license_template,
        }
    }

    pub fn builder(name: String) -> (r: RepoOptionsBuilder)
        ensures
            r@.name == name,
            r@.description.is_none(),
            r@.homepage.is_none(),
            r@.private.is_none(),
            r@.has_issues.is_none(),
            r@.has_wiki.is_none(),
            r@.has_downloads.is_none(),
            r@.team_id.is_none(),
            r@.auto_init.is_none(),
            r@.gitignore_template.is_none(),
            r@.license_template.is_none(),
    {
        RepoOptionsBuilder::new(name)
    }
}

/// Collects the settings of a repository to create.
#[derive(Debug)]
pub struct RepoOptionsBuilder {
    opts: RepoOptions,
}

impl View for RepoOptionsBuilder {
    type V = RepoOptions;

    closed spec fn view(&self) -> RepoOptions {
        self.opts
    }
}

impl RepoOptionsBuilder {
    pub fn new(name: String) -> (r: RepoOptionsBuilder)
        ensures
            r@.name == name,
            r@.description.is_none(),
            r@.homepage.is_none(),
            r@.private.is_none(),
            r@.has_issues.is_none(),
            r@.has_wiki.is_none(),
            r@.has_downloads.is_none(),
            r@.team_id.is_none(),
            r@.auto_init.is_none(),
            r@.gitignore_template.is_none(),
            r@.license_template.is_none(),
    {
        RepoOptionsBuilder {
            opts: RepoOptions {
                name,
                description: None,
                homepage: None,
                private: None,
                has_issues: None,
                has_wiki: None,
                has_downloads: None,
                team_id: None,
                auto_init: None,
                gitignore_template: None,
                license_template: None,
            },
        }
    }

    pub fn description(&mut self, description: String) -> (r: &mut RepoOptionsBuilder)
        ensures
            r@ == (RepoOptions { description: Some(description), ..old(self)@ }),
            *final(self) == *final(r),
    {
        self.opts.description = Some(description);
        self
    }

    pub fn homepage(&mut self, homepage: String) -> (r: &mut RepoOptionsBuilder)
        ensures
            r@ == (RepoOptions { homepage: Some(homepage), ..old(self)@ }),
            *final(self) == *final(r),
    {
        self.opts.homepage = Some(homepage);
        self
    }

    pub fn private(&mut self, private: bool) -> (r: &mut RepoOptionsBuilder)
        ensures
            r@ == (RepoOptions { private: Some(private), ..old(self)@ }),
            *final(self) == *final(r),
    {
        self.opts.private = Some(private);
        self
    }

    pub fn has_issues(&mut self, has_issues: bool) -> (r: &mut RepoOptionsBuilder)
        ensures
            r@ == (RepoOptions { has_issues: Some(has_issues), ..old(self)@ }),
            *final(self) == *final(r),
    {
        self.opts.has_issues = Some(has_issues);
        self
    }

    pub fn has_wiki(&mut self, has_wiki: bool) -> (r: &mut RepoOptionsBuilder)
        ensures
            r@ == (RepoOptions { has_wiki: Some(has_wiki), ..old(self)@ }),
            *final(self) == *final(r),
    {
        self.opts.has_wiki = Some(has_wiki);
        self
    }

    pub fn has_downloads(&mut self, has_downloads: bool) -> (r: &mut RepoOptionsBuilder)
        ensures
            r@ == (RepoOptions { has_downloads: Some(has_downloads), ..old(self)@ }),
            *final(self) == *final(r),
    {
        self.opts.has_downloads = Some(has_downloads);
        self
    }

    pub fn team_id(&mut self, team_id: i32) -> (r: &mut RepoOptionsBuilder)
        ensures
            r@ == (RepoOptions { team_id: Some(team_id), ..old(self)@ }),
            *final(self) == *final(r),
    {
        self.opts.team_id = Some(team_id);
        self
    }

    pub fn auto_init(&mut self, auto_init: bool) -> (r: &mut RepoOptionsBuilder)
        ensures
            r@ == (RepoOptions { auto_init: Some(auto_init), ..old(self)@ }),
            *final(self) == *final(r),
    {
        self.opts.auto_init = Some(auto_init);
        self
    }

    pub fn gitignore_template(&mut self, gitignore_template: String) -> (r: &mut RepoOptionsBuilder)
        ensures
            r@ == (RepoOptions { gitignore_template: Some(gitignore_template), ..old(self)@ }),
            *final(self) == *final(r),
    {
        self.opts.gitignore_template = Some(gitignore_template);
        self
    }

    pub fn license_template(&mut self, license_template: String) -> (r: &mut RepoOptionsBuilder)
        ensures
            r@ == (RepoOptions { license_template: Some(license_template), ..old(self)@ }),
            *final(self) == *final(r),
    {
        self.opts.license_template = Some(license_template);
        self
    }

    /// The settings collected so far, sharing nothing with the builder.
    pub fn build(&self) -> (r: RepoOptions)
        ensures
            r == self@,
    {
        RepoOptions::new(
            self.opts.name.clone(),
            copy_text(&self.opts.description),
            copy_text(&self.opts.homepage),
            self.opts.private,
            self.opts.has_issues,
            self.opts.has_wiki,
            self.opts.has_downloads,
            self.opts.team_id,
            self.opts.auto_init,
            copy_text(&self.opts.gitignore_template),
            copy_text(&self.opts.license_template),
        )
    }
}

} // verus!
