use std::collections::BTreeSet;

use repo_options::accessors::{
    languages_path, OrganizationRepositories, Repositories, Repository, UserRepositories,
};
use repo_options::list_options::{
    OrganizationRepoListOptions, OrganizationRepoListOptionsBuilder, RepoListOptions,
    RepoListOptionsBuilder, UserRepoListOptions, UserRepoListOptionsBuilder,
};
use repo_options::repo_options::{RepoOptions, RepoOptionsBuilder};
use repo_options::wire::{
    join_affiliations, Affiliation, OrgRepoType, Param, Sort, SortDirection, Type, Visibility,
};

fn decoded(query: &str) -> BTreeSet<(String, String)> {
    url::form_urlencoded::parse(query.as_bytes()).into_owned().collect()
}

fn pairs(items: &[(&str, &str)]) -> BTreeSet<(String, String)> {
    items.iter().map(|(k, v)| (k.to_string(), v.to_string())).collect()
}

#[test]
fn empty_options_serialize_to_none() {
    assert_eq!(RepoListOptions::builder().build().serialize(), None);
    assert_eq!(UserRepoListOptions::builder().build().serialize(), None);
    assert_eq!(OrganizationRepoListOptions::builder().build().serialize(), None);
}

#[test]
fn serialized_pairs_decode_to_what_was_set() {
    let mut b = RepoListOptionsBuilder::new();
    b.visibility(Visibility::All)
        .affiliation(vec![Affiliation::OrganizationMember])
        .repo_type(Sort::Pushed)
        .sort(Sort::FullName)
        .asc();
    let query = b.build().serialize().unwrap();
    assert_eq!(
        decoded(&query),
        pairs(&[
            ("visibility", "all"),
            ("affiliation", "organization_member"),
            ("type", "pushed"),
            ("sort", "full_name"),
            ("direction", "asc"),
        ])
    );
}

#[test]
fn user_options_decode_to_what_was_set() {
    let mut b = UserRepoListOptionsBuilder::new();
    b.repo_type(Type::Member).sort(Type::Owner).desc();
    let query = b.build().serialize().unwrap();
    assert_eq!(
        decoded(&query),
        pairs(&[("type", "member"), ("sort", "owner"), ("direction", "desc")])
    );
}

#[test]
fn organization_options_decode_to_what_was_set() {
    let mut b = OrganizationRepoListOptionsBuilder::new();
    b.repo_type(OrgRepoType::Sources);
    assert_eq!(b.build().serialize(), Some("type=sources".to_string()));
}

#[test]
fn enum_tokens_are_distinct() {
    assert_eq!(Visibility::Public.as_str(), "public");
    assert_eq!(Visibility::Private.as_str(), "private");
    assert_eq!(Visibility::All.as_str(), "all");
    let sorts: BTreeSet<&str> = [Sort::Created, Sort::Updated, Sort::Pushed, Sort::FullName]
        .iter()
        .map(|s| s.as_str())
        .collect();
    assert_eq!(sorts.len(), 4);
    let affs: BTreeSet<&str> =
        [Affiliation::Owner, Affiliation::Collaborator, Affiliation::OrganizationMember]
            .iter()
            .map(|a| a.as_str())
            .collect();
    assert_eq!(affs.len(), 3);
    let types: BTreeSet<&str> =
        [Type::All, Type::Owner, Type::Public, Type::Private, Type::Member]
            .iter()
            .map(|t| t.as_str())
            .collect();
    assert_eq!(types.len(), 5);
    let org_types: BTreeSet<&str> = [
        OrgRepoType::All,
        OrgRepoType::Public,
        OrgRepoType::Private,
        OrgRepoType::Forks,
        OrgRepoType::Sources,
        OrgRepoType::Member,
    ]
    .iter()
    .map(|t| t.as_str())
    .collect();
    assert_eq!(org_types.len(), 6);
    assert_eq!(SortDirection::Asc.as_str(), "asc");
    assert_eq!(SortDirection::Desc.as_str(), "desc");
    assert_eq!(Sort::FullName.as_str(), "full_name");
    assert_eq!(Affiliation::OrganizationMember.as_str(), "organization_member");
    assert_eq!(Param::Type.as_str(), "type");
}

#[test]
fn affiliation_list_keeps_its_order() {
    let mut b = RepoListOptionsBuilder::new();
    b.affiliation(vec![Affiliation::Owner, Affiliation::Collaborator]);
    let query = b.build().serialize().unwrap();
    assert_eq!(query, "affiliation=owner%2Ccollaborator");
    assert_eq!(decoded(&query), pairs(&[("affiliation", "owner,collaborator")]));

    let mut reversed = RepoListOptionsBuilder::new();
    reversed.affiliation(vec![Affiliation::Collaborator, Affiliation::Owner]);
    let query = reversed.build().serialize().unwrap();
    assert_eq!(decoded(&query), pairs(&[("affiliation", "collaborator,owner")]));
}

#[test]
fn joined_affiliations() {
    assert_eq!(join_affiliations(&vec![]), "");
    assert_eq!(join_affiliations(&vec![Affiliation::Owner]), "owner");
    assert_eq!(
        join_affiliations(&vec![Affiliation::Owner, Affiliation::Owner, Affiliation::Collaborator]),
        "owner,owner,collaborator"
    );
}

#[test]
fn second_setting_replaces_the_first() {
    let mut b = RepoListOptionsBuilder::new();
    b.visibility(Visibility::Public).sort(Sort::Created);
    b.visibility(Visibility::Private);
    let query = b.build().serialize().unwrap();
    assert_eq!(query, "visibility=private&sort=created");
    assert_eq!(decoded(&query), pairs(&[("visibility", "private"), ("sort", "created")]));
}

#[test]
fn build_is_a_snapshot() {
    let mut b = UserRepoListOptionsBuilder::new();
    b.sort(Type::All);
    let first = b.build();
    let before = first.serialize();
    b.sort(Type::Public).asc();
    assert_eq!(first.serialize(), before);
    assert_eq!(before, Some("sort=all".to_string()));
    assert_eq!(b.build().serialize(), Some("sort=public&direction=asc".to_string()));
}

#[test]
fn private_descending_scenario() {
    let mut b = RepoListOptionsBuilder::new();
    b.visibility(Visibility::Private).direction(SortDirection::Desc);
    let query = b.build().serialize().unwrap();
    assert_eq!(decoded(&query), pairs(&[("visibility", "private"), ("direction", "desc")]));
}

#[test]
fn listing_uris() {
    let empty = RepoListOptions::builder().build();
    assert_eq!(Repositories::new().list_uri(&empty), "/user/repos");
    assert_eq!(Repositories::new().path("/x"), "/user/repos/x");

    let mut b = RepoListOptionsBuilder::new();
    b.desc();
    assert_eq!(Repositories::new().list_uri(&b.build()), "/user/repos?direction=desc");

    let mut u = UserRepoListOptionsBuilder::new();
    u.repo_type(Type::Owner);
    let users = UserRepositories::new("octocat");
    assert_eq!(users.path(""), "/users/octocat/repos");
    assert_eq!(users.list_uri(&u.build()), "/users/octocat/repos?type=owner");
    assert_eq!(users.list_uri(&UserRepoListOptions::builder().build()), "/users/octocat/repos");

    let orgs = OrganizationRepositories::new("rust-lang");
    assert_eq!(orgs.path(""), "/orgs/rust-lang/repos");
    let mut o = OrganizationRepoListOptionsBuilder::new();
    o.repo_type(OrgRepoType::Forks);
    assert_eq!(orgs.list_uri(&o.build()), "/orgs/rust-lang/repos?type=forks");

    let _ = Repository::new("octocat", "hello-world");
}

#[test]
fn languages_path_of_a_record_url() {
    assert_eq!(
        languages_path("https://api.github.com/repos/octocat/hello-world/languages"),
        Some("/repos/octocat/hello-world/languages".to_string())
    );
    assert_eq!(languages_path("not a url"), None);
}

#[test]
fn repo_options_builder_collects_settings() {
    let mut b = RepoOptions::builder("hello".to_string());
    b.description("a test".to_string()).private(true).team_id(7).auto_init(false);
    b.homepage("https://example.com".to_string())
        .has_issues(true)
        .has_wiki(false)
        .has_downloads(true)
        .gitignore_template("Rust".to_string())
        .license_template("mit".to_string());
    let o = b.build();
    assert_eq!(o.name, "hello");
    assert_eq!(o.description.as_deref(), Some("a test"));
    assert_eq!(o.homepage.as_deref(), Some("https://example.com"));
    assert_eq!(o.private, Some(true));
    assert_eq!(o.has_issues, Some(true));
    assert_eq!(o.has_wiki, Some(false));
    assert_eq!(o.has_downloads, Some(true));
    assert_eq!(o.team_id, Some(7));
    assert_eq!(o.auto_init, Some(false));
    assert_eq!(o.gitignore_template.as_deref(), Some("Rust"));
    assert_eq!(o.license_template.as_deref(), Some("mit"));

    b.description("changed".to_string());
    assert_eq!(o.description.as_deref(), Some("a test"));

    let bare = RepoOptionsBuilder::new("bare".to_string()).build();
    assert_eq!(bare.name, "bare");
    assert!(bare.description.is_none() && bare.private.is_none() && bare.team_id.is_none());

    let direct = RepoOptions::new(
        "n".to_string(),
        None,
        Some("h".to_string()),
        Some(false),
        None,
        None,
        None,
        Some(-1),
        None,
        None,
        None,
    );
    assert_eq!(direct.homepage.as_deref(), Some("h"));
    assert_eq!(direct.team_id, Some(-1));
}
