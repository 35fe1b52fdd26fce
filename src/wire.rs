//! The closed sets of values that the repository endpoints accept, each
//! mapped to the one token that stands for it in a query string.
use vstd::prelude::*;

verus! {

/// Repository visibilities.
#[derive(Clone, Copy, Debug, PartialEq, Eq, Structural)]
pub enum Visibility {
    All,
    Public,
    Private,
}

impl Visibility {
    pub open spec fn token(self) -> Seq<char> {
        match self {
            Visibility::All => "all"@,
            Visibility::Public => "public"@,
            Visibility::Private => "private"@,
        }
    }

    pub fn as_str(&self) -> (r: &'static str)
        ensures
            r@ == self.token(),
    {
        match self {
            Visibility::All => "all",
            Visibility::Public => "public",
            Visibility::Private => "private",
        }
    }
}

/// Two distinct visibilities never share a token.
pub proof fn lemma_visibility_token_injective(a: Visibility, b: Visibility)
    requires
        a != b,
    ensures
        a.token() != b.token(),
{
    reveal_strlit("all");
    reveal_strlit("public");
    reveal_strlit("private");
    lemma_tokens_differ(a.token(), b.token());
}

/// Tokens that differ in length or in their first character are different.
proof fn lemma_tokens_differ(x: Seq<char>, y: Seq<char>)
    requires
        x.len() != y.len() || (x.len() > 0 && y.len() > 0 && x[0] != y[0]),
    ensures
        x != y,
{
}

/// Sorting fields for repository listings.
#[derive(Clone, Copy, Debug, PartialEq, Eq, Structural)]
pub enum Sort {
    Created,
    Updated,
    Pushed,
    FullName,
}

impl Sort {
    pub open spec fn token(self) -> Seq<char> {
        match self {
            Sort::Created => "created"@,
            Sort::Updated => "updated"@,
            Sort::Pushed => "pushed"@,
            Sort::FullName => "full_name"@,
        }
    }

    pub fn as_str(&self) -> (r: &'static str)
        ensures
            r@ == self.token(),
    {
        match self {
            Sort::Created => "created",
            Sort::Updated => "updated",
            Sort::Pushed => "pushed",
            Sort::FullName => "full_name",
        }
    }
}

/// Two distinct values of `Sort` never share a token.
pub proof fn lemma_sort_token_injective(a: Sort, b: Sort)
    requires
        a != b,
    ensures
        a.token() != b.token(),
{
    reveal_strlit("created");
    reveal_strlit("updated");
    reveal_strlit("pushed");
    reveal_strlit("full_name");
    lemma_tokens_differ(a.token(), b.token());
}

/// Ways in which a user can be affiliated with a repository.
#[derive(Clone, Copy, Debug, PartialEq, Eq, Structural)]
pub enum Affiliation {
    Owner,
    Collaborator,
    OrganizationMember,
}

impl Affiliation {
    pub open spec fn token(self) -> Seq<char> {
        match self {
            Affiliation::Owner => "owner"@,
            Affiliation::Collaborator => "collaborator"@,
            Affiliation::OrganizationMember => "organization_member"@,
        }
    }

    pub fn as_str(&self) -> (r: &'static str)
        ensures
            r@ == self.token(),
    {
        match self {
            Affiliation::Owner => "owner",
            Affiliation::Collaborator => "collaborator",
            Affiliation::OrganizationMember => "organization_member",
        }
    }
}

/// Two distinct values of `Affiliation` never share a token.
pub proof fn lemma_affiliation_token_injective(a: Affiliation, b: Affiliation)
    requires
        a != b,
    ensures
        a.token() != b.token(),
{
    reveal_strlit("owner");
    reveal_strlit("collaborator");
    reveal_strlit("organization_member");
    lemma_tokens_differ(a.token(), b.token());
}

/// Kinds of repositories of a user.
#[derive(Clone, Copy, Debug, PartialEq, Eq, Structural)]
pub enum Type {
    All,
    Owner,
    Public,
    Private,
    Member,
}

impl Type {
    pub open spec fn token(self) -> Seq<char> {
        match self {
            Type::All => "all"@,
            Type::Owner => "owner"@,
            Type::Public => "public"@,
            Type::Private => "private"@,
            Type::Member => "member"@,
        }
    }

    pub fn as_str(&self) -> (r: &'static str)
        ensures
            r@ == self.token(),
    {
        match self {
            Type::All => "all",
            Type::Owner => "owner",
            Type::Public => "public",
            Type::Private => "private",
            Type::Member => "member",
        }
    }
}

/// Two distinct values of `Type` never share a token.
pub proof fn lemma_type_token_injective(a: Type, b: Type)
    requires
        a != b,
    ensures
        a.token() != b.token(),
{
    reveal_strlit("all");
    reveal_strlit("owner");
    reveal_strlit("public");
    reveal_strlit("private");
    reveal_strlit("member");
    assert(a.token().len() != b.token().len() || a.token()[0] != b.token()[0]) by {
        assert("public"@[0] != "member"@[0]);
    }
    lemma_tokens_differ(a.token(), b.token());
}

/// Kinds of repositories of an organization.
#[derive(Clone, Copy, Debug, PartialEq, Eq, Structural)]
pub enum OrgRepoType {
    All,
    Public,
    Private,
    Forks,
    Sources,
    Member,
}

impl OrgRepoType {
    pub open spec fn token(self) -> Seq<char> {
        match self {
            OrgRepoType::All => "all"@,
            OrgRepoType::Public => "public"@,
            OrgRepoType::Private => "private"@,
            OrgRepoType::Forks => "forks"@,
            OrgRepoType::Sources => "sources"@,
            OrgRepoType::Member => "member"@,
        }
    }

    pub fn as_str(&self) -> (r: &'static str)
        ensures
            r@ == self.token(),
    {
        match self {
            OrgRepoType::All => "all",
            OrgRepoType::Public => "public",
            OrgRepoType::Private => "private",
            OrgRepoType::Forks => "forks",
            OrgRepoType::Sources => "sources",
            OrgRepoType::Member => "member",
        }
    }
}

/// Two distinct values of `OrgRepoType` never share a token.
pub proof fn lemma_org_repo_type_token_injective(a: OrgRepoType, b: OrgRepoType)
    requires
        a != b,
    ensures
        a.token() != b.token(),
{
    reveal_strlit("all");
    reveal_strlit("public");
    reveal_strlit("private");
    reveal_strlit("forks");
    reveal_strlit("sources");
    reveal_strlit("member");
    lemma_tokens_differ(a.token(), b.token());
}

/// Directions in which a listing can be sorted.
#[derive(Clone, Copy, Debug, PartialEq, Eq, Structural)]
pub enum SortDirection {
    Asc,
    Desc,
}

impl SortDirection {
    pub open spec fn token(self) -> Seq<char> {
        match self {
            SortDirection::Asc => "asc"@,
            SortDirection::Desc => "desc"@,
        }
    }

    pub fn as_str(&self) -> (r: &'static str)
        ensures
            r@ == self.token(),
    {
        match self {
            SortDirection::Asc => "asc",
            SortDirection::Desc => "desc",
        }
    }
}

/// Two distinct values of `SortDirection` never share a token.
pub proof fn lemma_sort_direction_token_injective(a: SortDirection, b: SortDirection)
    requires
        a != b,
    ensures
        a.token() != b.token(),
{
    reveal_strlit("asc");
    reveal_strlit("desc");
    lemma_tokens_differ(a.token(), b.token());
}

/// The query parameters that the listing options can set.
#[derive(Clone, Copy, Debug, PartialEq, Eq, Structural)]
pub enum Param {
    Visibility,
    Affiliation,
    Type,
    Sort,
    Direction,
}

impl Param {
    pub open spec fn token(self) -> Seq<char> {
        match self {
            Param::Visibility => "visibility"@,
            Param::Affiliation => "affiliation"@,
            Param::Type => "type"@,
            Param::Sort => "sort"@,
            Param::Direction => "direction"@,
        }
    }

    pub fn as_str(&self) -> (r: &'static str)
        ensures
            r@ == self.token(),
    {
        match self {
            Param::Visibility => "visibility",
            Param::Affiliation => "affiliation",
            Param::Type => "type",
            Param::Sort => "sort",
            Param::Direction => "direction",
        }
    }
}

/// Two distinct values of `Param` never share a token.
pub proof fn lemma_param_token_injective(a: Param, b: Param)
    requires
        a != b,
    ensures
        a.token() != b.token(),
{
    reveal_strlit("visibility");
    reveal_strlit("affiliation");
    reveal_strlit("type");
    reveal_strlit("sort");
    reveal_strlit("direction");
    lemma_tokens_differ(a.token(), b.token());
}

} // verus!

verus! {

/// The tokens of a list of affiliations, joined by commas in the order given.
pub open spec fn comma_joined(s: Seq<Affiliation>) -> Seq<char>
    decreases s.len(),
{
    if s.len() == 0 {
        Seq::empty()
    } else if s.len() == 1 {
        s[0].token()
    } else {
        comma_joined(s.drop_last()) + ","@ + s.last().token()
    }
}

/// The tokens of `affiliations` joined by commas, in the order given.
pub fn join_affiliations(affiliations: &Vec<Affiliation>) -> (r: String)
    ensures
        r@ == comma_joined(affiliations@),
{
    let mut r = String::new();
    let mut i: usize = 0;
    while i < affiliations.len()
        invariant
            0 <= i <= affiliations.len(),
            r@ == comma_joined(affiliations@.take(i as int)),
        decreases affiliations.len() - i,
    {
        if i > 0 {
            r.append(",");
        }
        r.append(affiliations[i].as_str());
        proof {
            assert(affiliations@.take(i + 1).drop_last() =~= affiliations@.take(i as int));
            if i == 0 {
                assert(r@ =~= comma_joined(affiliations@.take(1)));
            }
        }
        i = i + 1;
    }
    proof {
        assert(affiliations@.take(i as int) =~= affiliations@);
    }
    r
}

} // verus!
