//! Listing options: builders that collect query parameters, the options
//! values they build, and the query strings those values serialize to.
use vstd::prelude::*;
use crate::encoding::{encode_pairs, form_urlencoded_of};
use crate::params::{lemma_pairs_are_the_map, pair_of, QueryParams};
use crate::wire::{
    comma_joined, join_affiliations, Affiliation, OrgRepoType, Param, Sort, SortDirection, Type,
    Visibility,
};

verus! {

/// Options for listing the repositories of the authenticated user.
#[derive(Debug)]
pub struct RepoListOptions {
    params: QueryParams,
}

impl View for RepoListOptions {
    type V = Map<Param, Seq<char>>;

    closed spec fn view(&self) -> Map<Param, Seq<char>> {
        self.params@
    }
}

impl RepoListOptions {
    pub closed spec fn wf(&self) -> bool {
        self.params.wf()
    }

    /// The name/value pairs of the query string, in the order in which the
    /// parameters were first set.
    pub closed spec fn pairs(&self) -> Seq<(Seq<char>, Seq<char>)> {
        self.params.pairs()
    }

    /// The query string: none where no parameter is set.
    pub open spec fn query(&self) -> Option<Seq<char>> {
        if self@ == Map::<Param, Seq<char>>::empty() {
            None
        } else {
            Some(form_urlencoded_of(self.pairs()))
        }
    }

    pub fn builder() -> (r: RepoListOptionsBuilder)
        ensures
            r.wf(),
            r@ == Map::<Param, Seq<char>>::empty(),
    {
        RepoListOptionsBuilder::new()
    }

    /// The parameters as a form-encoded query string, or `None` where no
    /// parameter is set.
    pub fn serialize(&self) -> (r: Option<String>)
        requires
            self.wf(),
        ensures
            r.is_none() == (self@ == Map::<Param, Seq<char>>::empty()),
            r.is_some() ==> r.unwrap()@ == form_urlencoded_of(self.pairs()),
            r.is_some() ==> r.unwrap()@.len() > 0,
            r.is_some() ==> self.query() == Some(r.unwrap()@),
            r.is_none() ==> self.query().is_none(),
    {
        if self.params.is_empty() {
            None
        } else {
            let pairs = self.params.to_pairs();
            Some(encode_pairs(&pairs))
        }
    }
}

/// Collects the parameters of a `RepoListOptions`.
#[derive(Debug)]
pub struct RepoListOptionsBuilder {
    params: QueryParams,
}

impl View for RepoListOptionsBuilder {
    type V = Map<Param, Seq<char>>;

    closed spec fn view(&self) -> Map<Param, Seq<char>> {
        self.params@
    }
}

impl RepoListOptionsBuilder {
    pub closed spec fn wf(&self) -> bool {
        self.params.wf()
    }

    /// The parameters in the order in which they were first set.
    pub closed spec fn pairs(&self) -> Seq<(Seq<char>, Seq<char>)> {
        self.params.pairs()
    }

    pub fn new() -> (r: RepoListOptionsBuilder)
        ensures
            r.wf(),
            r@ == Map::<Param, Seq<char>>::empty(),
    {
        RepoListOptionsBuilder { params: QueryParams::new() }
    }

    /// Sets `key` to `value`, where it stands if it was set before, else last.
    fn set(&mut self, key: Param, value: String)
        requires
            old(self).wf(),
        ensures
            final(self).wf(),
            final(self)@ == old(self)@.insert(key, value@),
            old(self)@.contains_key(key) ==> exists|i: int|
                0 <= i < old(self).pairs().len() && final(self).pairs() == old(
                    self,
                ).pairs().update(i, (key.token(), value@)),
            !old(self)@.contains_key(key) ==> final(self).pairs() == old(self).pairs().push(
                (key.token(), value@),
            ),
    {
        let ghost before = self.params.entries();
        self.params.insert(key, value);
        proof {
            if old(self)@.contains_key(key) {
                let i = choose|i: int|
                    0 <= i < before.len() && self.params.entries() == before.update(
                        i,
                        (key, value@),
                    );
                assert(self.pairs() =~= old(self).pairs().update(i, (key.token(), value@)));
            } else {
                assert(self.pairs() =~= old(self).pairs().push((key.token(), value@)));
            }
        }
    }

    pub fn visibility(&mut self, vis: Visibility) -> (r: &mut RepoListOptionsBuilder)
        requires
            old(self).wf(),
        ensures
            r.wf(),
            r@ == old(self)@.insert(Param::Visibility, vis.token()),
            *final(self) == *final(r),
    {
        self.set(Param::Visibility, String::from_str(vis.as_str()));
        self
    }

    /// Sets the affiliations, joined by commas in the order given.
    pub fn affiliation(&mut self, affiliations: Vec<Affiliation>) -> (r: &mut RepoListOptionsBuilder)
        requires
            old(self).wf(),
        ensures
            r.wf(),
            r@ == old(self)@.insert(Param::Affiliation, comma_joined(affiliations@)),
            *final(self) == *final(r),
    {
        let value = join_affiliations(&affiliations);
        self.set(Param::Affiliation, value);
        self
    }

    pub fn repo_type(&mut self, tpe: Sort) -> (r: &mut RepoListOptionsBuilder)
        requires
            old(self).wf(),
        ensures
            r.wf(),
            r@ == old(self)@.insert(Param::Type, tpe.token()),
            *final(self) == *final(r),
    {
        self.set(Param::Type, String::from_str(tpe.as_str()));
        self
    }

    pub fn sort(&mut self, sort: Sort) -> (r: &mut RepoListOptionsBuilder)
        requires
            old(self).wf(),
        ensures
            r.wf(),
            r@ == old(self)@.insert(Param::Sort, sort.token()),
            *final(self) == *final(r),
    {
        self.set(Param::Sort, String::from_str(sort.as_str()));
        self
    }

    pub fn asc(&mut self) -> (r: &mut RepoListOptionsBuilder)
        requires
            old(self).wf(),
        ensures
            r.wf(),
            r@ == old(self)@.insert(Param::Direction, SortDirection::Asc.token()),
            *final(self) == *final(r),
    {
        self.direction(SortDirection::Asc)
    }

    pub fn desc(&mut self) -> (r: &mut RepoListOptionsBuilder)
        requires
            old(self).wf(),
        ensures
            r.wf(),
            r@ == old(self)@.insert(Param::Direction, SortDirection::Desc.token()),
            *final(self) == *final(r),
    {
        self.direction(SortDirection::Desc)
    }

    pub fn direction(&mut self, direction: SortDirection) -> (r: &mut RepoListOptionsBuilder)
        requires
            old(self).wf(),
        ensures
            r.wf(),
            r@ == old(self)@.insert(Param::Direction, direction.token()),
            *final(self) == *final(r),
    {
        self.set(Param::Direction, String::from_str(direction.as_str()));
        self
    }

    /// Options that hold the parameters set so far, sharing nothing with
    /// the builder.
    pub fn build(&self) -> (r: RepoListOptions)
        requires
            self.wf(),
        ensures
            r.wf(),
            r@ == self@,
            r.pairs() == self.pairs(),
    {
        RepoListOptions { params: self.params.snapshot() }
    }
}

/// Options for listing the repositories of a user.
#[derive(Debug)]
pub struct UserRepoListOptions {
    params: QueryParams,
}

impl View for UserRepoListOptions {
    type V = Map<Param, Seq<char>>;

    closed spec fn view(&self) -> Map<Param, Seq<char>> {
        self.params@
    }
}

impl UserRepoListOptions {
    pub closed spec fn wf(&self) -> bool {
        self.params.wf()
    }

    /// The name/value pairs of the query string, in the order in which the
    /// parameters were first set.
    pub closed spec fn pairs(&self) -> Seq<(Seq<char>, Seq<char>)> {
        self.params.pairs()
    }

    /// The query string: none where no parameter is set.
    pub open spec fn query(&self) -> Option<Seq<char>> {
        if self@ == Map::<Param, Seq<char>>::empty() {
            None
        } else {
            Some(form_urlencoded_of(self.pairs()))
        }
    }

    pub fn builder() -> (r: UserRepoListOptionsBuilder)
        ensures
            r.wf(),
            r@ == Map::<Param, Seq<char>>::empty(),
    {
        UserRepoListOptionsBuilder::new()
    }

    /// The parameters as a form-encoded query string, or `None` where no
    /// parameter is set.
    pub fn serialize(&self) -> (r: Option<String>)
        requires
            self.wf(),
        ensures
            r.is_none() == (self@ == Map::<Param, Seq<char>>::empty()),
            r.is_some() ==> r.unwrap()@ == form_urlencoded_of(self.pairs()),
            r.is_some() ==> r.unwrap()@.len() > 0,
            r.is_some() ==> self.query() == Some(r.unwrap()@),
            r.is_none() ==> self.query().is_none(),
    {
        if self.params.is_empty() {
            None
        } else {
            let pairs = self.params.to_pairs();
            Some(encode_pairs(&pairs))
        }
    }
}

/// Collects the parameters of an `UserRepoListOptions`.
#[derive(Debug)]
pub struct UserRepoListOptionsBuilder {
    params: QueryParams,
}

impl View for UserRepoListOptionsBuilder {
    type V = Map<Param, Seq<char>>;

    closed spec fn view(&self) -> Map<Param, Seq<char>> {
        self.params@
    }
}

impl UserRepoListOptionsBuilder {
    pub closed spec fn wf(&self) -> bool {
        self.params.wf()
    }

    /// The parameters in the order in which they were first set.
    pub closed spec fn pairs(&self) -> Seq<(Seq<char>, Seq<char>)> {
        self.params.pairs()
    }

    pub fn new() -> (r: UserRepoListOptionsBuilder)
        ensures
            r.wf(),
            r@ == Map::<Param, Seq<char>>::empty(),
    {
        UserRepoListOptionsBuilder { params: QueryParams::new() }
    }

    /// Sets `key` to `value`, where it stands if it was set before, else last.
    fn set(&mut self, key: Param, value: String)
        requires
            old(self).wf(),
        ensures
            final(self).wf(),
            final(self)@ == old(self)@.insert(key, value@),
            old(self)@.contains_key(key) ==> exists|i: int|
                0 <= i < old(self).pairs().len() && final(self).pairs() == old(
                    self,
                ).pairs().update(i, (key.token(), value@)),
            !old(self)@.contains_key(key) ==> final(self).pairs() == old(self).pairs().push(
                (key.token(), value@),
            ),
    {
        let ghost before = self.params.entries();
        self.params.insert(key, value);
        proof {
            if old(self)@.contains_key(key) {
                let i = choose|i: int|
                    0 <= i < before.len() && self.params.entries() == before.update(
                        i,
                        (key, value@),
                    );
                assert(self.pairs() =~= old(self).pairs().update(i, (key.token(), value@)));
            } else {
                assert(self.pairs() =~= old(self).pairs().push((key.token(), value@)));
            }
        }
    }

    pub fn repo_type(&mut self, tpe: Type) -> (r: &mut UserRepoListOptionsBuilder)
        requires
            old(self).wf(),
        ensures
            r.wf(),
            r@ == old(self)@.insert(Param::Type, tpe.token()),
            *final(self) == *final(r),
    {
        self.set(Param::Type, String::from_str(tpe.as_str()));
        self
    }

    pub fn sort(&mut self, sort: Type) -> (r: &mut UserRepoListOptionsBuilder)
        requires
            old(self).wf(),
        ensures
            r.wf(),
            r@ == old(self)@.insert(Param::Sort, sort.token()),
            *final(self) == *final(r),
    {
        self.set(Param::Sort, String::from_str(sort.as_str()));
        self
    }

    pub fn asc(&mut self) -> (r: &mut UserRepoListOptionsBuilder)
        requires
            old(self).wf(),
        ensures
            r.wf(),
            r@ == old(self)@.insert(Param::Direction, SortDirection::Asc.token()),
            *final(self) == *final(r),
    {
        self.direction(SortDirection::Asc)
    }

    pub fn desc(&mut self) -> (r: &mut UserRepoListOptionsBuilder)
        requires
            old(self).wf(),
        ensures
            r.wf(),
            r@ == old(self)@.insert(Param::Direction, SortDirection::Desc.token()),
            *final(self) == *final(r),
    {
        self.direction(SortDirection::Desc)
    }

    pub fn direction(&mut self, direction: SortDirection) -> (r: &mut UserRepoListOptionsBuilder)
        requires
            old(self).wf(),
        ensures
            r.wf(),
            r@ == old(self)@.insert(Param::Direction, direction.token()),
            *final(self) == *final(r),
    {
        self.set(Param::Direction, String::from_str(direction.as_str()));
        self
    }

    /// Options that hold the parameters set so far, sharing nothing with
    /// the builder.
    pub fn build(&self) -> (r: UserRepoListOptions)
        requires
            self.wf(),
        ensures
            r.wf(),
            r@ == self@,
            r.pairs() == self.pairs(),
    {
        UserRepoListOptions { params: self.params.snapshot() }
    }
}

/// Options for listing the repositories of an organization.
#[derive(Debug)]
pub struct OrganizationRepoListOptions {
    params: QueryParams,
}

impl View for OrganizationRepoListOptions {
    type V = Map<Param, Seq<char>>;

    closed spec fn view(&self) -> Map<Param, Seq<char>> {
        self.params@
    }
}

impl OrganizationRepoListOptions {
    pub closed spec fn wf(&self) -> bool {
        self.params.wf()
    }

    /// The name/value pairs of the query string, in the order in which the
    /// parameters were first set.
    pub closed spec fn pairs(&self) -> Seq<(Seq<char>, Seq<char>)> {
        self.params.pairs()
    }

    /// The query string: none where no parameter is set.
    pub open spec fn query(&self) -> Option<Seq<char>> {
        if self@ == Map::<Param, Seq<char>>::empty() {
            None
        } else {
            Some(form_urlencoded_of(self.pairs()))
        }
    }

    pub fn builder() -> (r: OrganizationRepoListOptionsBuilder)
        ensures
            r.wf(),
            r@ == Map::<Param, Seq<char>>::empty(),
    {
        OrganizationRepoListOptionsBuilder::new()
    }

    /// The parameters as a form-encoded query string, or `None` where no
    /// parameter is set.
    pub fn serialize(&self) -> (r: Option<String>)
        requires
            self.wf(),
        ensures
            r.is_none() == (self@ == Map::<Param, Seq<char>>::empty()),
            r.is_some() ==> r.unwrap()@ == form_urlencoded_of(self.pairs()),
            r.is_some() ==> r.unwrap()@.len() > 0,
            r.is_some() ==> self.query() == Some(r.unwrap()@),
            r.is_none() ==> self.query().is_none(),
    {
        if self.params.is_empty() {
            None
        } else {
            let pairs = self.params.to_pairs();
            Some(encode_pairs(&pairs))
        }
    }
}

/// Collects the parameters of an `OrganizationRepoListOptions`.
#[derive(Debug)]
pub struct OrganizationRepoListOptionsBuilder {
    params: QueryParams,
}

impl View for OrganizationRepoListOptionsBuilder {
    type V = Map<Param, Seq<char>>;

    closed spec fn view(&self) -> Map<Param, Seq<char>> {
        self.params@
    }
}

impl OrganizationRepoListOptionsBuilder {
    pub closed spec fn wf(&self) -> bool {
        self.params.wf()
    }

    /// The parameters in the order in which they were first set.
    pub closed spec fn pairs(&self) -> Seq<(Seq<char>, Seq<char>)> {
        self.params.pairs()
    }

    pub fn new() -> (r: OrganizationRepoListOptionsBuilder)
        ensures
            r.wf(),
            r@ == Map::<Param, Seq<char>>::empty(),
    {
        OrganizationRepoListOptionsBuilder { params: QueryParams::new() }
    }

    /// Sets `key` to `value`, where it stands if it was set before, else last.
    fn set(&mut self, key: Param, value: String)
        requires
            old(self).wf(),
        ensures
            final(self).wf(),
            final(self)@ == old(self)@.insert(key, value@),
            old(self)@.contains_key(key) ==> exists|i: int|
                0 <= i < old(self).pairs().len() && final(self).pairs() == old(
                    self,
                ).pairs().update(i, (key.token(), value@)),
            !old(self)@.contains_key(key) ==> final(self).pairs() == old(self).pairs().push(
                (key.token(), value@),
            ),
    {
        let ghost before = self.params.entries();
        self.params.insert(key, value);
        proof {
            if old(self)@.contains_key(key) {
                let i = choose|i: int|
                    0 <= i < before.len() && self.params.entries() == before.update(
                        i,
                        (key, value@),
                    );
                assert(self.pairs() =~= old(self).pairs().update(i, (key.token(), value@)));
            } else {
                assert(self.pairs() =~= old(self).pairs().push((key.token(), value@)));
            }
        }
    }

    pub fn repo_type(&mut self, tpe: OrgRepoType) -> (r: &mut OrganizationRepoListOptionsBuilder)
        requires
            old(self).wf(),
        ensures
            r.wf(),
            r@ == old(self)@.insert(Param::Type, tpe.token()),
            *final(self) == *final(r),
    {
        self.set(Param::Type, String::from_str(tpe.as_str()));
        self
    }

    /// Options that hold the parameters set so far, sharing nothing with
    /// the builder.
    pub fn build(&self) -> (r: OrganizationRepoListOptions)
        requires
            self.wf(),
        ensures
            r.wf(),
            r@ == self@,
            r.pairs() == self.pairs(),
    {
        OrganizationRepoListOptions { params: self.params.snapshot() }
    }
}

/// The query string of `RepoListOptions` with parameters set is the form encoding
/// of exactly the parameters set: each once, under its name and with its
/// value.
pub proof fn lemma_repo_list_query_pairs(o: RepoListOptions)
    requires
        o.wf(),
        o@ != Map::<Param, Seq<char>>::empty(),
    ensures
        o.query() == Some(form_urlencoded_of(o.pairs())),
        o.pairs().to_set() == o@.dom().map(|k: Param| pair_of(o@, k)),
        forall|i: int, j: int|
            0 <= i < o.pairs().len() && 0 <= j < o.pairs().len() && i != j ==> o.pairs()[i].0
                != o.pairs()[j].0,
{
    lemma_pairs_are_the_map(o.params);
}

/// The query string of `UserRepoListOptions` with parameters set is the form encoding
/// of exactly the parameters set: each once, under its name and with its
/// value.
pub proof fn lemma_user_repo_list_query_pairs(o: UserRepoListOptions)
    requires
        o.wf(),
        o@ != Map::<Param, Seq<char>>::empty(),
    ensures
        o.query() == Some(form_urlencoded_of(o.pairs())),
        o.pairs().to_set() == o@.dom().map(|k: Param| pair_of(o@, k)),
        forall|i: int, j: int|
            0 <= i < o.pairs().len() && 0 <= j < o.pairs().len() && i != j ==> o.pairs()[i].0
                != o.pairs()[j].0,
{
    lemma_pairs_are_the_map(o.params);
}

/// The query string of `OrganizationRepoListOptions` with parameters set is the form encoding
/// of exactly the parameters set: each once, under its name and with its
/// value.
pub proof fn lemma_organization_repo_list_query_pairs(o: OrganizationRepoListOptions)
    requires
        o.wf(),
        o@ != Map::<Param, Seq<char>>::empty(),
    ensures
        o.query() == Some(form_urlencoded_of(o.pairs())),
        o.pairs().to_set() == o@.dom().map(|k: Param| pair_of(o@, k)),
        forall|i: int, j: int|
            0 <= i < o.pairs().len() && 0 <= j < o.pairs().len() && i != j ==> o.pairs()[i].0
                != o.pairs()[j].0,
{
    lemma_pairs_are_the_map(o.params);
}

} // verus!
