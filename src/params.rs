//! The set of query parameters that an options value carries: at most one
//! value per parameter, kept in the order in which the parameters were
//! first set.
use vstd::prelude::*;
use crate::wire::Param;

verus! {

/// Query parameters, each with its value. Setting a parameter again
/// replaces its value where it stands.
#[derive(Debug)]
pub struct QueryParams {
    entries: Vec<(Param, String)>,
}

/// The entries of a parameter list, with each value seen as characters.
pub open spec fn entries_view(entries: Seq<(Param, String)>) -> Seq<(Param, Seq<char>)> {
    entries.map_values(|e: (Param, String)| (e.0, e.1@))
}

/// The parameters of a list of entries whose parameters are distinct, as a map.
pub open spec fn entries_map(s: Seq<(Param, Seq<char>)>) -> Map<Param, Seq<char>> {
    Map::new(
        |k: Param| exists|i: int| 0 <= i < s.len() && s[i].0 == k,
        |k: Param| s[choose|i: int| 0 <= i < s.len() && s[i].0 == k].1,
    )
}

/// No parameter occurs twice.
pub open spec fn keys_distinct(s: Seq<(Param, Seq<char>)>) -> bool {
    forall|i: int, j: int| 0 <= i < s.len() && 0 <= j < s.len() && i != j ==> s[i].0 != s[j].0
}

/// The pairs that the parameters put in a query string, in order.
pub open spec fn name_value_pairs(s: Seq<(Param, Seq<char>)>) -> Seq<(Seq<char>, Seq<char>)> {
    s.map_values(|e: (Param, Seq<char>)| (e.0.token(), e.1))
}

impl View for QueryParams {
    type V = Map<Param, Seq<char>>;

    closed spec fn view(&self) -> Map<Param, Seq<char>> {
        entries_map(self.entries())
    }
}

impl QueryParams {
    /// The parameters in the order in which they were first set.
    pub closed spec fn entries(&self) -> Seq<(Param, Seq<char>)> {
        entries_view(self.entries@)
    }

    /// The name/value pairs that a query string of these parameters holds.
    pub open spec fn pairs(&self) -> Seq<(Seq<char>, Seq<char>)> {
        name_value_pairs(self.entries())
    }

    pub open spec fn wf(&self) -> bool {
        keys_distinct(self.entries())
    }

    pub fn new() -> (r: QueryParams)
        ensures
            r.wf(),
            r@ == Map::<Param, Seq<char>>::empty(),
            r.entries().len() == 0,
    {
        let r = QueryParams { entries: Vec::new() };
        assert(r@ =~= Map::<Param, Seq<char>>::empty());
        r
    }

    pub fn is_empty(&self) -> (r: bool)
        requires
            self.wf(),
        ensures
            r == (self@ == Map::<Param, Seq<char>>::empty()),
            r == (self.entries().len() == 0),
    {
        proof { lemma_entries_map_len(self.entries()); }
        self.entries.len() == 0
    }

    /// Sets `key` to `value`, replacing the value it had.
    pub fn insert(&mut self, key: Param, value: String)
        requires
            old(self).wf(),
        ensures
            final(self).wf(),
            final(self)@ == old(self)@.insert(key, value@),
            old(self)@.contains_key(key) ==> exists|i: int|
                0 <= i < old(self).entries().len() && final(self).entries() == old(
                    self,
                ).entries().update(i, (key, value@)),
            !old(self)@.contains_key(key) ==> final(self).entries() == old(self).entries().push(
                (key, value@),
            ),
    {
        let ghost s0 = self.entries();
        let mut i: usize = 0;
        while i < self.entries.len()
            invariant
                0 <= i <= self.entries.len(),
                self.entries() == s0,
                s0 == old(self).entries(),
                keys_distinct(s0),
                forall|j: int| 0 <= j < i ==> s0[j].0 != key,
            decreases self.entries.len() - i,
        {
            if self.entries[i].0 == key {
                self.entries.set(i, (key, value));
                proof {
                    assert(self.entries() =~= s0.update(i as int, (key, value@)));
                    lemma_entries_map_update(s0, i as int, key, value@);
                    assert(s0[i as int].0 == key);
                    assert(entries_map(s0).contains_key(key));
                }
                return;
            }
            i = i + 1;
        }
        self.entries.push((key, value));
        proof {
            assert(self.entries() =~= s0.push((key, value@)));
            lemma_entries_map_push(s0, key, value@);
        }
    }

    /// A copy that shares nothing with `self`.
    pub fn snapshot(&self) -> (r: QueryParams)
        ensures
            r.entries() == self.entries(),
            r@ == self@,
            r.wf() == self.wf(),
    {
        let mut entries: Vec<(Param, String)> = Vec::new();
        let mut i: usize = 0;
        while i < self.entries.len()
            invariant
                0 <= i <= self.entries.len(),
                entries@.len() == i,
                entries_view(entries@) == self.entries().take(i as int),
            decreases self.entries.len() - i,
        {
            let value = self.entries[i].1.clone();
            let ghost prev = entries@;
            entries.push((self.entries[i].0, value));
            proof {
                assert(entries@ == prev.push((self.entries@[i as int].0, self.entries@[i as int].1)));
                assert(entries_view(entries@)[i as int] == self.entries()[i as int]);
                assert forall|j: int| 0 <= j < i implies entries_view(entries@)[j]
                    == entries_view(prev)[j] by {
                    assert(entries@[j] == prev[j]);
                }
                assert(entries_view(entries@) =~= self.entries().take(i + 1));
            }
            i = i + 1;
        }
        proof {
            assert(self.entries().take(i as int) =~= self.entries());
        }
        QueryParams { entries }
    }

    /// The name/value pairs to put in a query string, in order.
    pub fn to_pairs(&self) -> (r: Vec<(String, String)>)
        ensures
            r@.map_values(|p: (String, String)| (p.0@, p.1@)) == self.pairs(),
            r@.len() == self.entries().len(),
    {
        let mut r: Vec<(String, String)> = Vec::new();
        let mut i: usize = 0;
        while i < self.entries.len()
            invariant
                0 <= i <= self.entries.len(),
                r@.len() == i,
                forall|j: int|
                    0 <= j < i ==> #[trigger] r@[j].0@ == self.pairs()[j].0 && r@[j].1@
                        == self.pairs()[j].1,
            decreases self.entries.len() - i,
        {
            let name = String::from_str(self.entries[i].0.as_str());
            let value = self.entries[i].1.clone();
            r.push((name, value));
            i = i + 1;
        }
        proof {
            assert(r@.map_values(|p: (String, String)| (p.0@, p.1@)) =~= self.pairs());
        }
        r
    }
}

proof fn lemma_entries_map_len(s: Seq<(Param, Seq<char>)>)
    requires
        keys_distinct(s),
    ensures
        (entries_map(s) == Map::<Param, Seq<char>>::empty()) == (s.len() == 0),
{
    if s.len() == 0 {
        assert(entries_map(s) =~= Map::<Param, Seq<char>>::empty());
    } else {
        assert(entries_map(s).contains_key(s[0].0));
    }
}

proof fn lemma_entries_map_update(s: Seq<(Param, Seq<char>)>, i: int, key: Param, v: Seq<char>)
    requires
        keys_distinct(s),
        0 <= i < s.len(),
        s[i].0 == key,
    ensures
        keys_distinct(s.update(i, (key, v))),
        entries_map(s.update(i, (key, v))) == entries_map(s).insert(key, v),
{
    let t = s.update(i, (key, v));
    assert forall|k: Param| #[trigger] entries_map(t).contains_key(k) implies entries_map(
        t,
    )[k] == entries_map(s).insert(key, v)[k] by {
        let j = choose|j: int| 0 <= j < t.len() && t[j].0 == k;
        assert(s[j].0 == k);
        let j2 = choose|j2: int| 0 <= j2 < s.len() && s[j2].0 == k;
        assert(j == j2);
    }
    assert forall|k: Param| #[trigger] entries_map(s).insert(key, v).contains_key(k) implies entries_map(
        t,
    ).contains_key(k) by {
        if k != key {
            let j = choose|j: int| 0 <= j < s.len() && s[j].0 == k;
            assert(t[j].0 == k);
        } else {
            assert(t[i].0 == k);
        }
    }
    assert(entries_map(t) =~= entries_map(s).insert(key, v));
}

proof fn lemma_entries_map_push(s: Seq<(Param, Seq<char>)>, key: Param, v: Seq<char>)
    requires
        keys_distinct(s),
        forall|j: int| 0 <= j < s.len() ==> s[j].0 != key,
    ensures
        keys_distinct(s.push((key, v))),
        entries_map(s.push((key, v))) == entries_map(s).insert(key, v),
{
    let t = s.push((key, v));
    assert forall|k: Param| #[trigger] entries_map(t).contains_key(k) implies entries_map(
        t,
    )[k] == entries_map(s).insert(key, v)[k] by {
        let j = choose|j: int| 0 <= j < t.len() && t[j].0 == k;
        if k != key {
            assert(s[j].0 == k);
            let j2 = choose|j2: int| 0 <= j2 < s.len() && s[j2].0 == k;
            assert(j == j2);
        } else {
            assert(j == s.len());
        }
    }
    assert forall|k: Param| #[trigger] entries_map(s).insert(key, v).contains_key(k) implies entries_map(
        t,
    ).contains_key(k) by {
        if k != key {
            let j = choose|j: int| 0 <= j < s.len() && s[j].0 == k;
            assert(t[j].0 == k);
        } else {
            assert(t[s.len() as int].0 == k);
        }
    }
    assert(entries_map(t) =~= entries_map(s).insert(key, v));
}

} // verus!

verus! {

/// The pair that a set parameter puts in a query string.
pub open spec fn pair_of(params: Map<Param, Seq<char>>, key: Param) -> (Seq<char>, Seq<char>) {
    (key.token(), params[key])
}

/// The pairs of a parameter list are exactly those of the parameters that
/// are set, each under its name and with its value, and no name occurs twice.
pub proof fn lemma_pairs_are_the_map(p: QueryParams)
    requires
        p.wf(),
    ensures
        p.pairs().to_set() == p@.dom().map(|k: Param| pair_of(p@, k)),
        forall|i: int, j: int|
            0 <= i < p.pairs().len() && 0 <= j < p.pairs().len() && i != j ==> p.pairs()[i].0
                != p.pairs()[j].0,
{
    let s = p.entries();
    let f = |k: Param| pair_of(p@, k);
    assert forall|x: (Seq<char>, Seq<char>)| p.pairs().to_set().contains(x) implies p@.dom().map(
        f,
    ).contains(x) by {
        let i = choose|i: int| 0 <= i < p.pairs().len() && p.pairs()[i] == x;
        let k = s[i].0;
        assert(p@.contains_key(k));
        let j = choose|j: int| 0 <= j < s.len() && s[j].0 == k;
        assert(j == i);
        assert(p@.dom().contains(k) && f(k) == x);
    }
    assert forall|x: (Seq<char>, Seq<char>)| p@.dom().map(f).contains(x) implies p.pairs().to_set().contains(
        x,
    ) by {
        let k = choose|k: Param| p@.dom().contains(k) && f(k) == x;
        let j = choose|j: int| 0 <= j < s.len() && s[j].0 == k;
        assert(p.pairs()[j] == x);
    }
    assert(p.pairs().to_set() =~= p@.dom().map(f));
    assert forall|i: int, j: int|
        0 <= i < p.pairs().len() && 0 <= j < p.pairs().len() && i != j implies p.pairs()[i].0
        != p.pairs()[j].0 by {
        crate::wire::lemma_param_token_injective(s[i].0, s[j].0);
    }
}

/// Setting a parameter twice leaves only the second value.
pub proof fn lemma_second_setting_wins(
    params: Map<Param, Seq<char>>,
    key: Param,
    first: Seq<char>,
    second: Seq<char>,
)
    ensures
        params.insert(key, first).insert(key, second) == params.insert(key, second),
        params.insert(key, first).insert(key, second)[key] == second,
{
    assert(params.insert(key, first).insert(key, second) =~= params.insert(key, second));
}

} // verus!
