//! A map from names to texts, as the headers, the query and the parameters
//! of a request are held: an association list in which no name stands
//! twice. It stands in for a hash map keyed by strings, for which vstd has
//! no key model: what a hash map promises of its keys is here the type's
//! invariant.

use vstd::prelude::*;
use crate::route_index::pairs_view;
use crate::text::same_text;

verus! {

/// The map that a list of pairs makes when it is read from the front and a
/// later pair replaces an earlier one of the same name.
pub open spec fn map_first(pairs: Seq<(Seq<char>, Seq<char>)>, n: nat) -> Map<Seq<char>, Seq<char>>
    decreases n,
{
    if n == 0 {
        Map::empty()
    } else {
        map_first(pairs, (n - 1) as nat).insert(pairs[n - 1].0, pairs[n - 1].1)
    }
}

/// The map that a list of pairs makes, the last pair of a name winning.
pub open spec fn map_of(pairs: Seq<(Seq<char>, Seq<char>)>) -> Map<Seq<char>, Seq<char>> {
    map_first(pairs, pairs.len())
}

/// No name stands twice in `pairs`.
pub open spec fn distinct_names(pairs: Seq<(Seq<char>, Seq<char>)>) -> bool {
    forall|i: int, j: int| 0 <= i < j < pairs.len() ==> pairs[i].0 != pairs[j].0
}

/// The map of a list is that of any list that agrees with it on the first
/// `n` pairs.
pub proof fn lemma_map_first_agrees(
    a: Seq<(Seq<char>, Seq<char>)>,
    b: Seq<(Seq<char>, Seq<char>)>,
    n: nat,
)
    requires
        n <= a.len(),
        n <= b.len(),
        forall|i: int| 0 <= i < n ==> a[i] == b[i],
    ensures
        map_first(a, n) == map_first(b, n),
    decreases n,
{
    if n > 0 {
        lemma_map_first_agrees(a, b, (n - 1) as nat);
    }
}

/// The names of the map of the first `n` pairs are the names of those
/// pairs.
pub proof fn lemma_map_first_names(pairs: Seq<(Seq<char>, Seq<char>)>, n: nat, name: Seq<char>)
    requires
        n <= pairs.len(),
    ensures
        map_first(pairs, n).dom().contains(name) <==> exists|i: int|
            0 <= i < n && pairs[i].0 == name,
    decreases n,
{
    if n > 0 {
        lemma_map_first_names(pairs, (n - 1) as nat, name);
        if map_first(pairs, n).dom().contains(name) {
            if pairs[n - 1].0 == name {
            } else {
                let i = choose|i: int| 0 <= i < n - 1 && pairs[i].0 == name;
                assert(0 <= i < n && pairs[i].0 == name);
            }
        }
        if exists|i: int| 0 <= i < n && pairs[i].0 == name {
            let i = choose|i: int| 0 <= i < n && pairs[i].0 == name;
            if i < n - 1 {
                assert(0 <= i < n - 1 && pairs[i].0 == name);
            }
        }
    }
}

/// In a list without a repeated name, the map holds under each name the
/// value of the pair of that name.
pub proof fn lemma_map_first_value(pairs: Seq<(Seq<char>, Seq<char>)>, n: nat, at: int)
    requires
        n <= pairs.len(),
        0 <= at < n,
        distinct_names(pairs),
    ensures
        map_first(pairs, n).dom().contains(pairs[at].0),
        map_first(pairs, n)[pairs[at].0] == pairs[at].1,
    decreases n,
{
    if at < n - 1 {
        lemma_map_first_value(pairs, (n - 1) as nat, at);
    }
}

/// Replacing the value of one pair, in a list without a repeated name,
/// replaces the value under that pair's name.
pub proof fn lemma_map_first_update(
    pairs: Seq<(Seq<char>, Seq<char>)>,
    n: nat,
    at: int,
    value: Seq<char>,
)
    requires
        n <= pairs.len(),
        0 <= at < pairs.len(),
        distinct_names(pairs),
    ensures
        map_first(pairs.update(at, (pairs[at].0, value)), n) == if at < n {
            map_first(pairs, n).insert(pairs[at].0, value)
        } else {
            map_first(pairs, n)
        },
    decreases n,
{
    let changed = pairs.update(at, (pairs[at].0, value));
    if n > 0 {
        lemma_map_first_update(pairs, (n - 1) as nat, at, value);
        let before = map_first(pairs, (n - 1) as nat);
        if at == n - 1 {
            assert(map_first(changed, n) =~= map_first(pairs, n).insert(pairs[at].0, value));
        } else if at < n - 1 {
            assert(map_first(changed, n) =~= map_first(pairs, n).insert(pairs[at].0, value));
        } else {
            assert(map_first(changed, n) =~= map_first(pairs, n));
        }
    }
}

/// In a list without a repeated name, the map of the first `n` pairs has
/// `n` names.
pub proof fn lemma_map_first_size(pairs: Seq<(Seq<char>, Seq<char>)>, n: nat)
    requires
        n <= pairs.len(),
        distinct_names(pairs),
    ensures
        map_first(pairs, n).dom().finite(),
        map_first(pairs, n).dom().len() == n,
    decreases n,
{
    if n > 0 {
        let before = map_first(pairs, (n - 1) as nat);
        lemma_map_first_size(pairs, (n - 1) as nat);
        lemma_map_first_names(pairs, (n - 1) as nat, pairs[n - 1].0);
        assert(!before.dom().contains(pairs[n - 1].0));
        assert(map_first(pairs, n).dom() =~= before.dom().insert(pairs[n - 1].0));
    }
}

/// A map from names to texts.
#[derive(Debug)]
pub struct TextMap {
    entries: Vec<(String, String)>,
}

impl View for TextMap {
    type V = Map<Seq<char>, Seq<char>>;

    closed spec fn view(&self) -> Map<Seq<char>, Seq<char>> {
        map_of(pairs_view(self.entries@))
    }
}

impl TextMap {
    #[verifier::type_invariant]
    spec fn well_formed(self) -> bool {
        distinct_names(pairs_view(self.entries@))
    }

    /// The pairs of the map, each name once, in the order in which the
    /// names came in.
    pub closed spec fn pairs(self) -> Seq<(Seq<char>, Seq<char>)> {
        pairs_view(self.entries@)
    }

    /// A map that holds nothing.
    pub fn new() -> (made: TextMap)
        ensures
            made@ == Map::<Seq<char>, Seq<char>>::empty(),
    {
        TextMap { entries: Vec::new() }
    }

    /// The position of `name` among the entries; their number where it is
    /// not among them.
    fn position(&self, name: &str) -> (at: usize)
        ensures
            at <= self.entries.len(),
            at < self.entries.len() ==> self.entries[at as int].0@ == name@,
            forall|i: int| 0 <= i < self.entries.len() && i != at ==> self.entries[i].0@ != name@,
    {
        proof {
            use_type_invariant(self);
        }
        let mut at: usize = 0;
        while at < self.entries.len()
            invariant
                at <= self.entries.len(),
                distinct_names(pairs_view(self.entries@)),
                forall|i: int| 0 <= i < at ==> self.entries[i].0@ != name@,
            decreases self.entries.len() - at,
        {
            if same_text(self.entries[at].0.as_str(), name) {
                assert forall|i: int| 0 <= i < self.entries.len() && i != at implies self.entries[i].0@
                    != name@ by {
                    assert(pairs_view(self.entries@)[i].0 == self.entries[i].0@);
                    assert(pairs_view(self.entries@)[at as int].0 == self.entries[at as int].0@);
                }
                return at;
            }
            at = at + 1;
        }
        at
    }

    /// Puts `value` under `name`, in place of what stood under it.
    pub fn insert(&mut self, name: String, value: String)
        ensures
            final(self)@ == old(self)@.insert(name@, value@),
    {
        let at = self.position(name.as_str());
        proof {
            use_type_invariant(&*self);
        }
        let mut taken = TextMap::new();
        core::mem::swap(self, &mut taken);
        let mut entries = taken.entries;
        let ghost before = pairs_view(entries@);
        if at < entries.len() {
            entries.set(at, (name, value));
            proof {
                let after = pairs_view(entries@);
                assert(after =~= before.update(at as int, (before[at as int].0, value@)));
                lemma_map_first_update(before, before.len(), at as int, value@);
                assert forall|i: int, j: int| 0 <= i < j < after.len() implies after[i].0
                    != after[j].0 by {
                    assert(after[i].0 == before[i].0);
                    assert(after[j].0 == before[j].0);
                }
            }
        } else {
            entries.push((name, value));
            proof {
                let after = pairs_view(entries@);
                assert(after =~= before.push((name@, value@)));
                lemma_map_first_agrees(before, after, before.len());
                assert forall|i: int, j: int| 0 <= i < j < after.len() implies after[i].0
                    != after[j].0 by {
                    if j < before.len() {
                        assert(after[i].0 == before[i].0);
                        assert(after[j].0 == before[j].0);
                    } else {
                        assert(after[i].0 == old(self).entries[i].0@);
                    }
                }
            }
        }
        *self = TextMap { entries };
    }

    /// The text under `name`, if there is one.
    pub fn get(&self, name: &str) -> (value: Option<&str>)
        ensures
            value is Some == self@.dom().contains(name@),
            value is Some ==> value.unwrap()@ == self@[name@],
    {
        let at = self.position(name);
        proof {
            use_type_invariant(self);
            let pairs = pairs_view(self.entries@);
            lemma_map_first_names(pairs, pairs.len(), name@);
            if at < self.entries.len() {
                lemma_map_first_value(pairs, pairs.len(), at as int);
            } else {
                assert forall|i: int| 0 <= i < pairs.len() implies pairs[i].0 != name@ by {
                    assert(pairs[i].0 == self.entries[i].0@);
                }
            }
        }
        if at < self.entries.len() {
            Some(self.entries[at].1.as_str())
        } else {
            None
        }
    }

    /// The number of names.
    pub fn len(&self) -> (n: usize)
        ensures
            n == self.pairs().len(),
            self@.dom().finite(),
            n == self@.dom().len(),
    {
        proof {
            use_type_invariant(self);
            lemma_map_first_size(pairs_view(self.entries@), self.entries@.len());
        }
        self.entries.len()
    }

    /// The map of a list of pairs, the last pair of a name winning.
    pub fn from_pairs(pairs: Vec<(String, String)>) -> (made: TextMap)
        ensures
            made@ == map_of(pairs_view(pairs@)),
    {
        let mut made = TextMap::new();
        let mut i: usize = 0;
        while i < pairs.len()
            invariant
                i <= pairs.len(),
                made@ == map_first(pairs_view(pairs@), i as nat),
            decreases pairs.len() - i,
        {
            made.insert(pairs[i].0.clone(), pairs[i].1.clone());
            i = i + 1;
        }
        made
    }

    /// The pairs of the map, each name once.
    pub fn entries(&self) -> (pairs: &Vec<(String, String)>)
        ensures
            pairs_view(pairs@) == self.pairs(),
            distinct_names(pairs_view(pairs@)),
            map_of(pairs_view(pairs@)) == self@,
    {
        proof {
            use_type_invariant(self);
        }
        &self.entries
    }

    /// The pairs of the map, each name once.
    pub fn into_pairs(self) -> (pairs: Vec<(String, String)>)
        ensures
            pairs_view(pairs@) == self.pairs(),
            distinct_names(pairs_view(pairs@)),
            map_of(pairs_view(pairs@)) == self@,
    {
        proof {
            use_type_invariant(&self);
        }
        self.entries
    }
}

} // verus!
