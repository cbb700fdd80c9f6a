//! A map from strings to strings, kept as a list of pairs in which no key
//! stands twice.

use crate::text::str_eq;
use vstd::prelude::*;

verus! {

/// The pairs of a list, each by its characters.
pub open spec fn pairs_model(pairs: Seq<(String, String)>) -> Seq<(Seq<char>, Seq<char>)> {
    Seq::new(pairs.len(), |i: int| (pairs[i].0@, pairs[i].1@))
}

/// No key stands twice in `pairs`.
pub open spec fn distinct_keys(pairs: Seq<(Seq<char>, Seq<char>)>) -> bool {
    forall|i: int, j: int| 0 <= i < j < pairs.len() ==> pairs[i].0 != pairs[j].0
}

/// The position of the pair with key `key` at or after `from`, or the
/// number of pairs.
pub open spec fn pair_position(pairs: Seq<(Seq<char>, Seq<char>)>, key: Seq<char>, from: int) -> int
    decreases pairs.len() - from,
{
    if from < 0 || from >= pairs.len() {
        pairs.len() as int
    } else if pairs[from].0 == key {
        from
    } else {
        pair_position(pairs, key, from + 1)
    }
}

/// The value that `pairs` gives to `key`.
pub open spec fn value_for(pairs: Seq<(Seq<char>, Seq<char>)>, key: Seq<char>) -> Option<
    Seq<char>,
> {
    let at = pair_position(pairs, key, 0);
    if at < pairs.len() {
        Some(pairs[at].1)
    } else {
        None
    }
}

/// `pair_position` gives a position that holds the key, with none before
/// it from `from` on.
pub proof fn lemma_pair_position(pairs: Seq<(Seq<char>, Seq<char>)>, key: Seq<char>, from: int)
    requires
        0 <= from <= pairs.len(),
    ensures
        from <= pair_position(pairs, key, from) <= pairs.len(),
        pair_position(pairs, key, from) < pairs.len() ==> pairs[pair_position(
            pairs,
            key,
            from,
        )].0 == key,
        forall|i: int| from <= i < pair_position(pairs, key, from) ==> pairs[i].0 != key,
    decreases pairs.len() - from,
{
    if from < pairs.len() && pairs[from].0 != key {
        lemma_pair_position(pairs, key, from + 1);
    }
}

/// A map from strings to strings. It keeps its pairs in the order in
/// which they came.
#[derive(Debug, PartialEq, Eq)]
pub struct StringMap {
    pairs: Vec<(String, String)>,
}

impl View for StringMap {
    type V = Seq<(Seq<char>, Seq<char>)>;

    closed spec fn view(&self) -> Seq<(Seq<char>, Seq<char>)> {
        pairs_model(self.pairs@)
    }
}

impl DeepView for StringMap {
    type V = Seq<(Seq<char>, Seq<char>)>;

    open spec fn deep_view(&self) -> Seq<(Seq<char>, Seq<char>)> {
        self@
    }
}

impl Clone for StringMap {
    fn clone(&self) -> (copy: StringMap)
        ensures
            copy@ == self@,
    {
        proof {
            use_type_invariant(self);
        }
        let mut pairs: Vec<(String, String)> = Vec::new();
        let mut i: usize = 0;
        while i < self.pairs.len()
            invariant
                i <= self.pairs.len(),
                pairs_model(pairs@) == pairs_model(self.pairs@).take(i as int),
            decreases self.pairs.len() - i,
        {
            let ghost before = pairs_model(pairs@);
            pairs.push((self.pairs[i].0.clone(), self.pairs[i].1.clone()));
            assert(pairs_model(pairs@) =~= before.push(pairs_model(self.pairs@)[i as int]));
            assert(pairs_model(self.pairs@).take(i + 1) =~= before.push(
                pairs_model(self.pairs@)[i as int],
            ));
            i += 1;
        }
        assert(pairs_model(self.pairs@).take(i as int) =~= pairs_model(self.pairs@));
        StringMap { pairs }
    }
}

impl StringMap {
    /// No key stands twice in a map.
    #[verifier::type_invariant]
    pub open spec fn well_formed(&self) -> bool {
        distinct_keys(self@)
    }

    /// The map without pairs.
    pub fn new() -> (map: StringMap)
        ensures
            map@ == Seq::<(Seq<char>, Seq<char>)>::empty(),
    {
        let map = StringMap { pairs: Vec::new() };
        assert(map@ =~= Seq::<(Seq<char>, Seq<char>)>::empty());
        map
    }

    /// The number of pairs.
    pub fn len(&self) -> (n: usize)
        ensures
            n == self@.len(),
    {
        self.pairs.len()
    }

    fn position(&self, key: &str) -> (at: usize)
        ensures
            at == pair_position(self@, key@, 0),
            at <= self.pairs@.len(),
    {
        let mut at: usize = 0;
        while at < self.pairs.len()
            invariant
                at <= self.pairs.len(),
                pair_position(self@, key@, 0) == pair_position(self@, key@, at as int),
            decreases self.pairs.len() - at,
        {
            if str_eq(self.pairs[at].0.as_str(), key) {
                return at;
            }
            at += 1;
        }
        at
    }

    /// The value that the map gives to `key`.
    pub fn get(&self, key: &str) -> (value: Option<&String>)
        ensures
            value.deep_view() == value_for(self@, key@),
    {
        let at = self.position(key);
        if at < self.pairs.len() {
            Some(&self.pairs[at].1)
        } else {
            None
        }
    }

    /// The key of the pair at `index`.
    pub fn key_at(&self, index: usize) -> (key: &String)
        requires
            index < self@.len(),
        ensures
            key@ == self@[index as int].0,
    {
        &self.pairs[index].0
    }

    /// The value of the pair at `index`.
    pub fn value_at(&self, index: usize) -> (value: &String)
        requires
            index < self@.len(),
        ensures
            value@ == self@[index as int].1,
    {
        &self.pairs[index].1
    }

    /// The map that gives `key` the value `value`: in the place of the pair
    /// that had the key, or else as a new last pair.
    pub fn with(self, key: String, value: String) -> (map: StringMap)
        ensures
            map@ == (if pair_position(self@, key@, 0) < self@.len() {
                self@.update(pair_position(self@, key@, 0), (key@, value@))
            } else {
                self@.push((key@, value@))
            }),
    {
        proof {
            use_type_invariant(&self);
            lemma_pair_position(self@, key@, 0);
        }
        let at = self.position(key.as_str());
        let ghost before = self@;
        let mut pairs = self.pairs;
        if at < pairs.len() {
            pairs.set(at, (key, value));
            assert(pairs_model(pairs@) =~= before.update(at as int, (key@, value@)));
        } else {
            pairs.push((key, value));
            assert(pairs_model(pairs@) =~= before.push((key@, value@)));
        }
        StringMap { pairs }
    }
}

} // verus!
