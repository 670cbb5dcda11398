//! Key-value maps, in which no key occurs twice.

use vstd::prelude::*;
use crate::error::{Error, ErrorView};
use crate::key::{Key, KeyView, Pair, PairView};

verus! {

/// Whether some pair of `pairs` has the key `key`.
pub open spec fn has_key(pairs: Seq<PairView>, key: KeyView) -> bool {
    exists|i: int| 0 <= i < pairs.len() && (#[trigger] pairs[i]).key == key
}

/// Whether the keys of `pairs` differ from one another.
pub open spec fn distinct_keys(pairs: Seq<PairView>) -> bool {
    forall|i: int, j: int|
        0 <= i < j < pairs.len() ==> (#[trigger] pairs[i]).key != (#[trigger] pairs[j]).key
}

/// Whether the pair at `j` is the first whose key an earlier pair has too.
pub open spec fn first_repeat(pairs: Seq<PairView>, j: int) -> bool {
    &&& 0 <= j < pairs.len()
    &&& has_key(pairs.take(j), pairs[j].key)
    &&& distinct_keys(pairs.take(j))
}

/// What the pairs of a vector stand for, one by one.
pub open spec fn pair_views(pairs: Seq<Pair>) -> Seq<PairView> {
    pairs.map_values(|pair: Pair| pair@)
}

/// The pairs of one PSBT map, in the order in which they were inserted.
///
/// No two pairs of a map have the same key.
#[derive(Debug, PartialEq, Eq)]
pub struct KeyValueMap {
    pairs: Vec<Pair>,
}

impl View for KeyValueMap {
    type V = Seq<PairView>;

    closed spec fn view(&self) -> Seq<PairView> {
        pair_views(self.pairs@)
    }
}

impl KeyValueMap {
    /// The invariant of a map: its keys differ from one another. Every map
    /// that this module hands out satisfies it.
    pub open spec fn wf(&self) -> bool {
        distinct_keys(self@)
    }

    /// A map without pairs.
    pub fn new() -> (map: KeyValueMap)
        ensures
            map@ == Seq::<PairView>::empty(),
            map.wf(),
    {
        let map = KeyValueMap { pairs: Vec::new() };
        map
    }

    /// The number of pairs in this map.
    pub fn len(&self) -> (n: usize)
        ensures
            n == self@.len(),
    {
        self.pairs.len()
    }

    /// The position of the first pair with the key `key`, if the map has
    /// one. In a well-formed map it is the only one.
    pub fn position(&self, key: &Key) -> (found: Option<usize>)
        ensures
            found is None <==> !has_key(self@, key@),
            found matches Some(i) ==> i < self@.len() && self@[i as int].key == key@ && forall|
                j: int,
            | 0 <= j < i ==> (#[trigger] self@[j]).key != key@,
    {
        let mut i: usize = 0;
        while i < self.pairs.len()
            invariant
                i <= self.pairs.len(),
                forall|j: int| 0 <= j < i ==> (#[trigger] self@[j]).key != key@,
            decreases self.pairs.len() - i,
        {
            if self.pairs[i].key == *key {
                assert(self@[i as int].key == key@);
                return Some(i);
            }
            i = i + 1;
        }
        None
    }

    /// Whether the map has a pair with the key `key`.
    pub fn contains_key(&self, key: &Key) -> (found: bool)
        ensures
            found == has_key(self@, key@),
    {
        self.position(key).is_some()
    }

    /// The pair at position `i`, if the map has that many pairs.
    pub fn pair_at(&self, i: usize) -> (pair: Option<&Pair>)
        ensures
            i < self@.len() ==> (pair matches Some(p) && p@ == self@[i as int]),
            i >= self@.len() ==> pair is None,
    {
        if i < self.pairs.len() {
            Some(&self.pairs[i])
        } else {
            None
        }
    }

    /// The value stored under `key`, if the map has such a pair: the value
    /// of the first such pair, which in a well-formed map is the only one.
    pub fn get(&self, key: &Key) -> (value: Option<&Vec<u8>>)
        ensures
            value is Some <==> has_key(self@, key@),
            value matches Some(bytes) ==> exists|i: int|
                0 <= i < self@.len() && #[trigger] self@[i] == (PairView {
                    key: key@,
                    value: bytes@,
                }) && forall|j: int| 0 <= j < i ==> (#[trigger] self@[j]).key != key@,
    {
        match self.position(key) {
            Some(i) => {
                Some(&self.pairs[i].value)
            },
            None => None,
        }
    }

    /// Adds `pair` at the end of the map, unless the map has its key already.
    ///
    /// The pair that comes second is the one that is refused: the map keeps
    /// what it had, and the error carries the key of `pair`.
    pub fn insert(&mut self, pair: Pair) -> (done: Result<(), Error>)
        ensures
            old(self).wf() ==> final(self).wf(),
            has_key(old(self)@, pair@.key) ==> final(self)@ == old(self)@ && (done matches Err(e)
                && e@ == ErrorView::DuplicateKey(pair@.key)),
            !has_key(old(self)@, pair@.key) ==> final(self)@ == old(self)@.push(pair@)
                && done is Ok,
    {
        if self.contains_key(&pair.key) {
            return Err(Error::DuplicateKey(pair.key));
        }
        self.pairs.push(pair);
        assert(self@ =~= old(self)@.push(pair@));
        Ok(())
    }
}

impl KeyValueMap {
    /// The map of `pairs`, taken in order, unless a key occurs twice among
    /// them.
    ///
    /// Where a key occurs twice, the error carries the key of the first pair
    /// whose key an earlier pair has too.
    pub fn from_pairs(pairs: Vec<Pair>) -> (collected: Result<KeyValueMap, Error>)
        ensures
            distinct_keys(pair_views(pairs@)) ==> (collected matches Ok(map) && map.wf() && map@
                == pair_views(pairs@)),
            !distinct_keys(pair_views(pairs@)) ==> (collected matches Err(e) && exists|j: int|
                first_repeat(pair_views(pairs@), j) && e@ == ErrorView::DuplicateKey(
                    #[trigger] pair_views(pairs@)[j].key,
                )),
    {
        let ghost all = pair_views(pairs@);
        let mut map = KeyValueMap::new();
        for pair in it: pairs
            invariant
                it.seq() == pairs@,
                all == pair_views(pairs@),
                map.wf(),
                map@ == all.take(it.index() as int),
        {
            let ghost j = it.index() as int;
            match map.insert(pair) {
                Ok(()) => {},
                Err(e) => {
                    assert(first_repeat(all, j));
                    assert(!distinct_keys(all)) by {
                        lemma_repeat_breaks_distinctness(all, j);
                    }
                    return Err(e);
                },
            }
        }
        Ok(map)
    }
}

/// Pairs have a first repeat exactly when their keys are not distinct, and
/// they have no more than one: which key a map is refused for is decided by
/// the pairs alone.
pub proof fn lemma_first_repeat(pairs: Seq<PairView>)
    ensures
        !distinct_keys(pairs) <==> exists|j: int| first_repeat(pairs, j),
        forall|j: int, k: int| first_repeat(pairs, j) && first_repeat(pairs, k) ==> j == k,
    decreases pairs.len(),
{
    assert forall|j: int, k: int| first_repeat(pairs, j) && first_repeat(pairs, k) implies j
        == k by {
        if j < k {
            lemma_repeat_breaks_distinctness(pairs.take(k), j);
        }
        if k < j {
            lemma_repeat_breaks_distinctness(pairs.take(j), k);
        }
    }
    if exists|j: int| first_repeat(pairs, j) {
        let j = choose|j: int| first_repeat(pairs, j);
        lemma_repeat_breaks_distinctness(pairs, j);
    }
    if !distinct_keys(pairs) {
        let shorter = pairs.drop_last();
        lemma_first_repeat(shorter);
        if distinct_keys(shorter) {
            let last = pairs.len() - 1;
            let (i, j) = choose|i: int, j: int|
                0 <= i < j < pairs.len() && (#[trigger] pairs[i]).key == (#[trigger] pairs[j]).key;
            assert(j == last) by {
                if j < last {
                    assert(shorter[i].key == shorter[j].key);
                }
            }
            assert(shorter[i].key == pairs[last].key);
            assert(first_repeat(pairs, last));
        } else {
            let j = choose|j: int| first_repeat(shorter, j);
            assert(shorter.take(j) =~= pairs.take(j));
            assert(first_repeat(pairs, j));
        }
    }
}

/// Where the pair at `j` has the key of an earlier pair, the keys are not
/// distinct.
pub proof fn lemma_repeat_breaks_distinctness(pairs: Seq<PairView>, j: int)
    requires
        0 <= j < pairs.len(),
        has_key(pairs.take(j), pairs[j].key),
    ensures
        !distinct_keys(pairs),
{
    let i = choose|i: int|
        0 <= i < pairs.take(j).len() && (#[trigger] pairs.take(j)[i]).key == pairs[j].key;
    assert(pairs[i].key == pairs[j].key);
}

} // verus!
