//! Reading the pairs of a map: how the bytes of a key decode and how the end
//! of a map is told, which keys a map of a given role accepts, and what
//! becomes of the pairs that a reader hands over.

use vstd::prelude::*;
use vstd::slice::slice_subrange;
use crate::bytes::copy_bytes;
use crate::error::{Error, ErrorView};
use crate::key::{Key, KeyView, Pair, PairView};
use crate::map::{
    distinct_keys, has_key, lemma_repeat_breaks_distinctness, pair_views, KeyValueMap,
};

verus! {

/// The three kinds of map that a PSBT is made of.
#[derive(Debug, Clone, Copy, PartialEq, Eq, Structural)]
pub enum MapRole {
    /// The one map that speaks of the whole transaction.
    Global,
    /// A map that speaks of one input.
    Input,
    /// A map that speaks of one output.
    Output,
}

/// What the data of a key must look like, for a key type that this crate
/// knows.
#[derive(Debug, Clone, Copy, PartialEq, Eq, Structural)]
pub enum KeyShape {
    /// The type alone names the field: the key has no data.
    Bare,
    /// The field is one of several of its type, told apart by the key's
    /// data: the key has data.
    Keyed,
}

/// The shape that keys of type `type_value` must have in a map of role
/// `role`, or `None` where this crate does not know the type.
///
/// Global maps: the unsigned transaction (0x00) and the version (0xfb) are
/// bare, extended public keys (0x01) are keyed. Input maps: the two UTXOs
/// (0x00, 0x01), the sighash type (0x03), the redeem and witness scripts
/// (0x04, 0x05) and the two final scripts (0x07, 0x08) are bare; partial
/// signatures (0x02), key derivations (0x06) and the four kinds of preimage
/// (0x0a to 0x0d) are keyed. Output maps: the redeem and witness scripts
/// (0x00, 0x01) are bare, key derivations (0x02) are keyed.
pub open spec fn spec_key_shape(role: MapRole, type_value: u8) -> Option<KeyShape> {
    match role {
        MapRole::Global => if type_value == 0x00 || type_value == 0xfb {
            Some(KeyShape::Bare)
        } else if type_value == 0x01 {
            Some(KeyShape::Keyed)
        } else {
            None
        },
        MapRole::Input => if type_value == 0x00 || type_value == 0x01 || type_value == 0x03
            || type_value == 0x04 || type_value == 0x05 || type_value == 0x07 || type_value
            == 0x08 {
            Some(KeyShape::Bare)
        } else if type_value == 0x02 || type_value == 0x06 || (0x0a <= type_value <= 0x0d) {
            Some(KeyShape::Keyed)
        } else {
            None
        },
        MapRole::Output => if type_value == 0x00 || type_value == 0x01 {
            Some(KeyShape::Bare)
        } else if type_value == 0x02 {
            Some(KeyShape::Keyed)
        } else {
            None
        },
    }
}

/// Whether `key` may stand in a map of role `role`: a key of an unknown type
/// always may, and one of a known type when its data has the shape that the
/// type asks for.
pub open spec fn well_shaped(role: MapRole, key: KeyView) -> bool {
    match spec_key_shape(role, key.type_value) {
        Some(KeyShape::Bare) => key.key.len() == 0,
        Some(KeyShape::Keyed) => key.key.len() > 0,
        None => true,
    }
}

/// Whether every key of `pairs` is well shaped for `role`.
pub open spec fn all_well_shaped(role: MapRole, pairs: Seq<PairView>) -> bool {
    forall|i: int| 0 <= i < pairs.len() ==> well_shaped(role, (#[trigger] pairs[i]).key)
}

/// Whether the pair at `j` breaks a rule: its key is ill shaped, or an earlier
/// pair has its key.
pub open spec fn offends(role: MapRole, pairs: Seq<PairView>, j: int) -> bool {
    &&& 0 <= j < pairs.len()
    &&& !well_shaped(role, pairs[j].key) || has_key(pairs.take(j), pairs[j].key)
}

/// Whether the pair at `j` is the first that breaks a rule.
pub open spec fn first_offence(role: MapRole, pairs: Seq<PairView>, j: int) -> bool {
    &&& offends(role, pairs, j)
    &&& forall|i: int| 0 <= i < j ==> !offends(role, pairs, i)
}

/// The error that the pair at `j` is refused with: the shape of its key is
/// looked at before its being a duplicate.
pub open spec fn offence(role: MapRole, pairs: Seq<PairView>, j: int) -> ErrorView {
    if !well_shaped(role, pairs[j].key) {
        ErrorView::InvalidKey(pairs[j].key)
    } else {
        ErrorView::DuplicateKey(pairs[j].key)
    }
}

/// At most one pair is the first to break a rule: which error a map is
/// refused with is decided by the role and the pairs alone.
pub proof fn lemma_first_offence_is_unique(role: MapRole, pairs: Seq<PairView>, j: int, k: int)
    requires
        first_offence(role, pairs, j),
        first_offence(role, pairs, k),
    ensures
        j == k,
{
}

/// Pairs hold a first offence exactly when some key is ill shaped or occurs
/// twice.
pub proof fn lemma_first_offence_exists(role: MapRole, pairs: Seq<PairView>)
    ensures
        !(all_well_shaped(role, pairs) && distinct_keys(pairs)) <==> exists|j: int|
            first_offence(role, pairs, j),
    decreases pairs.len(),
{
    if exists|j: int| first_offence(role, pairs, j) {
        let j = choose|j: int| first_offence(role, pairs, j);
        if well_shaped(role, pairs[j].key) {
            lemma_repeat_breaks_distinctness(pairs, j);
        }
    }
    if !(all_well_shaped(role, pairs) && distinct_keys(pairs)) {
        let shorter = pairs.drop_last();
        let last = pairs.len() - 1;
        lemma_first_offence_exists(role, shorter);
        if all_well_shaped(role, shorter) && distinct_keys(shorter) {
            assert forall|i: int| 0 <= i < last implies !offends(role, pairs, i) by {
                if has_key(pairs.take(i), pairs[i].key) {
                    lemma_repeat_breaks_distinctness(shorter, i);
                }
                assert(well_shaped(role, shorter[i].key));
            }
            if well_shaped(role, pairs[last].key) {
                assert(all_well_shaped(role, pairs)) by {
                    assert forall|i: int| 0 <= i < pairs.len() implies well_shaped(
                        role,
                        (#[trigger] pairs[i]).key,
                    ) by {
                        if i < last {
                            assert(well_shaped(role, shorter[i].key));
                        }
                    }
                }
                let (i, j) = choose|i: int, j: int|
                    0 <= i < j < pairs.len() && (#[trigger] pairs[i]).key == (
                    #[trigger] pairs[j]).key;
                assert(j == last) by {
                    if j < last {
                        assert(shorter[i].key == shorter[j].key);
                    }
                }
                assert(pairs.take(last)[i].key == pairs[last].key);
            }
            assert(first_offence(role, pairs, last));
        } else {
            let j = choose|j: int| first_offence(role, shorter, j);
            assert forall|i: int| 0 <= i < j implies !offends(role, pairs, i) by {
                assert(shorter.take(i) =~= pairs.take(i));
                assert(!offends(role, shorter, i));
            }
            assert(first_offence(role, pairs, j));
        }
    }
}

/// The shape that keys of type `type_value` must have in a map of role
/// `role`, if the type is known there.
pub fn key_shape(role: MapRole, type_value: u8) -> (shape: Option<KeyShape>)
    ensures
        shape == spec_key_shape(role, type_value),
{
    match role {
        MapRole::Global => match type_value {
            0x00 | 0xfb => Some(KeyShape::Bare),
            0x01 => Some(KeyShape::Keyed),
            _ => None,
        },
        MapRole::Input => match type_value {
            0x00 | 0x01 | 0x03 | 0x04 | 0x05 | 0x07 | 0x08 => Some(KeyShape::Bare),
            0x02 | 0x06 | 0x0a | 0x0b | 0x0c | 0x0d => Some(KeyShape::Keyed),
            _ => None,
        },
        MapRole::Output => match type_value {
            0x00 | 0x01 => Some(KeyShape::Bare),
            0x02 => Some(KeyShape::Keyed),
            _ => None,
        },
    }
}

/// Hands `key` back when it may stand in a map of role `role`, and refuses
/// it with [`Error::InvalidKey`] when it is ill shaped.
pub fn check_key(role: MapRole, key: Key) -> (checked: Result<Key, Error>)
    ensures
        well_shaped(role, key@) ==> (checked matches Ok(same) && same@ == key@),
        !well_shaped(role, key@) ==> (checked matches Err(e) && e@ == ErrorView::InvalidKey(key@)),
{
    let fits = match key_shape(role, key.type_value) {
        Some(KeyShape::Bare) => key.key.len() == 0,
        Some(KeyShape::Keyed) => key.key.len() > 0,
        None => true,
    };
    if fits {
        Ok(key)
    } else {
        Err(Error::InvalidKey(key))
    }
}

/// What the bytes of a key decode to: their first is the type, the others
/// are the key data. No bytes are no key.
pub open spec fn decoded_key(raw: Seq<u8>) -> Option<KeyView> {
    if raw.len() == 0 {
        None
    } else {
        Some(KeyView { type_value: raw[0], key: raw.skip(1) })
    }
}

/// Decodes the bytes of a key, as they stand in a map behind their length.
///
/// A map ends with a key of length zero. Such a key is no key: it is
/// answered with [`Error::NoMorePairs`], which tells the reader that the map
/// is complete.
pub fn decode_key(raw: &[u8]) -> (decoded: Result<Key, Error>)
    ensures
        decoded_key(raw@) matches Some(key) ==> (decoded matches Ok(k) && k@ == key),
        decoded_key(raw@) is None ==> (decoded matches Err(e) && e@ == ErrorView::NoMorePairs),
{
    if raw.len() == 0 {
        return Err(Error::NoMorePairs);
    }
    let data = slice_subrange(raw, 1, raw.len());
    assert(data@ =~= raw@.skip(1));
    Ok(Key { type_value: raw[0], key: copy_bytes(data) })
}

/// Turns what a reader of pairs hands over into a pair, into the end of the
/// map, or into a failure.
///
/// A reader signals that a map has no further pair with
/// [`Error::NoMorePairs`]. That is no failure: it becomes `Ok(None)` here,
/// so that it cannot be taken for one. A pair becomes `Ok(Some(..))`, and any
/// other error is handed on as it is.
pub fn next_pair(read: Result<Pair, Error>) -> (next: Result<Option<Pair>, Error>)
    ensures
        read matches Ok(pair) ==> next matches Ok(Some(same)) && same@ == pair@,
        (read matches Err(e) && e@ == ErrorView::NoMorePairs) ==> next matches Ok(None),
        (read matches Err(e) && e@ != ErrorView::NoMorePairs) ==> (next matches Err(same)
            && same@ == read->Err_0@),
        next matches Err(e) ==> e@ != ErrorView::NoMorePairs,
{
    match read {
        Ok(pair) => Ok(Some(pair)),
        Err(Error::NoMorePairs) => Ok(None),
        Err(e) => Err(e),
    }
}

impl KeyValueMap {
    /// Adds `pair` at the end of the map, as [`KeyValueMap::insert`] does,
    /// after its key has passed [`check_key`] for `role`.
    pub fn insert_checked(&mut self, role: MapRole, pair: Pair) -> (done: Result<(), Error>)
        ensures
            old(self).wf() ==> final(self).wf(),
            !well_shaped(role, pair@.key) ==> final(self)@ == old(self)@ && (done matches Err(e)
                && e@ == ErrorView::InvalidKey(pair@.key)),
            well_shaped(role, pair@.key) && has_key(old(self)@, pair@.key) ==> final(self)@ == old(
                self,
            )@ && (done matches Err(e) && e@ == ErrorView::DuplicateKey(pair@.key)),
            well_shaped(role, pair@.key) && !has_key(old(self)@, pair@.key) ==> final(self)@
                == old(self)@.push(pair@) && done is Ok,
    {
        let Pair { key, value } = pair;
        match check_key(role, key) {
            Ok(key) => self.insert(Pair { key, value }),
            Err(e) => Err(e),
        }
    }

    /// The map of role `role` that `pairs` make, taken in order: the pairs
    /// that a reader handed over before it signalled the end of the map.
    ///
    /// The pairs are looked at one after the other, and the first that breaks
    /// a rule decides the error: [`Error::InvalidKey`] where its key is ill
    /// shaped for `role`, [`Error::DuplicateKey`] where an earlier pair has
    /// its key. Either carries the key of that pair.
    pub fn parse(role: MapRole, pairs: Vec<Pair>) -> (parsed: Result<KeyValueMap, Error>)
        ensures
            all_well_shaped(role, pair_views(pairs@)) && distinct_keys(pair_views(pairs@)) ==> (
            parsed matches Ok(map) && map.wf() && map@ == pair_views(pairs@)),
            !(all_well_shaped(role, pair_views(pairs@)) && distinct_keys(pair_views(pairs@)))
                ==> (parsed matches Err(e) && exists|j: int| #[trigger]
                first_offence(role, pair_views(pairs@), j) && e@ == offence(
                    role,
                    pair_views(pairs@),
                    j,
                )),
    {
        let ghost all = pair_views(pairs@);
        let mut map = KeyValueMap::new();
        for pair in it: pairs
            invariant
                it.seq() == pairs@,
                all == pair_views(pairs@),
                map.wf(),
                map@ == all.take(it.index() as int),
                forall|i: int| 0 <= i < it.index() ==> !offends(role, all, i),
        {
            let ghost j = it.index() as int;
            match map.insert_checked(role, pair) {
                Ok(()) => {},
                Err(e) => {
                    assert(first_offence(role, all, j));
                    assert(!(all_well_shaped(role, all) && distinct_keys(all))) by {
                        if well_shaped(role, all[j].key) {
                            lemma_repeat_breaks_distinctness(all, j);
                        }
                    }
                    return Err(e);
                },
            }
        }
        assert(all_well_shaped(role, all)) by {
            assert forall|i: int| 0 <= i < all.len() implies well_shaped(
                role,
                (#[trigger] all[i]).key,
            ) by {
                assert(!offends(role, all, i));
            }
        }
        Ok(map)
    }
}

} // verus!
