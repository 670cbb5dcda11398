//! Preimages and the digests they are claimed to hash to.
//!
//! An input of a PSBT may carry, for each of four hash functions, pairs of a
//! digest and a preimage. Such a pair is only accepted when hashing the
//! preimage gives the digest.

use vstd::prelude::*;
use crate::bytes::{bytes_equal, copy_bytes};
use crate::error::{Error, ErrorView};
use crate::hash::{digest_of, HashError, PsbtHash};
use crate::key::{Key, KeyView};

verus! {

/// Accepts a claimed digest when it equals the digest that was computed, byte
/// for byte. The error carries what was claimed, not what was computed.
pub fn compare_digest(
    hash_type: PsbtHash,
    preimage: &[u8],
    hash: &[u8],
    computed: &[u8],
) -> (checked: Result<(), Error>)
    ensures
        computed@ == hash@ ==> checked is Ok,
        computed@ != hash@ ==> (checked matches Err(e) && e@
            == ErrorView::InvalidPreimageHashPair {
            hash_type,
            preimage: preimage@,
            hash: hash@,
        }),
{
    if bytes_equal(computed, hash) {
        Ok(())
    } else {
        Err(
            Error::InvalidPreimageHashPair {
                hash_type,
                preimage: copy_bytes(preimage),
                hash: copy_bytes(hash),
            },
        )
    }
}

/// Accepts a preimage and its claimed digest when hashing the preimage with
/// the function that `hash_type` names gives that digest. A claimed digest
/// that has not the length of such a digest is never accepted.
pub fn check_preimage(hash_type: PsbtHash, preimage: &[u8], hash: &[u8]) -> (checked: Result<
    (),
    Error,
>)
    ensures
        digest_of(hash_type, preimage@) == hash@ ==> checked is Ok,
        digest_of(hash_type, preimage@) != hash@ ==> (checked matches Err(e) && e@
            == ErrorView::InvalidPreimageHashPair {
            hash_type,
            preimage: preimage@,
            hash: hash@,
        }),
        hash@.len() != hash_type.spec_digest_len() ==> checked is Err,
{
    let computed = hash_type.hash(preimage);
    compare_digest(hash_type, preimage, hash, computed.as_slice())
}

/// What a [`Preimage`] stands for.
#[verifier::ext_equal]
pub struct PreimageView {
    pub hash: Seq<u8>,
    pub preimage: Seq<u8>,
}

/// A digest with the preimage that hashes to it.
#[derive(Debug, PartialEq, Eq)]
pub struct Preimage {
    /// The digest.
    pub hash: Vec<u8>,
    /// The bytes that hash to it.
    pub preimage: Vec<u8>,
}

impl View for Preimage {
    type V = PreimageView;

    open spec fn view(&self) -> PreimageView {
        PreimageView { hash: self.hash@, preimage: self.preimage@ }
    }
}

/// Whether some entry of `entries` has the digest `hash`.
pub open spec fn has_hash(entries: Seq<PreimageView>, hash: Seq<u8>) -> bool {
    exists|i: int| 0 <= i < entries.len() && (#[trigger] entries[i]).hash == hash
}

/// Whether every entry is a digest under `hash_type`, of the length of such
/// a digest, with its preimage, and no digest occurs twice.
pub open spec fn valid_preimages(hash_type: PsbtHash, entries: Seq<PreimageView>) -> bool {
    &&& forall|i: int|
        0 <= i < entries.len() ==> (#[trigger] entries[i]).hash == digest_of(
            hash_type,
            entries[i].preimage,
        ) && entries[i].hash.len() == hash_type.spec_digest_len()
    &&& forall|i: int, j: int|
        0 <= i < j < entries.len() ==> (#[trigger] entries[i]).hash != (#[trigger] entries[j]).hash
}

/// Why the pair of `key` and `value` cannot join `entries`, if it cannot.
///
/// The first of these that applies: the key has no data; its data has not
/// the length of a digest; the digest is among the entries already; the
/// value does not hash to the digest.
pub open spec fn rejection(
    hash_type: PsbtHash,
    entries: Seq<PreimageView>,
    key: KeyView,
    value: Seq<u8>,
) -> Option<ErrorView> {
    if key.key.len() == 0 {
        Some(ErrorView::InvalidKey(key))
    } else if key.key.len() != hash_type.spec_digest_len() {
        Some(
            ErrorView::HashParseError(
                HashError::InvalidLength(hash_type.spec_digest_len(), key.key.len() as usize),
            ),
        )
    } else if has_hash(entries, key.key) {
        Some(ErrorView::DuplicateKey(key))
    } else if digest_of(hash_type, value) != key.key {
        Some(ErrorView::InvalidPreimageHashPair { hash_type, preimage: value, hash: key.key })
    } else {
        None
    }
}

/// The preimages that one input holds for one hash function, in the order in
/// which they were inserted.
#[derive(Debug, PartialEq, Eq)]
pub struct PreimageMap {
    hash_type: PsbtHash,
    entries: Vec<Preimage>,
}

impl View for PreimageMap {
    type V = Seq<PreimageView>;

    closed spec fn view(&self) -> Seq<PreimageView> {
        self.entries@.map_values(|entry: Preimage| entry@)
    }
}

impl PreimageMap {
    /// The hash function of this map.
    pub closed spec fn spec_hash_type(&self) -> PsbtHash {
        self.hash_type
    }

    /// The invariant of a map: each digest is that of its preimage, and no
    /// digest occurs twice. Every map that this module hands out satisfies
    /// it.
    pub open spec fn wf(&self) -> bool {
        valid_preimages(self.spec_hash_type(), self@)
    }

    /// A map without entries for the hash function `hash_type`.
    pub fn new(hash_type: PsbtHash) -> (map: PreimageMap)
        ensures
            map@ == Seq::<PreimageView>::empty(),
            map.spec_hash_type() == hash_type,
            map.wf(),
    {
        let map = PreimageMap { hash_type, entries: Vec::new() };
        map
    }

    /// The hash function of this map.
    pub fn hash_type(&self) -> (hash_type: PsbtHash)
        ensures
            hash_type == self.spec_hash_type(),
    {
        self.hash_type
    }

    /// The number of entries in this map.
    pub fn len(&self) -> (n: usize)
        ensures
            n == self@.len(),
    {
        self.entries.len()
    }

    /// The entry at position `i`, if the map has that many entries.
    pub fn entry(&self, i: usize) -> (entry: Option<&Preimage>)
        ensures
            i < self@.len() ==> (entry matches Some(found) && found@ == self@[i as int]),
            i >= self@.len() ==> entry is None,
    {
        if i < self.entries.len() {
            Some(&self.entries[i])
        } else {
            None
        }
    }

    /// Whether the map has an entry for the digest `hash`.
    pub fn contains_hash(&self, hash: &[u8]) -> (found: bool)
        ensures
            found == has_hash(self@, hash@),
    {
        let mut i: usize = 0;
        while i < self.entries.len()
            invariant
                i <= self.entries.len(),
                forall|j: int| 0 <= j < i ==> (#[trigger] self@[j]).hash != hash@,
            decreases self.entries.len() - i,
        {
            if bytes_equal(self.entries[i].hash.as_slice(), hash) {
                assert(self@[i as int].hash == hash@);
                return true;
            }
            i = i + 1;
        }
        false
    }

    /// Adds the pair of a digest, which is the data of `raw_key`, and of its
    /// preimage `raw_value`, as they were read from an input map.
    ///
    /// The pair is refused, and the map left as it was, for the first reason
    /// that [`rejection`] gives.
    pub fn insert_pair(&mut self, raw_key: Key, raw_value: Vec<u8>) -> (done: Result<(), Error>)
        ensures
            old(self).wf() ==> final(self).wf(),
            final(self).spec_hash_type() == old(self).spec_hash_type(),
            rejection(old(self).spec_hash_type(), old(self)@, raw_key@, raw_value@) matches Some(
                reason,
            ) ==> final(self)@ == old(self)@ && (done matches Err(e) && e@ == reason),
            rejection(old(self).spec_hash_type(), old(self)@, raw_key@, raw_value@) is None ==> done
                is Ok && final(self)@ == old(self)@.push(
                PreimageView { hash: raw_key@.key, preimage: raw_value@ },
            ),
    {
        if raw_key.key.len() == 0 {
            return Err(Error::InvalidKey(raw_key));
        }
        let hash = match self.hash_type.digest_from_slice(raw_key.key.as_slice()) {
            Ok(hash) => hash,
            Err(e) => {
                return Err(Error::from(e));
            },
        };
        if self.contains_hash(hash.as_slice()) {
            return Err(Error::DuplicateKey(raw_key));
        }
        match check_preimage(self.hash_type, raw_value.as_slice(), hash.as_slice()) {
            Ok(()) => {},
            Err(e) => {
                return Err(e);
            },
        }
        self.entries.push(Preimage { hash, preimage: raw_value });
        assert(self@ =~= old(self)@.push(
            PreimageView { hash: raw_key@.key, preimage: raw_value@ },
        ));
        Ok(())
    }
}

} // verus!
