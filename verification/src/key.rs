//! Keys and key-value pairs as they come out of a PSBT map.

use vstd::prelude::*;
use vstd::string::*;
use vstd::std_specs::cmp::PartialEqSpecImpl;
use crate::bytes::{bytes_equal, copy_bytes};
use crate::text::{hex_text, prefixed_hex_text, push_hex, push_prefixed_hex};

verus! {

/// What a [`Key`] stands for: its type byte and its key data.
#[verifier::ext_equal]
pub struct KeyView {
    pub type_value: u8,
    pub key: Seq<u8>,
}

/// The decoded key of one entry of a PSBT map.
///
/// Two keys are the same key when both the type byte and the key data agree.
#[derive(Debug)]
pub struct Key {
    /// The type of this key.
    pub type_value: u8,
    /// The key data, which may be empty.
    pub key: Vec<u8>,
}

impl View for Key {
    type V = KeyView;

    open spec fn view(&self) -> KeyView {
        KeyView { type_value: self.type_value, key: self.key@ }
    }
}

impl PartialEq for Key {
    fn eq(&self, other: &Key) -> (same: bool) {
        self.type_value == other.type_value && bytes_equal(
            self.key.as_slice(),
            other.key.as_slice(),
        )
    }
}

impl PartialEqSpecImpl for Key {
    open spec fn obeys_eq_spec() -> bool {
        true
    }

    open spec fn eq_spec(&self, other: &Key) -> bool {
        self@ == other@
    }
}

impl Eq for Key {

}

impl Clone for Key {
    fn clone(&self) -> (copy: Key)
        ensures
            copy@ == self@,
    {
        Key { type_value: self.type_value, key: copy_bytes(self.key.as_slice()) }
    }
}

/// How a key reads in a diagnostic: its type in hexadecimal, then its data
/// in hexadecimal.
pub open spec fn key_text(key: KeyView) -> Seq<char> {
    "type: "@ + prefixed_hex_text(key.type_value) + ", key: "@ + hex_text(key.key)
}

impl Key {
    /// Appends the rendering of this key to `out`.
    pub fn push_text(&self, out: &mut String)
        ensures
            final(out)@ == old(out)@ + key_text(self@),
    {
        out.append("type: ");
        push_prefixed_hex(out, self.type_value);
        out.append(", key: ");
        push_hex(out, self.key.as_slice());
    }

    /// The rendering of this key.
    pub fn to_string(&self) -> (s: String)
        ensures
            s@ == key_text(self@),
    {
        let mut s = String::new();
        self.push_text(&mut s);
        s
    }
}

/// What a [`Pair`] stands for.
#[verifier::ext_equal]
pub struct PairView {
    pub key: KeyView,
    pub value: Seq<u8>,
}

/// One entry of a PSBT map: a key and the raw value stored under it.
#[derive(Debug, PartialEq, Eq)]
pub struct Pair {
    /// The key of this entry.
    pub key: Key,
    /// The value of this entry, as raw bytes.
    pub value: Vec<u8>,
}

impl View for Pair {
    type V = PairView;

    open spec fn view(&self) -> PairView {
        PairView { key: self.key@, value: self.value@ }
    }
}

impl Clone for Pair {
    fn clone(&self) -> (copy: Pair)
        ensures
            copy@ == self@,
    {
        Pair { key: self.key.clone(), value: copy_bytes(self.value.as_slice()) }
    }
}

} // verus!
