//! The parts of a transaction that the PSBT rules look at.
//!
//! A PSBT is built around one unsigned transaction. The rules need to know,
//! of each of its inputs, whether the signature script and the witness are
//! empty, and they need the transaction's identifier to tell whether two
//! PSBTs speak of the same transaction. Nothing else of a transaction is
//! kept here.

use vstd::prelude::*;
use vstd::string::*;
use vstd::std_specs::cmp::PartialEqSpecImpl;
use crate::bytes::{bytes_equal, copy_bytes};
use crate::text::{hex_text, push_hex};

verus! {

/// The identifier of a transaction: the 32 bytes of its double SHA-256, in
/// the order in which the hash function emits them.
#[derive(Debug, Clone, Copy)]
pub struct Txid {
    pub bytes: [u8; 32],
}

impl View for Txid {
    type V = Seq<u8>;

    open spec fn view(&self) -> Seq<u8> {
        self.bytes@
    }
}

impl PartialEq for Txid {
    fn eq(&self, other: &Txid) -> (same: bool) {
        bytes_equal(self.bytes.as_slice(), other.bytes.as_slice())
    }
}

impl PartialEqSpecImpl for Txid {
    open spec fn obeys_eq_spec() -> bool {
        true
    }

    open spec fn eq_spec(&self, other: &Txid) -> bool {
        self@ == other@
    }
}

impl Eq for Txid {

}

/// How an identifier reads in a diagnostic: in hexadecimal, last byte first,
/// as transaction identifiers are customarily shown.
pub open spec fn txid_text(txid: Seq<u8>) -> Seq<char> {
    hex_text(txid.reverse())
}

impl Txid {
    /// Appends the rendering of this identifier to `out`.
    pub fn push_text(&self, out: &mut String)
        ensures
            final(out)@ == old(out)@ + txid_text(self@),
    {
        let mut backward: Vec<u8> = Vec::new();
        let mut i: usize = 32;
        while i > 0
            invariant
                i <= 32,
                self.bytes@.len() == 32,
                backward@.len() == 32 - i,
                forall|j: int| 0 <= j < backward@.len() ==> backward@[j] == self.bytes@[31 - j],
            decreases i,
        {
            i = i - 1;
            backward.push(self.bytes[i]);
        }
        push_hex(out, backward.as_slice());
    }

    /// The rendering of this identifier.
    pub fn to_string(&self) -> (s: String)
        ensures
            s@ == txid_text(self@),
    {
        let mut s = String::new();
        self.push_text(&mut s);
        s
    }
}

/// What a [`TxIn`] stands for.
#[verifier::ext_equal]
pub struct TxInView {
    pub script_sig: Seq<u8>,
    pub witness: Seq<Seq<u8>>,
}

/// One input of a transaction.
#[derive(Debug, PartialEq, Eq)]
pub struct TxIn {
    /// The signature script of this input.
    pub script_sig: Vec<u8>,
    /// The witness of this input, item by item.
    pub witness: Vec<Vec<u8>>,
}

impl View for TxIn {
    type V = TxInView;

    open spec fn view(&self) -> TxInView {
        TxInView {
            script_sig: self.script_sig@,
            witness: self.witness@.map_values(|item: Vec<u8>| item@),
        }
    }
}

impl Clone for TxIn {
    fn clone(&self) -> (copy: TxIn)
        ensures
            copy@ == self@,
    {
        let mut witness: Vec<Vec<u8>> = Vec::new();
        let mut i: usize = 0;
        while i < self.witness.len()
            invariant
                i <= self.witness.len(),
                witness@.len() == i,
                forall|j: int| 0 <= j < i ==> witness@[j]@ == self.witness@[j]@,
            decreases self.witness.len() - i,
        {
            witness.push(copy_bytes(self.witness[i].as_slice()));
            i = i + 1;
        }
        let copy = TxIn { script_sig: copy_bytes(self.script_sig.as_slice()), witness };
        copy
    }
}

/// What a [`Transaction`] stands for.
#[verifier::ext_equal]
pub struct TransactionView {
    pub txid: Seq<u8>,
    pub input: Seq<TxInView>,
}

/// A transaction, reduced to its identifier and its inputs.
#[derive(Debug, PartialEq, Eq)]
pub struct Transaction {
    /// The identifier of this transaction.
    pub txid: Txid,
    /// The inputs of this transaction, in order.
    pub input: Vec<TxIn>,
}

impl View for Transaction {
    type V = TransactionView;

    open spec fn view(&self) -> TransactionView {
        TransactionView { txid: self.txid@, input: self.input@.map_values(|txin: TxIn| txin@) }
    }
}

impl Clone for Transaction {
    fn clone(&self) -> (copy: Transaction)
        ensures
            copy@ == self@,
    {
        let mut input: Vec<TxIn> = Vec::new();
        let mut i: usize = 0;
        while i < self.input.len()
            invariant
                i <= self.input.len(),
                input@.len() == i,
                forall|j: int| 0 <= j < i ==> input@[j]@ == self.input@[j]@,
            decreases self.input.len() - i,
        {
            input.push(self.input[i].clone());
            i = i + 1;
        }
        let copy = Transaction { txid: self.txid, input };
        copy
    }
}

impl Transaction {
    /// The identifier of this transaction.
    pub fn txid(&self) -> (txid: Txid)
        ensures
            txid@ == self@.txid,
    {
        self.txid
    }
}

} // verus!
