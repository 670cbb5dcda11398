//! The rules on the unsigned transaction of a PSBT: there must be one, its
//! inputs must carry no signature data, and two PSBTs can only be merged when
//! they are built around the same one.

use vstd::prelude::*;
use crate::error::{Error, ErrorView};
use crate::key::{Key, KeyView, PairView};
use crate::map::{has_key, KeyValueMap};
use crate::transaction::{Transaction, TransactionView};

verus! {

/// The type of the key under which the global map holds the unsigned
/// transaction.
pub const GLOBAL_UNSIGNED_TX: u8 = 0x00;

/// The key under which the global map holds the unsigned transaction: the
/// type [`GLOBAL_UNSIGNED_TX`] with no key data.
pub open spec fn unsigned_tx_key() -> KeyView {
    KeyView { type_value: GLOBAL_UNSIGNED_TX, key: Seq::empty() }
}

/// Whether some input of `tx` has a signature script that is not empty.
pub open spec fn has_script_sig(tx: TransactionView) -> bool {
    exists|i: int| 0 <= i < tx.input.len() && (#[trigger] tx.input[i]).script_sig.len() > 0
}

/// Whether some input of `tx` has a witness that is not empty.
pub open spec fn has_script_witness(tx: TransactionView) -> bool {
    exists|i: int| 0 <= i < tx.input.len() && (#[trigger] tx.input[i]).witness.len() > 0
}

/// The serialized unsigned transaction that the global map holds, or
/// [`Error::MustHaveUnsignedTx`] where it holds none, whatever else it holds.
pub fn unsigned_tx_entry(global: &KeyValueMap) -> (entry: Result<&Vec<u8>, Error>)
    ensures
        !has_key(global@, unsigned_tx_key()) ==> (entry matches Err(e) && e@
            == ErrorView::MustHaveUnsignedTx),
        has_key(global@, unsigned_tx_key()) ==> (entry matches Ok(bytes) && exists|i: int|
            0 <= i < global@.len() && #[trigger] global@[i] == (PairView {
                key: unsigned_tx_key(),
                value: bytes@,
            })),
{
    let key = Key { type_value: GLOBAL_UNSIGNED_TX, key: Vec::new() };
    match global.get(&key) {
        Some(bytes) => Ok(bytes),
        None => Err(Error::MustHaveUnsignedTx),
    }
}

/// Refuses a transaction of which some input has a signature script.
pub fn check_script_sigs(tx: &Transaction) -> (checked: Result<(), Error>)
    ensures
        has_script_sig(tx@) ==> (checked matches Err(e) && e@
            == ErrorView::UnsignedTxHasScriptSigs),
        !has_script_sig(tx@) ==> checked is Ok,
{
    let mut i: usize = 0;
    while i < tx.input.len()
        invariant
            i <= tx.input.len(),
            forall|j: int| 0 <= j < i ==> (#[trigger] tx@.input[j]).script_sig.len() == 0,
        decreases tx.input.len() - i,
    {
        if tx.input[i].script_sig.len() > 0 {
            assert(tx@.input[i as int].script_sig.len() > 0);
            return Err(Error::UnsignedTxHasScriptSigs);
        }
        i = i + 1;
    }
    Ok(())
}

/// Refuses a transaction of which some input has a witness.
pub fn check_script_witnesses(tx: &Transaction) -> (checked: Result<(), Error>)
    ensures
        has_script_witness(tx@) ==> (checked matches Err(e) && e@
            == ErrorView::UnsignedTxHasScriptWitnesses),
        !has_script_witness(tx@) ==> checked is Ok,
{
    let mut i: usize = 0;
    while i < tx.input.len()
        invariant
            i <= tx.input.len(),
            forall|j: int| 0 <= j < i ==> (#[trigger] tx@.input[j]).witness.len() == 0,
        decreases tx.input.len() - i,
    {
        if tx.input[i].witness.len() > 0 {
            assert(tx@.input[i as int].witness.len() > 0);
            return Err(Error::UnsignedTxHasScriptWitnesses);
        }
        i = i + 1;
    }
    Ok(())
}

/// Accepts a transaction as the unsigned transaction of a PSBT when none of
/// its inputs carries a signature script or a witness.
///
/// The signature scripts of all inputs are looked at before any witness: a
/// transaction that has a signature script anywhere is refused for that, and
/// one that has none but has a witness is refused for the witness.
pub fn unsigned_tx_checks(tx: &Transaction) -> (checked: Result<(), Error>)
    ensures
        has_script_sig(tx@) ==> (checked matches Err(e) && e@
            == ErrorView::UnsignedTxHasScriptSigs),
        !has_script_sig(tx@) && has_script_witness(tx@) ==> (checked matches Err(e) && e@
            == ErrorView::UnsignedTxHasScriptWitnesses),
        !has_script_sig(tx@) && !has_script_witness(tx@) ==> checked is Ok,
{
    match check_script_sigs(tx) {
        Ok(()) => check_script_witnesses(tx),
        Err(e) => Err(e),
    }
}

/// A transaction that has passed [`unsigned_tx_checks`]: none of its inputs
/// carries a signature script or a witness.
#[derive(Debug, PartialEq, Eq)]
pub struct UnsignedTx {
    tx: Transaction,
}

impl View for UnsignedTx {
    type V = TransactionView;

    closed spec fn view(&self) -> TransactionView {
        self.tx@
    }
}

impl UnsignedTx {
    #[verifier::type_invariant]
    spec fn carries_no_signature_data(&self) -> bool {
        !has_script_sig(self.tx@) && !has_script_witness(self.tx@)
    }

    /// Takes `tx` as the unsigned transaction of a PSBT, if it passes
    /// [`unsigned_tx_checks`], and refuses it with the error of that check if
    /// it does not.
    pub fn new(tx: Transaction) -> (made: Result<UnsignedTx, Error>)
        ensures
            has_script_sig(tx@) ==> (made matches Err(e) && e@
                == ErrorView::UnsignedTxHasScriptSigs),
            !has_script_sig(tx@) && has_script_witness(tx@) ==> (made matches Err(e) && e@
                == ErrorView::UnsignedTxHasScriptWitnesses),
            !has_script_sig(tx@) && !has_script_witness(tx@) ==> (made matches Ok(unsigned)
                && unsigned@ == tx@),
    {
        match unsigned_tx_checks(&tx) {
            Ok(()) => Ok(UnsignedTx { tx }),
            Err(e) => Err(e),
        }
    }

    /// The transaction, which carries no signature data.
    pub fn transaction(&self) -> (tx: &Transaction)
        ensures
            tx@ == self@,
            !has_script_sig(tx@),
            !has_script_witness(tx@),
    {
        proof {
            use_type_invariant(self);
        }
        &self.tx
    }

    /// Gives the transaction back.
    pub fn into_transaction(self) -> (tx: Transaction)
        ensures
            tx@ == self@,
            !has_script_sig(tx@),
            !has_script_witness(tx@),
    {
        proof {
            use_type_invariant(&self);
        }
        self.tx
    }
}

/// Accepts two transactions as one when their identifiers agree, which is
/// what merging two PSBTs asks of their unsigned transactions.
///
/// Where they differ the error carries both: `expected` is the transaction of
/// the PSBT that is merged into, `actual` that of the other.
pub fn check_same_unsigned_tx(expected: &Transaction, actual: &Transaction) -> (checked: Result<
    (),
    Error,
>)
    ensures
        expected@.txid == actual@.txid ==> checked is Ok,
        expected@.txid != actual@.txid ==> (checked matches Err(e) && e@
            == ErrorView::UnexpectedUnsignedTx { expected: expected@, actual: actual@ }),
{
    if expected.txid() == actual.txid() {
        Ok(())
    } else {
        Err(Error::UnexpectedUnsignedTx { expected: expected.clone(), actual: actual.clone() })
    }
}

} // verus!
