//! The ways in which a Partially Signed Bitcoin Transaction can be invalid.

use vstd::prelude::*;
use vstd::string::*;
use vstd::std_specs::convert::FromSpecImpl;
use crate::hash::{hash_error_text, HashError, PsbtHash};
use crate::key::{key_text, Key, KeyView};
use crate::text::{decimal_text, hex_text, push_decimal, push_hex};
use crate::transaction::{txid_text, Transaction, TransactionView};

verus! {

/// Ways that a Partially Signed Transaction might fail.
#[derive(Debug, PartialEq, Eq)]
pub enum Error {
    /// Magic bytes for a PSBT must be the ASCII for "psbt" serialized in most
    /// significant byte order.
    InvalidMagic,
    /// The separator for a PSBT must be `0xff`.
    InvalidSeparator,
    /// A key of a known type must have the shape that its type asks for.
    InvalidKey(Key),
    /// Keys within key-value map should never be duplicated.
    DuplicateKey(Key),
    /// The scriptSigs for the unsigned transaction must be empty.
    UnsignedTxHasScriptSigs,
    /// The scriptWitnesses for the unsigned transaction must be empty.
    UnsignedTxHasScriptWitnesses,
    /// A PSBT must have an unsigned transaction.
    MustHaveUnsignedTx,
    /// Signals that there are no more key-value pairs in a key-value map.
    NoMorePairs,
    /// Attempting to merge with a PSBT describing a different unsigned
    /// transaction.
    UnexpectedUnsignedTx {
        /// Expected
        expected: Transaction,
        /// Actual
        actual: Transaction,
    },
    /// Unable to parse as a standard SigHash type.
    NonStandardSigHashType(u32),
    /// A byte string could not be decoded as a digest.
    HashParseError(HashError),
    /// The pre-image must hash to the corresponding psbt hash
    InvalidPreimageHashPair {
        /// Hash-type
        hash_type: PsbtHash,
        /// Pre-image
        preimage: Vec<u8>,
        /// Hash value
        hash: Vec<u8>,
    },
}

/// What an [`Error`] stands for: its variant and the data it carries.
#[verifier::ext_equal]
pub enum ErrorView {
    InvalidMagic,
    InvalidSeparator,
    InvalidKey(KeyView),
    DuplicateKey(KeyView),
    UnsignedTxHasScriptSigs,
    UnsignedTxHasScriptWitnesses,
    MustHaveUnsignedTx,
    NoMorePairs,
    UnexpectedUnsignedTx { expected: TransactionView, actual: TransactionView },
    NonStandardSigHashType(u32),
    HashParseError(HashError),
    InvalidPreimageHashPair { hash_type: PsbtHash, preimage: Seq<u8>, hash: Seq<u8> },
}

impl View for Error {
    type V = ErrorView;

    open spec fn view(&self) -> ErrorView {
        match *self {
            Error::InvalidMagic => ErrorView::InvalidMagic,
            Error::InvalidSeparator => ErrorView::InvalidSeparator,
            Error::InvalidKey(key) => ErrorView::InvalidKey(key@),
            Error::DuplicateKey(key) => ErrorView::DuplicateKey(key@),
            Error::UnsignedTxHasScriptSigs => ErrorView::UnsignedTxHasScriptSigs,
            Error::UnsignedTxHasScriptWitnesses => ErrorView::UnsignedTxHasScriptWitnesses,
            Error::MustHaveUnsignedTx => ErrorView::MustHaveUnsignedTx,
            Error::NoMorePairs => ErrorView::NoMorePairs,
            Error::UnexpectedUnsignedTx { expected, actual } => ErrorView::UnexpectedUnsignedTx {
                expected: expected@,
                actual: actual@,
            },
            Error::NonStandardSigHashType(code) => ErrorView::NonStandardSigHashType(code),
            Error::HashParseError(e) => ErrorView::HashParseError(e),
            Error::InvalidPreimageHashPair { hash_type, preimage, hash } => {
                ErrorView::InvalidPreimageHashPair { hash_type, preimage: preimage@, hash: hash@ }
            },
        }
    }
}

/// The diagnostic of an error.
///
/// Keys show their type and data in hexadecimal, transactions show their
/// identifier, numbers are decimal, and the bytes of a preimage and of its
/// digest are hexadecimal.
pub open spec fn error_text(e: ErrorView) -> Seq<char> {
    match e {
        ErrorView::InvalidMagic => "invalid magic"@,
        ErrorView::InvalidSeparator => "invalid separator"@,
        ErrorView::InvalidKey(key) => "invalid key: "@ + key_text(key),
        ErrorView::DuplicateKey(key) => "duplicate key: "@ + key_text(key),
        ErrorView::UnsignedTxHasScriptSigs => "the unsigned transaction has script sigs"@,
        ErrorView::UnsignedTxHasScriptWitnesses => "the unsigned transaction has script witnesses"@,
        ErrorView::MustHaveUnsignedTx => {
            "partially signed transactions must have an unsigned transaction"@
        },
        ErrorView::NoMorePairs => "no more key-value pairs for this psbt map"@,
        ErrorView::UnexpectedUnsignedTx { expected, actual } => {
            "different unsigned transaction: expected "@ + txid_text(expected.txid) + ", actual "@
                + txid_text(actual.txid)
        },
        ErrorView::NonStandardSigHashType(code) => "non-standard sighash type: "@ + decimal_text(
            code as nat,
        ),
        ErrorView::HashParseError(e) => "Hash Parse Error: "@ + hash_error_text(e),
        ErrorView::InvalidPreimageHashPair { hash_type, preimage, hash } => {
            "Preimage "@ + hex_text(preimage) + " does not match "@ + hash_type.spec_name()
                + " hash "@ + hex_text(hash)
        },
    }
}

impl Error {
    /// The diagnostic of this error, fit to be shown to a user.
    pub fn to_string(&self) -> (s: String)
        ensures
            s@ == error_text(self@),
    {
        match self {
            Error::InvalidKey(key) => {
                let mut s = String::from_str("invalid key: ");
                key.push_text(&mut s);
                s
            },
            Error::DuplicateKey(key) => {
                let mut s = String::from_str("duplicate key: ");
                key.push_text(&mut s);
                s
            },
            Error::UnexpectedUnsignedTx { expected, actual } => {
                let mut s = String::from_str("different unsigned transaction: expected ");
                expected.txid().push_text(&mut s);
                s.append(", actual ");
                actual.txid().push_text(&mut s);
                s
            },
            Error::NonStandardSigHashType(code) => {
                let mut s = String::from_str("non-standard sighash type: ");
                push_decimal(&mut s, *code as u64);
                s
            },
            Error::InvalidMagic => String::from_str("invalid magic"),
            Error::InvalidSeparator => String::from_str("invalid separator"),
            Error::UnsignedTxHasScriptSigs => String::from_str(
                "the unsigned transaction has script sigs",
            ),
            Error::UnsignedTxHasScriptWitnesses => String::from_str(
                "the unsigned transaction has script witnesses",
            ),
            Error::MustHaveUnsignedTx => String::from_str(
                "partially signed transactions must have an unsigned transaction",
            ),
            Error::NoMorePairs => String::from_str("no more key-value pairs for this psbt map"),
            Error::HashParseError(e) => {
                let mut s = String::from_str("Hash Parse Error: ");
                let cause = e.to_string();
                s.append(cause.as_str());
                s
            },
            Error::InvalidPreimageHashPair { hash_type, preimage, hash } => {
                let mut s = String::from_str("Preimage ");
                push_hex(&mut s, preimage.as_slice());
                s.append(" does not match ");
                s.append(hash_type.name());
                s.append(" hash ");
                push_hex(&mut s, hash.as_slice());
                s
            },
        }
    }
}

/// Whether two errors are of the same variant, whatever they carry.
pub open spec fn same_variant(a: ErrorView, b: ErrorView) -> bool {
    match a {
        ErrorView::InvalidMagic => b is InvalidMagic,
        ErrorView::InvalidSeparator => b is InvalidSeparator,
        ErrorView::InvalidKey(_) => b is InvalidKey,
        ErrorView::DuplicateKey(_) => b is DuplicateKey,
        ErrorView::UnsignedTxHasScriptSigs => b is UnsignedTxHasScriptSigs,
        ErrorView::UnsignedTxHasScriptWitnesses => b is UnsignedTxHasScriptWitnesses,
        ErrorView::MustHaveUnsignedTx => b is MustHaveUnsignedTx,
        ErrorView::NoMorePairs => b is NoMorePairs,
        ErrorView::UnexpectedUnsignedTx { .. } => b is UnexpectedUnsignedTx,
        ErrorView::NonStandardSigHashType(_) => b is NonStandardSigHashType,
        ErrorView::HashParseError(_) => b is HashParseError,
        ErrorView::InvalidPreimageHashPair { .. } => b is InvalidPreimageHashPair,
    }
}

/// The characters by which the diagnostics of different variants can be told
/// apart: every diagnostic has nine characters or more, and its first, third
/// and ninth character, with the thirty-seventh for the two diagnostics on
/// signature data, belong to one variant only.
proof fn lemma_text_marks(e: ErrorView)
    ensures
        error_text(e).len() >= 9,
        e is InvalidMagic ==> error_text(e)[0] == 'i' && error_text(e)[8] == 'm',
        e is InvalidSeparator ==> error_text(e)[0] == 'i' && error_text(e)[8] == 's',
        e is InvalidKey ==> error_text(e)[0] == 'i' && error_text(e)[8] == 'k',
        e is DuplicateKey ==> error_text(e)[0] == 'd' && error_text(e)[2] == 'p',
        e is UnsignedTxHasScriptSigs ==> error_text(e)[0] == 't' && error_text(e).len() == 40
            && error_text(e)[36] == 's',
        e is UnsignedTxHasScriptWitnesses ==> error_text(e)[0] == 't' && error_text(e).len() == 45
            && error_text(e)[36] == 'w',
        e is MustHaveUnsignedTx ==> error_text(e)[0] == 'p',
        e is NoMorePairs ==> error_text(e)[0] == 'n' && error_text(e)[2] == ' ',
        e is UnexpectedUnsignedTx ==> error_text(e)[0] == 'd' && error_text(e)[2] == 'f',
        e is NonStandardSigHashType ==> error_text(e)[0] == 'n' && error_text(e)[2] == 'n',
        e is HashParseError ==> error_text(e)[0] == 'H',
        e is InvalidPreimageHashPair ==> error_text(e)[0] == 'P',
{
    reveal_strlit("invalid magic");
    reveal_strlit("invalid separator");
    reveal_strlit("invalid key: ");
    reveal_strlit("duplicate key: ");
    reveal_strlit("the unsigned transaction has script sigs");
    reveal_strlit("the unsigned transaction has script witnesses");
    reveal_strlit("partially signed transactions must have an unsigned transaction");
    reveal_strlit("no more key-value pairs for this psbt map");
    reveal_strlit("different unsigned transaction: expected ");
    reveal_strlit("non-standard sighash type: ");
    reveal_strlit("Hash Parse Error: ");
    reveal_strlit("Preimage ");
}

/// Errors of different variants have different diagnostics, whatever they
/// carry.
pub proof fn lemma_variants_read_differently(a: ErrorView, b: ErrorView)
    requires
        !same_variant(a, b),
    ensures
        error_text(a) != error_text(b),
{
    lemma_text_marks(a);
    lemma_text_marks(b);
}

/// Errors that are the same variant and carry the same data have the same
/// diagnostic: rendering depends on nothing else.
pub proof fn lemma_rendering_is_deterministic(a: Error, b: Error)
    requires
        a@ == b@,
    ensures
        error_text(a@) == error_text(b@),
{
}

impl From<HashError> for Error {
    fn from(e: HashError) -> (wrapped: Error) {
        Error::HashParseError(e)
    }
}

impl FromSpecImpl<HashError> for Error {
    open spec fn obeys_from_spec() -> bool {
        true
    }

    open spec fn from_spec(e: HashError) -> Error {
        Error::HashParseError(e)
    }
}

} // verus!
