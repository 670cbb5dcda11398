//! Validation rules and error taxonomy for Partially Signed Bitcoin
//! Transactions (PSBT, BIP 174).
//!
//! A reader of the wire format hands this crate what it has read (the first
//! bytes of a stream, key-value pairs, the unsigned transaction, a sighash
//! code, a preimage with its digest) and gets back either `Ok` or exactly one
//! [`Error`] naming the rule that was broken. The first rule that is broken
//! decides: no rule recovers, and no two errors are ever reported together.
//!
//! The rules, in the order in which a reader meets them:
//!
//! - [`header`]: the magic bytes and the separator;
//! - [`parse`] and [`map`]: the shape of keys, and no key twice in a map;
//! - [`unsigned_tx`]: the global map holds an unsigned transaction, whose
//!   inputs carry no signature data, and two PSBTs that are merged are built
//!   around one transaction;
//! - [`sighash`]: a sighash code is one of the standard ones;
//! - [`preimage`]: a preimage hashes to the digest it is stored under.
//!
//! [`error`] holds the taxonomy and how each error reads, [`text`] the
//! renderings that the diagnostics are made of, [`key`] and [`transaction`]
//! the data that the rules look at, [`bytes`] two helpers on byte strings,
//! and [`hash`] the hash functions, which come from the `bitcoin_hashes`
//! crate.

pub mod bytes;
pub mod error;
pub mod hash;
pub mod header;
pub mod key;
pub mod map;
pub mod parse;
pub mod preimage;
pub mod sighash;
pub mod text;
pub mod transaction;
pub mod unsigned_tx;

pub use error::Error;
pub use hash::PsbtHash;
