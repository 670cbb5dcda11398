use bitcoin_hashes::hex::ToHex;
use psbt_validation::error::Error;
use psbt_validation::hash::{HashError, PsbtHash};
use psbt_validation::key::Key;
use psbt_validation::text::{push_decimal, push_hex, push_prefixed_hex, to_hex};
use psbt_validation::transaction::{Transaction, TxIn, Txid};

fn counting_txid(first: u8) -> Txid {
    let mut bytes = [0u8; 32];
    for (i, b) in bytes.iter_mut().enumerate() {
        *b = first.wrapping_add(i as u8);
    }
    Txid { bytes }
}

fn transaction(first: u8) -> Transaction {
    let input = vec![TxIn { script_sig: vec![], witness: vec![] }];
    Transaction { txid: counting_txid(first), input }
}

#[test]
fn hex_of_no_bytes_is_empty() {
    assert_eq!(to_hex(&[]), "");
}

#[test]
fn hex_is_lowercase_two_digits_per_byte() {
    assert_eq!(to_hex(&[0x00, 0x0f, 0x10, 0xab, 0xff]), "000f10abff");
}

#[test]
fn hex_agrees_with_bitcoin_hashes_on_every_byte() {
    let all: Vec<u8> = (0..=255u8).collect();
    assert_eq!(to_hex(&all), all[..].to_hex());
}

#[test]
fn push_hex_appends() {
    let mut s = String::from("x=");
    push_hex(&mut s, &[0x70, 0x73, 0x62, 0x74]);
    assert_eq!(s, "x=70736274");
}

#[test]
fn decimal_of_small_and_large_numbers() {
    let mut s = String::new();
    push_decimal(&mut s, 0);
    s.push(' ');
    push_decimal(&mut s, 9);
    s.push(' ');
    push_decimal(&mut s, 10);
    s.push(' ');
    push_decimal(&mut s, 4294967295);
    s.push(' ');
    push_decimal(&mut s, u64::MAX);
    assert_eq!(s, "0 9 10 4294967295 18446744073709551615");
}

#[test]
fn decimal_agrees_with_std_formatting() {
    for n in [0u64, 1, 7, 10, 99, 100, 101, 12345, 1 << 32, u64::MAX - 1] {
        let mut s = String::new();
        push_decimal(&mut s, n);
        assert_eq!(s, format!("{}", n));
    }
}

#[test]
fn prefixed_hex_has_no_padding() {
    for b in 0..=255u8 {
        let mut s = String::new();
        push_prefixed_hex(&mut s, b);
        assert_eq!(s, format!("{:#x}", b));
    }
}

#[test]
fn key_shows_type_and_data() {
    let key = Key { type_value: 0x01, key: vec![0xde, 0xad, 0x00] };
    assert_eq!(key.to_string(), "type: 0x1, key: dead00");
    let bare = Key { type_value: 0xfc, key: vec![] };
    assert_eq!(bare.to_string(), "type: 0xfc, key: ");
}

#[test]
fn txid_is_shown_last_byte_first() {
    let txid = counting_txid(0);
    assert_eq!(
        txid.to_string(),
        "1f1e1d1c1b1a191817161514131211100f0e0d0c0b0a09080706050403020100"
    );
}

#[test]
fn txid_rendering_agrees_with_bitcoin_hashes() {
    let txid = counting_txid(0x80);
    let theirs = <bitcoin_hashes::sha256d::Hash as bitcoin_hashes::Hash>::from_inner(txid.bytes);
    assert_eq!(txid.to_string(), format!("{}", theirs));
}

#[test]
fn messages_without_data() {
    assert_eq!(Error::InvalidMagic.to_string(), "invalid magic");
    assert_eq!(Error::InvalidSeparator.to_string(), "invalid separator");
    assert_eq!(
        Error::UnsignedTxHasScriptSigs.to_string(),
        "the unsigned transaction has script sigs"
    );
    assert_eq!(
        Error::UnsignedTxHasScriptWitnesses.to_string(),
        "the unsigned transaction has script witnesses"
    );
    assert_eq!(
        Error::MustHaveUnsignedTx.to_string(),
        "partially signed transactions must have an unsigned transaction"
    );
    assert_eq!(Error::NoMorePairs.to_string(), "no more key-value pairs for this psbt map");
}

#[test]
fn message_of_invalid_key() {
    let e = Error::InvalidKey(Key { type_value: 0x00, key: vec![0x01] });
    assert_eq!(e.to_string(), "invalid key: type: 0x0, key: 01");
}

#[test]
fn message_of_duplicate_key() {
    let e = Error::DuplicateKey(Key { type_value: 0x10, key: vec![0xca, 0xfe] });
    assert_eq!(e.to_string(), "duplicate key: type: 0x10, key: cafe");
}

#[test]
fn message_of_unexpected_unsigned_tx() {
    let e = Error::UnexpectedUnsignedTx { expected: transaction(0), actual: transaction(1) };
    assert_eq!(
        e.to_string(),
        "different unsigned transaction: expected \
         1f1e1d1c1b1a191817161514131211100f0e0d0c0b0a09080706050403020100, actual \
         201f1e1d1c1b1a191817161514131211100f0e0d0c0b0a090807060504030201"
    );
}

#[test]
fn message_of_non_standard_sighash_type() {
    assert_eq!(Error::NonStandardSigHashType(0).to_string(), "non-standard sighash type: 0");
    assert_eq!(Error::NonStandardSigHashType(132).to_string(), "non-standard sighash type: 132");
    assert_eq!(
        Error::NonStandardSigHashType(u32::MAX).to_string(),
        "non-standard sighash type: 4294967295"
    );
}

#[test]
fn message_of_hash_parse_error() {
    let e = Error::HashParseError(HashError::InvalidLength(20, 3));
    assert_eq!(e.to_string(), "Hash Parse Error: bad slice length 3 (expected 20)");
}

#[test]
fn hash_error_reads_as_in_bitcoin_hashes() {
    let ours = HashError::InvalidLength(32, 1000);
    let theirs = bitcoin_hashes::Error::InvalidLength(32, 1000);
    assert_eq!(ours.to_string(), "bad slice length 1000 (expected 32)");
    assert_eq!(ours.to_string(), format!("{}", theirs));
}

#[test]
fn message_of_invalid_preimage_hash_pair() {
    let e = Error::InvalidPreimageHashPair {
        hash_type: PsbtHash::Ripemd,
        preimage: vec![0x01, 0xff],
        hash: vec![0xab; 20],
    };
    assert_eq!(
        e.to_string(),
        "Preimage 01ff does not match Ripemd hash abababababababababababababababababababab"
    );
    let e = Error::InvalidPreimageHashPair {
        hash_type: PsbtHash::Hash256,
        preimage: vec![],
        hash: vec![0x00],
    };
    assert_eq!(e.to_string(), "Preimage  does not match Hash256 hash 00");
}

#[test]
fn hash_kinds_have_their_names() {
    assert_eq!(PsbtHash::Ripemd.name(), "Ripemd");
    assert_eq!(PsbtHash::Sha256.name(), "Sha256");
    assert_eq!(PsbtHash::Hash160.name(), "Hash160");
    assert_eq!(PsbtHash::Hash256.name(), "Hash256");
}

#[test]
fn two_renderings_of_one_error_are_identical() {
    let a = Error::InvalidKey(Key { type_value: 0x06, key: vec![1, 2, 3] });
    let b = Error::InvalidKey(Key { type_value: 0x06, key: vec![1, 2, 3] });
    assert_eq!(a.to_string(), a.to_string());
    assert_eq!(a.to_string().into_bytes(), b.to_string().into_bytes());
}

#[test]
fn variants_render_differently() {
    let all = vec![
        Error::InvalidMagic,
        Error::InvalidSeparator,
        Error::InvalidKey(Key { type_value: 0, key: vec![] }),
        Error::DuplicateKey(Key { type_value: 0, key: vec![] }),
        Error::UnsignedTxHasScriptSigs,
        Error::UnsignedTxHasScriptWitnesses,
        Error::MustHaveUnsignedTx,
        Error::NoMorePairs,
        Error::UnexpectedUnsignedTx { expected: transaction(0), actual: transaction(0) },
        Error::NonStandardSigHashType(0),
        Error::HashParseError(HashError::InvalidLength(0, 0)),
        Error::InvalidPreimageHashPair {
            hash_type: PsbtHash::Sha256,
            preimage: vec![],
            hash: vec![],
        },
    ];
    for (i, a) in all.iter().enumerate() {
        for (j, b) in all.iter().enumerate() {
            if i != j {
                assert_ne!(a.to_string(), b.to_string());
            }
        }
    }
}

#[test]
fn hash_error_becomes_hash_parse_error() {
    let e = Error::from(HashError::InvalidLength(20, 21));
    assert_eq!(e, Error::HashParseError(HashError::InvalidLength(20, 21)));
}
