use psbt_validation::error::Error;
use psbt_validation::hash::{HashError, PsbtHash};
use psbt_validation::key::Key;
use psbt_validation::preimage::{check_preimage, compare_digest, Preimage, PreimageMap};
use psbt_validation::text::to_hex;

const KINDS: [PsbtHash; 4] =
    [PsbtHash::Ripemd, PsbtHash::Sha256, PsbtHash::Hash160, PsbtHash::Hash256];

#[test]
fn digest_lengths() {
    assert_eq!(PsbtHash::Ripemd.digest_len(), 20);
    assert_eq!(PsbtHash::Sha256.digest_len(), 32);
    assert_eq!(PsbtHash::Hash160.digest_len(), 20);
    assert_eq!(PsbtHash::Hash256.digest_len(), 32);
}

#[test]
fn ripemd160_of_known_inputs() {
    assert_eq!(to_hex(&PsbtHash::Ripemd.hash(b"")), "9c1185a5c5e9fc54612808977ee8f548b2258d31");
    assert_eq!(to_hex(&PsbtHash::Ripemd.hash(b"abc")), "8eb208f7e05d987a9b044a8e98c6b087f15a0bfc");
}

#[test]
fn sha256_of_known_inputs() {
    assert_eq!(
        to_hex(&PsbtHash::Sha256.hash(b"")),
        "e3b0c44298fc1c149afbf4c8996fb92427ae41e4649b934ca495991b7852b855"
    );
    assert_eq!(
        to_hex(&PsbtHash::Sha256.hash(b"abc")),
        "ba7816bf8f01cfea414140de5dae2223b00361a396177a9cb410ff61f20015ad"
    );
}

#[test]
fn hash160_of_known_inputs() {
    assert_eq!(to_hex(&PsbtHash::Hash160.hash(b"")), "b472a266d0bd89c13706a4132ccfb16f7c3b9fcb");
    assert_eq!(to_hex(&PsbtHash::Hash160.hash(b"abc")), "bb1be98c142444d7a56aa3981c3942a978e4dc33");
}

#[test]
fn hash256_of_known_inputs() {
    assert_eq!(
        to_hex(&PsbtHash::Hash256.hash(b"")),
        "5df6e0e2761359d30a8275058e299fcc0381534545f55cf43e41983f5d4c9456"
    );
    assert_eq!(
        to_hex(&PsbtHash::Hash256.hash(b"abc")),
        "4f8b42c22dd3729b519ba6f68d2da7cc5b2d606d05daed5ad5128cc03e6c6358"
    );
}

#[test]
fn hash160_is_ripemd160_of_sha256() {
    for data in [&b""[..], &b"abc"[..], &[0u8; 100][..]] {
        let inner = PsbtHash::Sha256.hash(data);
        assert_eq!(PsbtHash::Hash160.hash(data), PsbtHash::Ripemd.hash(&inner));
    }
}

#[test]
fn hash256_is_sha256_of_sha256() {
    for data in [&b""[..], &b"abc"[..], &[0xffu8; 64][..]] {
        let inner = PsbtHash::Sha256.hash(data);
        assert_eq!(PsbtHash::Hash256.hash(data), PsbtHash::Sha256.hash(&inner));
    }
}

#[test]
fn digest_has_the_length_of_its_kind() {
    for kind in KINDS {
        assert_eq!(kind.hash(b"some preimage").len(), kind.digest_len());
    }
}

#[test]
fn digest_from_slice_keeps_bytes_of_the_right_length() {
    for kind in KINDS {
        let bytes: Vec<u8> = (0..kind.digest_len() as u8).collect();
        assert_eq!(kind.digest_from_slice(&bytes), Ok(bytes.clone()));
    }
}

#[test]
fn digest_from_slice_refuses_other_lengths() {
    assert_eq!(PsbtHash::Ripemd.digest_from_slice(&[]), Err(HashError::InvalidLength(20, 0)));
    assert_eq!(
        PsbtHash::Ripemd.digest_from_slice(&[0; 32]),
        Err(HashError::InvalidLength(20, 32))
    );
    assert_eq!(
        PsbtHash::Sha256.digest_from_slice(&[0; 20]),
        Err(HashError::InvalidLength(32, 20))
    );
    assert_eq!(
        PsbtHash::Hash160.digest_from_slice(&[0; 21]),
        Err(HashError::InvalidLength(20, 21))
    );
    assert_eq!(
        PsbtHash::Hash256.digest_from_slice(&[0; 31]),
        Err(HashError::InvalidLength(32, 31))
    );
}

#[test]
fn preimage_that_hashes_to_its_digest_is_accepted() {
    for kind in KINDS {
        let preimage = b"the preimage".to_vec();
        let digest = kind.hash(&preimage);
        assert_eq!(check_preimage(kind, &preimage, &digest), Ok(()));
    }
}

#[test]
fn preimage_that_does_not_hash_to_its_digest_is_refused() {
    for kind in KINDS {
        let preimage = b"the preimage".to_vec();
        let mut digest = kind.hash(&preimage);
        digest[0] ^= 1;
        assert_eq!(
            check_preimage(kind, &preimage, &digest),
            Err(Error::InvalidPreimageHashPair {
                hash_type: kind,
                preimage: preimage.clone(),
                hash: digest.clone(),
            })
        );
    }
}

#[test]
fn digest_of_another_kind_is_refused() {
    let preimage = vec![1, 2, 3];
    let digest = PsbtHash::Ripemd.hash(&preimage);
    assert_eq!(
        check_preimage(PsbtHash::Hash160, &preimage, &digest),
        Err(Error::InvalidPreimageHashPair {
            hash_type: PsbtHash::Hash160,
            preimage: vec![1, 2, 3],
            hash: digest,
        })
    );
}

#[test]
fn digest_of_wrong_length_is_refused() {
    let preimage = vec![1, 2, 3];
    let mut digest = PsbtHash::Sha256.hash(&preimage);
    digest.pop();
    assert_eq!(
        check_preimage(PsbtHash::Sha256, &preimage, &digest),
        Err(Error::InvalidPreimageHashPair {
            hash_type: PsbtHash::Sha256,
            preimage: vec![1, 2, 3],
            hash: digest,
        })
    );
}

#[test]
fn error_carries_the_claimed_digest_not_the_computed_one() {
    let claimed = vec![0u8; 32];
    match check_preimage(PsbtHash::Sha256, b"", &claimed) {
        Err(Error::InvalidPreimageHashPair { hash, preimage, hash_type }) => {
            assert_eq!(hash, claimed);
            assert_eq!(preimage, Vec::<u8>::new());
            assert_eq!(hash_type, PsbtHash::Sha256);
        }
        other => panic!("unexpected: {:?}", other),
    }
}

#[test]
fn compare_digest_goes_by_the_bytes() {
    assert_eq!(compare_digest(PsbtHash::Ripemd, &[9], &[1, 2], &[1, 2]), Ok(()));
    assert_eq!(
        compare_digest(PsbtHash::Ripemd, &[9], &[1, 2], &[1, 3]),
        Err(Error::InvalidPreimageHashPair {
            hash_type: PsbtHash::Ripemd,
            preimage: vec![9],
            hash: vec![1, 2],
        })
    );
    assert_eq!(
        compare_digest(PsbtHash::Ripemd, &[9], &[1, 2], &[1, 2, 0]),
        Err(Error::InvalidPreimageHashPair {
            hash_type: PsbtHash::Ripemd,
            preimage: vec![9],
            hash: vec![1, 2],
        })
    );
}

#[test]
fn preimage_map_takes_a_valid_pair() {
    let mut map = PreimageMap::new(PsbtHash::Sha256);
    assert_eq!(map.hash_type(), PsbtHash::Sha256);
    assert_eq!(map.len(), 0);
    let preimage = b"secret".to_vec();
    let digest = PsbtHash::Sha256.hash(&preimage);
    let key = Key { type_value: 0x0b, key: digest.clone() };
    assert_eq!(map.insert_pair(key, preimage.clone()), Ok(()));
    assert_eq!(map.len(), 1);
    assert_eq!(map.entry(0), Some(&Preimage { hash: digest.clone(), preimage }));
    assert_eq!(map.entry(1), None);
    assert!(map.contains_hash(&digest));
    assert!(!map.contains_hash(&[0; 32]));
}

#[test]
fn preimage_map_refuses_a_key_without_data() {
    let mut map = PreimageMap::new(PsbtHash::Ripemd);
    let key = Key { type_value: 0x0a, key: vec![] };
    assert_eq!(
        map.insert_pair(key, vec![1]),
        Err(Error::InvalidKey(Key { type_value: 0x0a, key: vec![] }))
    );
    assert_eq!(map.len(), 0);
}

#[test]
fn preimage_map_refuses_a_digest_of_wrong_length() {
    let mut map = PreimageMap::new(PsbtHash::Hash160);
    let key = Key { type_value: 0x0c, key: vec![0; 32] };
    assert_eq!(
        map.insert_pair(key, vec![1]),
        Err(Error::HashParseError(HashError::InvalidLength(20, 32)))
    );
    assert_eq!(map.len(), 0);
}

#[test]
fn preimage_map_refuses_a_digest_it_has() {
    let mut map = PreimageMap::new(PsbtHash::Hash256);
    let preimage = vec![7, 7, 7];
    let digest = PsbtHash::Hash256.hash(&preimage);
    assert_eq!(
        map.insert_pair(Key { type_value: 0x0d, key: digest.clone() }, preimage.clone()),
        Ok(())
    );
    assert_eq!(
        map.insert_pair(Key { type_value: 0x0d, key: digest.clone() }, preimage.clone()),
        Err(Error::DuplicateKey(Key { type_value: 0x0d, key: digest.clone() }))
    );
    assert_eq!(map.len(), 1);
}

#[test]
fn preimage_map_reports_a_duplicate_before_it_hashes() {
    let mut map = PreimageMap::new(PsbtHash::Sha256);
    let digest = PsbtHash::Sha256.hash(b"one");
    assert_eq!(
        map.insert_pair(Key { type_value: 0x0b, key: digest.clone() }, b"one".to_vec()),
        Ok(())
    );
    assert_eq!(
        map.insert_pair(Key { type_value: 0x0b, key: digest.clone() }, b"two".to_vec()),
        Err(Error::DuplicateKey(Key { type_value: 0x0b, key: digest }))
    );
}

#[test]
fn preimage_map_refuses_a_preimage_that_does_not_match() {
    let mut map = PreimageMap::new(PsbtHash::Sha256);
    let digest = PsbtHash::Sha256.hash(b"one");
    assert_eq!(
        map.insert_pair(Key { type_value: 0x0b, key: digest.clone() }, b"two".to_vec()),
        Err(Error::InvalidPreimageHashPair {
            hash_type: PsbtHash::Sha256,
            preimage: b"two".to_vec(),
            hash: digest,
        })
    );
    assert_eq!(map.len(), 0);
}
