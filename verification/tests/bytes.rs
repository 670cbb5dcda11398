use psbt_validation::bytes::{bytes_equal, copy_bytes};

#[test]
fn equal_byte_strings() {
    assert!(bytes_equal(&[], &[]));
    assert!(bytes_equal(&[1, 2, 3], &[1, 2, 3]));
}

#[test]
fn unequal_byte_strings() {
    assert!(!bytes_equal(&[], &[0]));
    assert!(!bytes_equal(&[1, 2, 3], &[1, 2]));
    assert!(!bytes_equal(&[1, 2, 3], &[1, 2, 4]));
    assert!(!bytes_equal(&[0, 2, 3], &[1, 2, 3]));
}

#[test]
fn copy_holds_the_same_bytes() {
    assert_eq!(copy_bytes(&[]), Vec::<u8>::new());
    assert_eq!(copy_bytes(&[9, 8, 7]), vec![9, 8, 7]);
}
