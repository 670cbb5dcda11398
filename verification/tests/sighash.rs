use psbt_validation::error::Error;
use psbt_validation::sighash::SigHashType;

const STANDARD: [(u32, SigHashType); 6] = [
    (0x01, SigHashType::All),
    (0x02, SigHashType::NoOutputs),
    (0x03, SigHashType::Single),
    (0x81, SigHashType::AllPlusAnyoneCanPay),
    (0x82, SigHashType::NoOutputsPlusAnyoneCanPay),
    (0x83, SigHashType::SinglePlusAnyoneCanPay),
];

#[test]
fn standard_codes_decode_to_their_types() {
    for (code, t) in STANDARD {
        assert_eq!(SigHashType::from_u32_standard(code), Ok(t));
        assert_eq!(t.as_u32(), code);
    }
}

#[test]
fn other_codes_are_refused_with_the_code() {
    for code in [0u32, 4, 0x80, 0x84, 0x101, 0x8001, u32::MAX] {
        assert_eq!(SigHashType::from_u32_standard(code), Err(Error::NonStandardSigHashType(code)));
    }
}

#[test]
fn exactly_six_codes_below_1000_are_standard() {
    let n = (0..1000u32).filter(|code| SigHashType::from_u32_standard(*code).is_ok()).count();
    assert_eq!(n, 6);
}
