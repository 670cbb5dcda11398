//! The standard signature-hash types.

use vstd::prelude::*;
use crate::error::{Error, ErrorView};

verus! {

/// How a signature covers a transaction: one of the six standard types.
#[derive(Debug, Clone, Copy, PartialEq, Eq, Structural)]
pub enum SigHashType {
    /// 0x01: sign all outputs.
    All,
    /// 0x02: sign no output.
    NoOutputs,
    /// 0x03: sign the output whose index equals the input's.
    Single,
    /// 0x81: sign all outputs, and this input only.
    AllPlusAnyoneCanPay,
    /// 0x82: sign no output, and this input only.
    NoOutputsPlusAnyoneCanPay,
    /// 0x83: sign one output, and this input only.
    SinglePlusAnyoneCanPay,
}

/// Whether `code` is the code of a standard signature-hash type.
pub open spec fn is_standard_sighash(code: u32) -> bool {
    code == 0x01 || code == 0x02 || code == 0x03 || code == 0x81 || code == 0x82 || code == 0x83
}

impl SigHashType {
    /// The code of this type.
    pub open spec fn spec_as_u32(self) -> u32 {
        match self {
            SigHashType::All => 0x01,
            SigHashType::NoOutputs => 0x02,
            SigHashType::Single => 0x03,
            SigHashType::AllPlusAnyoneCanPay => 0x81,
            SigHashType::NoOutputsPlusAnyoneCanPay => 0x82,
            SigHashType::SinglePlusAnyoneCanPay => 0x83,
        }
    }

    /// The code of this type.
    #[verifier::when_used_as_spec(spec_as_u32)]
    pub fn as_u32(self) -> (code: u32)
        ensures
            code == self.spec_as_u32(),
            is_standard_sighash(code),
    {
        match self {
            SigHashType::All => 0x01,
            SigHashType::NoOutputs => 0x02,
            SigHashType::Single => 0x03,
            SigHashType::AllPlusAnyoneCanPay => 0x81,
            SigHashType::NoOutputsPlusAnyoneCanPay => 0x82,
            SigHashType::SinglePlusAnyoneCanPay => 0x83,
        }
    }

    /// Decodes the code of a signature-hash type as it is read from a PSBT
    /// input: the standard codes give their type, and any other code is
    /// refused and handed back in the error.
    pub fn from_u32_standard(code: u32) -> (decoded: Result<SigHashType, Error>)
        ensures
            is_standard_sighash(code) ==> (decoded matches Ok(t) && t.spec_as_u32() == code),
            !is_standard_sighash(code) ==> (decoded matches Err(e) && e@
                == ErrorView::NonStandardSigHashType(code)),
    {
        match code {
            0x01 => Ok(SigHashType::All),
            0x02 => Ok(SigHashType::NoOutputs),
            0x03 => Ok(SigHashType::Single),
            0x81 => Ok(SigHashType::AllPlusAnyoneCanPay),
            0x82 => Ok(SigHashType::NoOutputsPlusAnyoneCanPay),
            0x83 => Ok(SigHashType::SinglePlusAnyoneCanPay),
            _ => Err(Error::NonStandardSigHashType(code)),
        }
    }
}

/// A type is found again from its code, and two types with one code are one
/// type.
pub proof fn lemma_sighash_code_identifies_type(a: SigHashType, b: SigHashType)
    ensures
        is_standard_sighash(a.spec_as_u32()),
        a.spec_as_u32() == b.spec_as_u32() ==> a == b,
{
}

} // verus!
