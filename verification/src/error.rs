//! The failure kinds that cross the boundary, and their status bytes.

use vstd::prelude::*;

verus! {

/// Why a call failed. No kind carries a payload.
#[derive(Clone, Copy, Debug, PartialEq, Eq, Structural)]
pub enum Error {
    WrongSelectorLength,
    UnknownSelector,
    ParseDataFailed,
    ProofVerificationFailed,
    ProofDecodeFailed,
    FailedToLoadVerifierParams,
    FoldingDecodeFailed,
    WrongLengthOfArguments,
    UnsupportInputsOutputs,
    InputOutOfBound,
    SerializeError,
    DeserializeError,
    DecodeError,
    ExecError,
}

/// The status byte that reports success.
pub const SUCCESS: u8 = 0;

impl Error {
    /// The status byte of each kind: the kinds are numbered from 1 in the
    /// order of their declaration.
    pub open spec fn spec_code(self) -> u8 {
        match self {
            Error::WrongSelectorLength => 1,
            Error::UnknownSelector => 2,
            Error::ParseDataFailed => 3,
            Error::ProofVerificationFailed => 4,
            Error::ProofDecodeFailed => 5,
            Error::FailedToLoadVerifierParams => 6,
            Error::FoldingDecodeFailed => 7,
            Error::WrongLengthOfArguments => 8,
            Error::UnsupportInputsOutputs => 9,
            Error::InputOutOfBound => 10,
            Error::SerializeError => 11,
            Error::DeserializeError => 12,
            Error::DecodeError => 13,
            Error::ExecError => 14,
        }
    }

    pub fn code(&self) -> (code: u8)
        ensures
            code == self.spec_code(),
            1 <= code <= 14,
    {
        match self {
            Error::WrongSelectorLength => 1,
            Error::UnknownSelector => 2,
            Error::ParseDataFailed => 3,
            Error::ProofVerificationFailed => 4,
            Error::ProofDecodeFailed => 5,
            Error::FailedToLoadVerifierParams => 6,
            Error::FoldingDecodeFailed => 7,
            Error::WrongLengthOfArguments => 8,
            Error::UnsupportInputsOutputs => 9,
            Error::InputOutOfBound => 10,
            Error::SerializeError => 11,
            Error::DeserializeError => 12,
            Error::DecodeError => 13,
            Error::ExecError => 14,
        }
    }

    /// No two kinds share a status byte, and none has the byte of success.
    pub proof fn code_is_one_to_one(a: Error, b: Error)
        ensures
            a.spec_code() == b.spec_code() ==> a == b,
            a.spec_code() != SUCCESS,
    {
    }
}

/// The status byte of an outcome: 0 for success, else the failure's code.
pub open spec fn spec_status<T>(outcome: Result<T, Error>) -> u8 {
    match outcome {
        Ok(_) => SUCCESS,
        Err(e) => e.spec_code(),
    }
}

} // verus!
