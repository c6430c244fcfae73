//! What the library hands to the proof verifier, and what it gets back.
//!
//! The verifier is a pair of functions that the caller supplies. The first
//! opens the serialized proof and says which folding instance came with it;
//! the second is given a statement, with every field typed and checked for
//! length, and answers with a verdict.

use crate::anon::deposit::Deposit;
use crate::error::Error;
use crate::utils::{AddressFormat, AssetType};
use vstd::prelude::*;

verus! {

/// What is claimed of an owned record.
#[derive(Debug, PartialEq, Eq)]
pub struct OwnershipStatement {
    pub format: AddressFormat,
    pub root_version: u64,
    pub amount: u128,
    pub asset: AssetType,
    pub nullifier: Vec<u8>,
    pub merkle_root: [u8; 32],
    pub hash: Vec<u8>,
    pub proof: Vec<u8>,
}

/// What is claimed of one transfer.
#[derive(Debug, PartialEq, Eq)]
pub struct TransferStatement {
    pub format: AddressFormat,
    pub nullifiers: Vec<[u8; 32]>,
    pub commitments: Vec<[u8; 32]>,
    pub merkle_root: [u8; 32],
    pub root_version: u64,
    pub fee: u128,
    pub fee_type: AssetType,
    pub transparent: u128,
    pub transparent_type: AssetType,
    pub memos: Vec<Vec<u8>>,
    pub hash: [u8; 32],
    pub proof: Vec<u8>,
}

/// A statement for the verifier. A batch of deposits goes to it whole, once
/// its lists are known to be of one length.
#[derive(Debug, PartialEq, Eq)]
pub enum Statement {
    Deposit(Deposit),
    Ownership(OwnershipStatement),
    Transfer(TransferStatement),
}

/// The verifier's answer to a statement.
#[derive(Clone, Copy, Debug, PartialEq, Eq, Structural)]
pub enum Verdict {
    /// The proof holds.
    Accepted,
    /// A value of the statement is not of its domain, or the statement
    /// cannot be bound into the transcript.
    Malformed,
    /// The verifier has no parameters for a statement of this size and
    /// address format.
    NoParams,
    /// The proof does not hold.
    Rejected,
}

/// The result that a verdict stands for.
pub open spec fn spec_conclude(verdict: Verdict) -> Result<(), Error> {
    match verdict {
        Verdict::Accepted => Ok(()),
        Verdict::Malformed => Err(Error::ParseDataFailed),
        Verdict::NoParams => Err(Error::FailedToLoadVerifierParams),
        Verdict::Rejected => Err(Error::ProofVerificationFailed),
    }
}

/// Maps the verifier's answer to the result of the check. Nothing of what
/// the verifier found beyond its verdict is passed on.
pub fn conclude(verdict: Verdict) -> (r: Result<(), Error>)
    ensures
        r == spec_conclude(verdict),
{
    match verdict {
        Verdict::Accepted => Ok(()),
        Verdict::Malformed => Err(Error::ParseDataFailed),
        Verdict::NoParams => Err(Error::FailedToLoadVerifierParams),
        Verdict::Rejected => Err(Error::ProofVerificationFailed),
    }
}

} // verus!
