//! Verification of anonymous transfers: deposit, transfer and ownership.

pub mod anonymous;
pub mod deposit;
pub mod ownership;
pub mod statement;
pub mod transfer;

pub use anonymous::{
    gas, precompile_anonymous_verify, precompile_anonymous_verify_gas, verify, Arguments,
};
pub use deposit::Deposit;
pub use ownership::OwnerShip;
pub use statement::{OwnershipStatement, Statement, TransferStatement, Verdict};
pub use transfer::{Transfer, TransferEntity};
