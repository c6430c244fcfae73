//! Gateway of a set of precompiled contracts: call data is routed by its
//! four-byte selector, decoded into typed arguments, priced, and handed to a
//! verifier or a computation whose answer is mapped to a status.

pub mod abi;
pub mod anemoi;
pub mod anon;
pub mod error;
pub mod mental_poker;
pub mod output;
pub mod selector;
pub mod utils;

pub use error::Error;
