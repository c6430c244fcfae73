//! The card protocol: verification and execution.
//!
//! The protocol's own work is done by a backend that the caller supplies: a
//! function that is given the decoded arguments, reads each buffer as the
//! value it stands for, and runs the protocol. Only the aggregate of public
//! keys is computed here.

pub mod compute_aggregate_key;
pub mod mask;
pub mod reveal_card;
pub mod utils;
pub mod verify_key_ownership;
pub mod verify_reveal;
pub mod verify_shuffle;

pub use compute_aggregate_key::ComputeAggregateKey;
pub use mask::Mask;
pub use reveal_card::Reveal;
pub use verify_key_ownership::VerifyKeyOwnership;
pub use verify_reveal::VerifyReveal;
pub use verify_shuffle::VerifyShuffle;

use crate::error::{spec_status, Error};
use crate::output::{fitted, price_or_zero, status, write_output};
use crate::selector::{arguments_of, has_selector, starts_with};
use vstd::prelude::*;

verus! {

/// `verifyKeyOwnership(bytes,bytes,bytes,bytes)`
pub const VERIFY_KEY_OWNERSHIP: [u8; 4] = [0x39, 0x31, 0xf6, 0x49];

/// `verifyReveal(bytes,bytes,bytes,bytes,bytes)`
pub const VERIFY_REVEAL: [u8; 4] = [0x9c, 0xa8, 0x0d, 0x77];

/// `computeAggregateKey(bytes[])`
pub const COMPUTE_AGGREGATE_KEY: [u8; 4] = [0x5b, 0x2b, 0xfe, 0xc7];

/// `verifyShuffle(bytes,bytes,bytes[],bytes[],bytes)`
pub const VERIFY_SHUFFLE: [u8; 4] = [0x2a, 0x37, 0x98, 0x65];

/// `reveal(bytes[],bytes)`
pub const REVEAL: [u8; 4] = [0x6a, 0x33, 0xd6, 0x52];

/// `mask(bytes,bytes,bytes)`
pub const MASK: [u8; 4] = [0x5a, 0x88, 0x90, 0xbc];

/// The price of every operation of the protocol.
pub const PER_GAS: u64 = 50000;

/// The backend's answer to a verification.
#[derive(Clone, Copy, Debug, PartialEq, Eq, Structural)]
pub enum Verdict {
    /// The proof holds.
    Accepted,
    /// A buffer is not read as the value it stands for.
    Malformed,
    /// The proof does not hold.
    Rejected,
}

/// The backend's answer to a computation.
#[derive(Debug, PartialEq, Eq)]
pub enum Outcome {
    /// The result, in its canonical compressed form.
    Done(Vec<u8>),
    /// A buffer is not read as the value it stands for.
    Malformed,
    /// The computation failed.
    Failed,
    /// The result cannot be written.
    Unserializable,
}

/// The result that a verdict stands for.
pub open spec fn spec_conclude(verdict: Verdict) -> Result<(), Error> {
    match verdict {
        Verdict::Accepted => Ok(()),
        Verdict::Malformed => Err(Error::DeserializeError),
        Verdict::Rejected => Err(Error::ProofVerificationFailed),
    }
}

/// Maps the backend's verdict to the result of the check. Nothing of what the
/// backend found beyond its verdict is passed on.
pub fn conclude(verdict: Verdict) -> (r: Result<(), Error>)
    ensures
        r == spec_conclude(verdict),
{
    match verdict {
        Verdict::Accepted => Ok(()),
        Verdict::Malformed => Err(Error::DeserializeError),
        Verdict::Rejected => Err(Error::ProofVerificationFailed),
    }
}

/// The decoded arguments of a verification.
#[derive(Debug, PartialEq, Eq)]
pub enum ArgumentVerifys {
    VerifyKeyOwnership(VerifyKeyOwnership),
    VerifyReveal(VerifyReveal),
    VerifyShuffle(VerifyShuffle),
}

/// The verifications of the protocol.
#[derive(Clone, Copy, Debug, PartialEq, Eq, Structural)]
pub enum Verification {
    KeyOwnership,
    Reveal,
    Shuffle,
}

/// The verification that the first four bytes select: byte for byte one of
/// the three selectors, else `UnknownSelector`; data of fewer than four bytes
/// has no selector.
pub open spec fn route_verify(data: Seq<u8>) -> Result<Verification, Error> {
    if data.len() < 4 {
        Err(Error::WrongSelectorLength)
    } else if has_selector(data, VERIFY_KEY_OWNERSHIP) {
        Ok(Verification::KeyOwnership)
    } else if has_selector(data, VERIFY_REVEAL) {
        Ok(Verification::Reveal)
    } else if has_selector(data, VERIFY_SHUFFLE) {
        Ok(Verification::Shuffle)
    } else {
        Err(Error::UnknownSelector)
    }
}

impl ArgumentVerifys {
    /// Whether `r` is what routing and decoding `data` gives: the error of
    /// the routing, or what the selected decoder makes of the bytes after
    /// the selector.
    pub open spec fn decoded(data: Seq<u8>, r: Result<ArgumentVerifys, Error>) -> bool {
        match route_verify(data) {
            Err(e) => r == Err::<ArgumentVerifys, Error>(e),
            Ok(Verification::KeyOwnership) => match r {
                Ok(ArgumentVerifys::VerifyKeyOwnership(args)) => VerifyKeyOwnership::decoded(
                    data.skip(4),
                    Ok(args),
                ),
                Ok(_) => false,
                Err(e) => VerifyKeyOwnership::decoded(data.skip(4), Err(e)),
            },
            Ok(Verification::Reveal) => match r {
                Ok(ArgumentVerifys::VerifyReveal(args)) => VerifyReveal::decoded(
                    data.skip(4),
                    Ok(args),
                ),
                Ok(_) => false,
                Err(e) => VerifyReveal::decoded(data.skip(4), Err(e)),
            },
            Ok(Verification::Shuffle) => match r {
                Ok(ArgumentVerifys::VerifyShuffle(args)) => VerifyShuffle::decoded(
                    data.skip(4),
                    Ok(args),
                ),
                Ok(_) => false,
                Err(e) => VerifyShuffle::decoded(data.skip(4), Err(e)),
            },
        }
    }

    /// Routes the call data by its selector and decodes what follows it.
    pub fn new(data: &[u8]) -> (r: Result<ArgumentVerifys, Error>)
        ensures
            Self::decoded(data@, r),
    {
        if data.len() < 4 {
            return Err(Error::WrongSelectorLength);
        }
        let rest = arguments_of(data);
        if starts_with(data, VERIFY_KEY_OWNERSHIP) {
            match VerifyKeyOwnership::new(rest) {
                Ok(args) => Ok(ArgumentVerifys::VerifyKeyOwnership(args)),
                Err(e) => Err(e),
            }
        } else if starts_with(data, VERIFY_REVEAL) {
            match VerifyReveal::new(rest) {
                Ok(args) => Ok(ArgumentVerifys::VerifyReveal(args)),
                Err(e) => Err(e),
            }
        } else if starts_with(data, VERIFY_SHUFFLE) {
            match VerifyShuffle::new(rest) {
                Ok(args) => Ok(ArgumentVerifys::VerifyShuffle(args)),
                Err(e) => Err(e),
            }
        } else {
            Err(Error::UnknownSelector)
        }
    }

    /// Whether `r` is a result of the check that the verifier allows: what
    /// its verdict on these arguments stands for.
    pub open spec fn check_allows<V: Fn(&ArgumentVerifys) -> Verdict>(
        self,
        verifier: V,
        r: Result<(), Error>,
    ) -> bool {
        exists|verdict: Verdict| #[trigger]
            verifier.ensures((&self,), verdict) && r == spec_conclude(verdict)
    }

    /// Hands the arguments to the verifier and maps its verdict.
    pub fn check<V: Fn(&ArgumentVerifys) -> Verdict>(self, verifier: &V) -> (r: Result<(), Error>)
        requires
            forall|args: &ArgumentVerifys| verifier.requires((args,)),
        ensures
            self.check_allows(*verifier, r),
    {
        match self {
            ArgumentVerifys::VerifyKeyOwnership(v) => v.check(verifier),
            ArgumentVerifys::VerifyReveal(v) => v.check(verifier),
            ArgumentVerifys::VerifyShuffle(v) => v.check(verifier),
        }
    }

    /// The one price of the protocol.
    pub fn gas(self) -> (gas: u64)
        ensures
            gas == PER_GAS,
    {
        match self {
            ArgumentVerifys::VerifyKeyOwnership(v) => v.gas(),
            ArgumentVerifys::VerifyReveal(v) => v.gas(),
            ArgumentVerifys::VerifyShuffle(v) => v.gas(),
        }
    }
}

/// The decoded arguments of a computation.
#[derive(Debug, PartialEq, Eq)]
pub enum Arguments {
    ComputeAggregateKey(ComputeAggregateKey),
    Reveal(Reveal),
    Mask(Mask),
}

/// The computations of the protocol.
#[derive(Clone, Copy, Debug, PartialEq, Eq, Structural)]
pub enum Computation {
    AggregateKey,
    Reveal,
    Mask,
}

/// The computation that the first four bytes select: byte for byte one of
/// the three selectors, else `UnknownSelector`; data of fewer than four bytes
/// has no selector.
pub open spec fn route_exec(data: Seq<u8>) -> Result<Computation, Error> {
    if data.len() < 4 {
        Err(Error::WrongSelectorLength)
    } else if has_selector(data, COMPUTE_AGGREGATE_KEY) {
        Ok(Computation::AggregateKey)
    } else if has_selector(data, REVEAL) {
        Ok(Computation::Reveal)
    } else if has_selector(data, MASK) {
        Ok(Computation::Mask)
    } else {
        Err(Error::UnknownSelector)
    }
}

impl Arguments {
    /// Whether `r` is what routing and decoding `data` gives: the error of
    /// the routing, or what the selected decoder makes of the bytes after
    /// the selector.
    pub open spec fn decoded(data: Seq<u8>, r: Result<Arguments, Error>) -> bool {
        match route_exec(data) {
            Err(e) => r == Err::<Arguments, Error>(e),
            Ok(Computation::AggregateKey) => match r {
                Ok(Arguments::ComputeAggregateKey(args)) => ComputeAggregateKey::decoded(
                    data.skip(4),
                    Ok(args),
                ),
                Ok(_) => false,
                Err(e) => ComputeAggregateKey::decoded(data.skip(4), Err(e)),
            },
            Ok(Computation::Reveal) => match r {
                Ok(Arguments::Reveal(args)) => Reveal::decoded(data.skip(4), Ok(args)),
                Ok(_) => false,
                Err(e) => Reveal::decoded(data.skip(4), Err(e)),
            },
            Ok(Computation::Mask) => match r {
                Ok(Arguments::Mask(args)) => Mask::decoded(data.skip(4), Ok(args)),
                Ok(_) => false,
                Err(e) => Mask::decoded(data.skip(4), Err(e)),
            },
        }
    }

    /// Routes the call data by its selector and decodes what follows it.
    pub fn new(data: &[u8]) -> (r: Result<Arguments, Error>)
        ensures
            Self::decoded(data@, r),
    {
        if data.len() < 4 {
            return Err(Error::WrongSelectorLength);
        }
        let rest = arguments_of(data);
        if starts_with(data, COMPUTE_AGGREGATE_KEY) {
            match ComputeAggregateKey::new(rest) {
                Ok(args) => Ok(Arguments::ComputeAggregateKey(args)),
                Err(e) => Err(e),
            }
        } else if starts_with(data, REVEAL) {
            match Reveal::new(rest) {
                Ok(args) => Ok(Arguments::Reveal(args)),
                Err(e) => Err(e),
            }
        } else if starts_with(data, MASK) {
            match Mask::new(rest) {
                Ok(args) => Ok(Arguments::Mask(args)),
                Err(e) => Err(e),
            }
        } else {
            Err(Error::UnknownSelector)
        }
    }

    /// Whether `r` is a result of the computation that the backend allows.
    /// The aggregate of public keys does not depend on the backend.
    pub open spec fn exec_allows<B: Fn(&Arguments) -> Outcome>(
        self,
        backend: B,
        r: Result<Vec<u8>, Error>,
    ) -> bool {
        match self {
            Arguments::ComputeAggregateKey(args) => args.check_gives(r),
            Arguments::Reveal(args) => args.check_allows(backend, r),
            Arguments::Mask(args) => args.check_allows(backend, r),
        }
    }

    /// Computes: the aggregate of public keys here, a reveal or a mask
    /// through the backend.
    pub fn exec<B: Fn(&Arguments) -> Outcome>(self, backend: &B) -> (r: Result<Vec<u8>, Error>)
        requires
            forall|args: &Arguments| backend.requires((args,)),
        ensures
            self.exec_allows(*backend, r),
    {
        match self {
            Arguments::ComputeAggregateKey(v) => v.check(),
            Arguments::Reveal(v) => v.check(backend),
            Arguments::Mask(v) => v.check(backend),
        }
    }

    /// The one price of the protocol.
    pub fn gas(self) -> (gas: u64)
        ensures
            gas == PER_GAS,
    {
        match self {
            Arguments::ComputeAggregateKey(v) => v.gas(),
            Arguments::Reveal(v) => v.gas(),
            Arguments::Mask(v) => v.gas(),
        }
    }
}

/// The error that routing and decoding the data of a verification ends
/// with, if any.
pub open spec fn verify_decode_error(data: Seq<u8>) -> Option<Error> {
    match route_verify(data) {
        Err(e) => Some(e),
        Ok(op) => {
            let shapes = match op {
                Verification::KeyOwnership => VerifyKeyOwnership::shapes(),
                Verification::Reveal => VerifyReveal::shapes(),
                Verification::Shuffle => VerifyShuffle::shapes(),
            };
            if crate::abi::abi_decoding(shapes, data.skip(4)) is None {
                Some(Error::ParseDataFailed)
            } else {
                None
            }
        },
    }
}

/// The error that routing and decoding the data of a computation ends with,
/// if any.
pub open spec fn exec_decode_error(data: Seq<u8>) -> Option<Error> {
    match route_exec(data) {
        Err(e) => Some(e),
        Ok(op) => {
            let shapes = match op {
                Computation::AggregateKey => ComputeAggregateKey::shapes(),
                Computation::Reveal => Reveal::shapes(),
                Computation::Mask => Mask::shapes(),
            };
            if crate::abi::abi_decoding(shapes, data.skip(4)) is None {
                Some(Error::ParseDataFailed)
            } else {
                None
            }
        },
    }
}

/// The price of a verification: the one price of the protocol wherever the
/// data routes and decodes, else the error. The backend is not asked.
pub fn verify_gas(data: &[u8]) -> (r: Result<u64, Error>)
    ensures
        r == (match verify_decode_error(data@) {
            Some(e) => Err::<u64, Error>(e),
            None => Ok::<u64, Error>(PER_GAS),
        }),
{
    Ok(ArgumentVerifys::new(data)?.gas())
}

/// The price of a computation: the one price of the protocol wherever the
/// data routes and decodes, else the error. The backend is not asked.
pub fn exec_gas(data: &[u8]) -> (r: Result<u64, Error>)
    ensures
        r == (match exec_decode_error(data@) {
            Some(e) => Err::<u64, Error>(e),
            None => Ok::<u64, Error>(PER_GAS),
        }),
{
    Ok(Arguments::new(data)?.gas())
}

/// Routes and decodes the call data, then has the backend verify it.
pub fn check<V: Fn(&ArgumentVerifys) -> Verdict>(data: &[u8], verifier: &V) -> (r: Result<
    (),
    Error,
>)
    requires
        forall|args: &ArgumentVerifys| verifier.requires((args,)),
    ensures
        match verify_decode_error(data@) {
            Some(e) => r == Err::<(), Error>(e),
            None => exists|args: ArgumentVerifys| #[trigger]
                ArgumentVerifys::decoded(data@, Ok(args)) && args.check_allows(*verifier, r),
        },
{
    let args = ArgumentVerifys::new(data)?;
    args.check(verifier)
}

/// Routes and decodes the call data, then computes: the aggregate of public
/// keys here, a reveal or a mask through the backend.
pub fn exec<B: Fn(&Arguments) -> Outcome>(data: &[u8], backend: &B) -> (r: Result<Vec<u8>, Error>)
    requires
        forall|args: &Arguments| backend.requires((args,)),
    ensures
        match exec_decode_error(data@) {
            Some(e) => r == Err::<Vec<u8>, Error>(e),
            None => exists|args: Arguments| #[trigger]
                Arguments::decoded(data@, Ok(args)) && args.exec_allows(*backend, r),
        },
{
    let args = Arguments::new(data)?;
    args.exec(backend)
}

/// The entry point of the verifications: the status byte of `check`.
pub fn precompile_mental_pokey_verify<V: Fn(&ArgumentVerifys) -> Verdict>(
    data: &[u8],
    verifier: &V,
) -> (code: u8)
    requires
        forall|args: &ArgumentVerifys| verifier.requires((args,)),
    ensures
        match verify_decode_error(data@) {
            Some(e) => code == e.spec_code(),
            None => exists|args: ArgumentVerifys, r: Result<(), Error>|
                ArgumentVerifys::decoded(data@, Ok(args)) && #[trigger] args.check_allows(
                    *verifier,
                    r,
                ) && code == spec_status(r),
        },
{
    let r = check(data, verifier);
    status(&r)
}

/// The entry point of the computations: the status byte of `exec`. Where it
/// is 0 the result was written to the slot, cut or padded to its length;
/// elsewhere the slot is as it was.
pub fn precompile_mental_pokey_exec<B: Fn(&Arguments) -> Outcome>(
    data: &[u8],
    ret: &mut [u8; 32],
    backend: &B,
) -> (code: u8)
    requires
        forall|args: &Arguments| backend.requires((args,)),
    ensures
        match exec_decode_error(data@) {
            Some(e) => code == e.spec_code() && *final(ret) == *old(ret),
            None => exists|args: Arguments, r: Result<Vec<u8>, Error>|
                Arguments::decoded(data@, Ok(args)) && #[trigger] args.exec_allows(*backend, r)
                    && code == spec_status(r) && match r {
                    Ok(bytes) => final(ret)@ == fitted(bytes@),
                    Err(_) => *final(ret) == *old(ret),
                },
        },
{
    match exec(data, backend) {
        Ok(v) => {
            write_output(ret, v.as_slice());
            let ghost r = Ok::<Vec<u8>, Error>(v);
            assert(spec_status(r) == 0);
            0
        },
        Err(e) => e.code(),
    }
}

/// The price of a verification, or 0 where the call data does not route or
/// decode.
pub fn precompile_mental_pokey_verify_gas(data: &[u8]) -> (gas: u64)
    ensures
        gas == if verify_decode_error(data@) is None {
            PER_GAS
        } else {
            0
        },
{
    price_or_zero(verify_gas(data))
}

/// The price of a computation, or 0 where the call data does not route or
/// decode.
pub fn precompile_mental_pokey_exec_gas(data: &[u8]) -> (gas: u64)
    ensures
        gas == if exec_decode_error(data@) is None {
            PER_GAS
        } else {
            0
        },
{
    price_or_zero(exec_gas(data))
}

/// Call data of fewer than four bytes has no selector: the verifications and
/// the computations refuse it with `WrongSelectorLength`, and nothing of it
/// is decoded.
pub proof fn short_data_is_refused(data: Seq<u8>)
    requires
        data.len() < 4,
    ensures
        verify_decode_error(data) == Some(Error::WrongSelectorLength),
        exec_decode_error(data) == Some(Error::WrongSelectorLength),
        forall|r: Result<ArgumentVerifys, Error>| #[trigger]
            ArgumentVerifys::decoded(data, r) ==> r == Err::<ArgumentVerifys, Error>(
                Error::WrongSelectorLength,
            ),
        forall|r: Result<Arguments, Error>| #[trigger]
            Arguments::decoded(data, r) ==> r == Err::<Arguments, Error>(
                Error::WrongSelectorLength,
            ),
{
}

/// Call data whose first four bytes are none of the family's selectors is
/// refused with `UnknownSelector`, whatever follows them.
pub proof fn unknown_selector_is_refused(data: Seq<u8>)
    requires
        data.len() >= 4,
    ensures
        !has_selector(data, VERIFY_KEY_OWNERSHIP) && !has_selector(data, VERIFY_REVEAL)
            && !has_selector(data, VERIFY_SHUFFLE) ==> verify_decode_error(data) == Some(
            Error::UnknownSelector,
        ),
        !has_selector(data, COMPUTE_AGGREGATE_KEY) && !has_selector(data, REVEAL) && !has_selector(
            data,
            MASK,
        ) ==> exec_decode_error(data) == Some(Error::UnknownSelector),
{
}

/// Routing and decoding are settled by the call data: two results that the
/// same data allows fail together, with the same error, or succeed together.
pub proof fn decoding_is_settled(
    data: Seq<u8>,
    first: Result<ArgumentVerifys, Error>,
    second: Result<ArgumentVerifys, Error>,
    third: Result<Arguments, Error>,
    fourth: Result<Arguments, Error>,
)
    ensures
        ArgumentVerifys::decoded(data, first) && ArgumentVerifys::decoded(data, second) ==> (first
            is Err <==> second is Err) && (first matches Err(e) ==> verify_decode_error(data)
            == Some(e) && second == Err::<ArgumentVerifys, Error>(e)),
        Arguments::decoded(data, third) && Arguments::decoded(data, fourth) ==> (third is Err
            <==> fourth is Err) && (third matches Err(e) ==> exec_decode_error(data) == Some(e)
            && fourth == Err::<Arguments, Error>(e)),
{
}

} // verus!
