//! Revealing a masked card with the players' tokens.

use crate::abi::{
    abi_decoding, decode, shape_is_plain, shape_of, shapes_are_plain, shapes_of, spec_token_at,
    token_at, token_conforms, tokens_conform, Shape,
};
use crate::error::Error;
use crate::mental_poker::{Arguments, Outcome};
use crate::utils::{
    buffers_hold, bytes_array_of, bytes_of, conforming_bytes_are_read, into_bytes,
    into_bytes_array,
};
use ethabi::{ParamType, Token};
use vstd::prelude::*;

verus! {

/// The price of revealing a card.
pub const REVEAL_PER_GAS: u64 = 50000;

/// The serialized reveal tokens of the players and the masked card.
#[derive(Debug, PartialEq, Eq)]
pub struct Reveal {
    pub reveal_tokens: Vec<Vec<u8>>,
    pub masked: Vec<u8>,
}

impl Reveal {
    /// The call data holds `(bytes[],bytes)`: the reveal tokens and the masked
    /// card.
    pub open spec fn shapes() -> Seq<Shape> {
        seq![
            Shape::Array(Box::new(Shape::Bytes)),
            Shape::Bytes,
        ]
    }

    /// Whether this value holds what the decoded tokens say.
    pub open spec fn reads(self, tokens: Seq<Token>) -> bool {
        &&& bytes_array_of(spec_token_at(tokens, 0)) matches Some(rows) && buffers_hold(
            self.reveal_tokens@,
            rows,
        )
        &&& bytes_of(spec_token_at(tokens, 1)) == Some(self.masked@)
    }

    /// Whether `r` is what decoding `data` gives: the decoder's tokens read
    /// as this value, or `ParseDataFailed` where the decoder fails.
    pub open spec fn decoded(data: Seq<u8>, r: Result<Reveal, Error>) -> bool {
        match abi_decoding(Self::shapes(), data) {
            None => r == Err::<Reveal, Error>(Error::ParseDataFailed),
            Some(tokens) => tokens_conform(tokens, Self::shapes()) && (r matches Ok(args)
                && args.reads(tokens)),
        }
    }

    fn params_type() -> (types: [ParamType; 2])
        ensures
            shapes_of(types@) == Self::shapes(),
    {
        let types = [
            ParamType::Array(Box::new(ParamType::Bytes)),
            ParamType::Bytes,
        ];
        proof {
            reveal_with_fuel(shape_of, 3);
            assert(shapes_of(types@) =~= Self::shapes());
        }
        types
    }

    /// Decodes the arguments from the bytes after the selector.
    pub fn new(data: &[u8]) -> (r: Result<Reveal, Error>)
        ensures
            Self::decoded(data@, r),
    {
        let types = Self::params_type();
        proof {
            reveal_with_fuel(shape_is_plain, 3);
            assert(shapes_are_plain(Self::shapes()));
        }
        let res = match decode(types.as_slice(), data) {
            Some(res) => res,
            None => { return Err(Error::ParseDataFailed); },
        };
        proof {
            assert(token_conforms(res@[0], Self::shapes()[0]));
            conforming_bytes_are_read(res@[0]);
            assert(token_conforms(res@[1], Self::shapes()[1]));
            conforming_bytes_are_read(res@[1]);
        }
        let reveal_tokens = into_bytes_array(token_at(&res, 0))?;
        let masked = into_bytes(token_at(&res, 1))?;
        Ok(Reveal { reveal_tokens, masked })
    }

    /// The result that an outcome of the computation stands for.
    pub open spec fn spec_conclude(outcome: Outcome) -> Result<Vec<u8>, Error> {
        match outcome {
            Outcome::Done(bytes) => Ok(bytes),
            Outcome::Malformed => Err(Error::DeserializeError),
            Outcome::Failed => Err(Error::ExecError),
            Outcome::Unserializable => Err(Error::SerializeError),
        }
    }

    /// Whether `r` is a result that the backend allows: what its outcome on
    /// these arguments stands for.
    pub open spec fn check_allows<B: Fn(&Arguments) -> Outcome>(
        self,
        backend: B,
        r: Result<Vec<u8>, Error>,
    ) -> bool {
        exists|outcome: Outcome| #[trigger]
            backend.ensures((&Arguments::Reveal(self),), outcome) && r == Self::spec_conclude(outcome)
    }

    /// Hands the arguments to the backend, which reads each buffer as the
    /// value it stands for, computes, and writes the result in its canonical
    /// compressed form; then maps its outcome.
    pub fn check<B: Fn(&Arguments) -> Outcome>(self, backend: &B) -> (r: Result<Vec<u8>, Error>)
        requires
            forall|args: &Arguments| backend.requires((args,)),
        ensures
            self.check_allows(*backend, r),
    {
        let args = Arguments::Reveal(self);
        match backend(&args) {
            Outcome::Done(bytes) => Ok(bytes),
            Outcome::Malformed => Err(Error::DeserializeError),
            Outcome::Failed => Err(Error::ExecError),
            Outcome::Unserializable => Err(Error::SerializeError),
        }
    }

    /// The price does not depend on what was decoded.
    pub fn gas(self) -> (gas: u64)
        ensures
            gas == REVEAL_PER_GAS,
    {
        REVEAL_PER_GAS
    }
}

} // verus!
