//! Masking a card.

use crate::abi::{
    abi_decoding, decode, shape_is_plain, shape_of, shapes_are_plain, shapes_of, spec_token_at,
    token_at, token_conforms, tokens_conform, Shape,
};
use crate::error::Error;
use crate::mental_poker::{Arguments, Outcome};
use crate::utils::{bytes_of, conforming_bytes_are_read, into_bytes};
use ethabi::{ParamType, Token};
use vstd::prelude::*;

verus! {

/// The price of masking a card.
pub const MASK_PER_GAS: u64 = 50000;

/// The serialized parameters, shared key and card.
#[derive(Debug, PartialEq, Eq)]
pub struct Mask {
    pub params: Vec<u8>,
    pub shared_key: Vec<u8>,
    pub encoded: Vec<u8>,
}

impl Mask {
    /// The call data holds `(bytes,bytes,bytes)`: parameters, shared key and
    /// card, in this order.
    pub open spec fn shapes() -> Seq<Shape> {
        seq![
            Shape::Bytes,
            Shape::Bytes,
            Shape::Bytes,
        ]
    }

    /// Whether this value holds what the decoded tokens say.
    pub open spec fn reads(self, tokens: Seq<Token>) -> bool {
        &&& bytes_of(spec_token_at(tokens, 0)) == Some(self.params@)
        &&& bytes_of(spec_token_at(tokens, 1)) == Some(self.shared_key@)
        &&& bytes_of(spec_token_at(tokens, 2)) == Some(self.encoded@)
    }

    /// Whether `r` is what decoding `data` gives: the decoder's tokens read
    /// as this value, or `ParseDataFailed` where the decoder fails.
    pub open spec fn decoded(data: Seq<u8>, r: Result<Mask, Error>) -> bool {
        match abi_decoding(Self::shapes(), data) {
            None => r == Err::<Mask, Error>(Error::ParseDataFailed),
            Some(tokens) => tokens_conform(tokens, Self::shapes()) && (r matches Ok(args)
                && args.reads(tokens)),
        }
    }

    fn params_type() -> (types: [ParamType; 3])
        ensures
            shapes_of(types@) == Self::shapes(),
    {
        let types = [
            ParamType::Bytes,
            ParamType::Bytes,
            ParamType::Bytes,
        ];
        proof {
            reveal_with_fuel(shape_of, 3);
            assert(shapes_of(types@) =~= Self::shapes());
        }
        types
    }

    /// Decodes the arguments from the bytes after the selector.
    pub fn new(data: &[u8]) -> (r: Result<Mask, Error>)
        ensures
            Self::decoded(data@, r),
    {
        let types = Self::params_type();
        proof {
            reveal_with_fuel(shape_is_plain, 3);
            assert(shapes_are_plain(Self::shapes()));
        }
        let res = match decode(types.as_slice(), data) {
            Some(res) => res,
            None => { return Err(Error::ParseDataFailed); },
        };
        proof {
            assert(token_conforms(res@[0], Self::shapes()[0]));
            conforming_bytes_are_read(res@[0]);
            assert(token_conforms(res@[1], Self::shapes()[1]));
            conforming_bytes_are_read(res@[1]);
            assert(token_conforms(res@[2], Self::shapes()[2]));
            conforming_bytes_are_read(res@[2]);
        }
        let params = into_bytes(token_at(&res, 0))?;
        let shared_key = into_bytes(token_at(&res, 1))?;
        let encoded = into_bytes(token_at(&res, 2))?;
        Ok(Mask { params, shared_key, encoded })
    }

    /// The result that an outcome of the computation stands for.
    pub open spec fn spec_conclude(outcome: Outcome) -> Result<Vec<u8>, Error> {
        match outcome {
            Outcome::Done(bytes) => Ok(bytes),
            Outcome::Malformed => Err(Error::DeserializeError),
            Outcome::Failed => Err(Error::ProofVerificationFailed),
            Outcome::Unserializable => Err(Error::SerializeError),
        }
    }

    /// Whether `r` is a result that the backend allows: what its outcome on
    /// these arguments stands for.
    pub open spec fn check_allows<B: Fn(&Arguments) -> Outcome>(
        self,
        backend: B,
        r: Result<Vec<u8>, Error>,
    ) -> bool {
        exists|outcome: Outcome| #[trigger]
            backend.ensures((&Arguments::Mask(self),), outcome) && r == Self::spec_conclude(outcome)
    }

    /// Hands the arguments to the backend, which reads each buffer as the
    /// value it stands for, computes, and writes the result in its canonical
    /// compressed form; then maps its outcome.
    pub fn check<B: Fn(&Arguments) -> Outcome>(self, backend: &B) -> (r: Result<Vec<u8>, Error>)
        requires
            forall|args: &Arguments| backend.requires((args,)),
        ensures
            self.check_allows(*backend, r),
    {
        let args = Arguments::Mask(self);
        match backend(&args) {
            Outcome::Done(bytes) => Ok(bytes),
            Outcome::Malformed => Err(Error::DeserializeError),
            Outcome::Failed => Err(Error::ProofVerificationFailed),
            Outcome::Unserializable => Err(Error::SerializeError),
        }
    }

    /// The price does not depend on what was decoded.
    pub fn gas(self) -> (gas: u64)
        ensures
            gas == MASK_PER_GAS,
    {
        MASK_PER_GAS
    }
}

} // verus!
