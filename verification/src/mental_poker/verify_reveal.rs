//! The proof that a reveal token belongs to a masked card.

use crate::abi::{
    abi_decoding, decode, shape_is_plain, shape_of, shapes_are_plain, shapes_of, spec_token_at,
    token_at, token_conforms, tokens_conform, Shape,
};
use crate::error::Error;
use crate::mental_poker::{conclude, spec_conclude, ArgumentVerifys, Verdict};
use crate::utils::{bytes_of, conforming_bytes_are_read, into_bytes};
use ethabi::{ParamType, Token};
use vstd::prelude::*;

verus! {

/// The price of verifying a reveal token.
pub const VERIFY_REVEAL_PER_GAS: u64 = 50000;

/// The serialized parameters, public key, reveal token, masked card and proof.
#[derive(Debug, PartialEq, Eq)]
pub struct VerifyReveal {
    pub params: Vec<u8>,
    pub pub_key: Vec<u8>,
    pub reveal_token: Vec<u8>,
    pub masked: Vec<u8>,
    pub reveal_proof: Vec<u8>,
}

impl VerifyReveal {
    /// The call data holds `(bytes,bytes,bytes,bytes,bytes)`: parameters,
    /// public key, reveal token, masked card and proof, in this order.
    pub open spec fn shapes() -> Seq<Shape> {
        seq![
            Shape::Bytes,
            Shape::Bytes,
            Shape::Bytes,
            Shape::Bytes,
            Shape::Bytes,
        ]
    }

    /// Whether this value holds what the decoded tokens say.
    pub open spec fn reads(self, tokens: Seq<Token>) -> bool {
        &&& bytes_of(spec_token_at(tokens, 0)) == Some(self.params@)
        &&& bytes_of(spec_token_at(tokens, 1)) == Some(self.pub_key@)
        &&& bytes_of(spec_token_at(tokens, 2)) == Some(self.reveal_token@)
        &&& bytes_of(spec_token_at(tokens, 3)) == Some(self.masked@)
        &&& bytes_of(spec_token_at(tokens, 4)) == Some(self.reveal_proof@)
    }

    /// Whether `r` is what decoding `data` gives: the decoder's tokens read
    /// as this value, or `ParseDataFailed` where the decoder fails.
    pub open spec fn decoded(data: Seq<u8>, r: Result<VerifyReveal, Error>) -> bool {
        match abi_decoding(Self::shapes(), data) {
            None => r == Err::<VerifyReveal, Error>(Error::ParseDataFailed),
            Some(tokens) => tokens_conform(tokens, Self::shapes()) && (r matches Ok(args)
                && args.reads(tokens)),
        }
    }

    fn params_type() -> (types: [ParamType; 5])
        ensures
            shapes_of(types@) == Self::shapes(),
    {
        let types = [
            ParamType::Bytes,
            ParamType::Bytes,
            ParamType::Bytes,
            ParamType::Bytes,
            ParamType::Bytes,
        ];
        proof {
            reveal_with_fuel(shape_of, 3);
            assert(shapes_of(types@) =~= Self::shapes());
        }
        types
    }

    /// Decodes the arguments from the bytes after the selector.
    pub fn new(data: &[u8]) -> (r: Result<VerifyReveal, Error>)
        ensures
            Self::decoded(data@, r),
    {
        let types = Self::params_type();
        proof {
            reveal_with_fuel(shape_is_plain, 3);
            assert(shapes_are_plain(Self::shapes()));
        }
        let res = match decode(types.as_slice(), data) {
            Some(res) => res,
            None => { return Err(Error::ParseDataFailed); },
        };
        proof {
            assert(token_conforms(res@[0], Self::shapes()[0]));
            conforming_bytes_are_read(res@[0]);
            assert(token_conforms(res@[1], Self::shapes()[1]));
            conforming_bytes_are_read(res@[1]);
            assert(token_conforms(res@[2], Self::shapes()[2]));
            conforming_bytes_are_read(res@[2]);
            assert(token_conforms(res@[3], Self::shapes()[3]));
            conforming_bytes_are_read(res@[3]);
            assert(token_conforms(res@[4], Self::shapes()[4]));
            conforming_bytes_are_read(res@[4]);
        }
        let params = into_bytes(token_at(&res, 0))?;
        let pub_key = into_bytes(token_at(&res, 1))?;
        let reveal_token = into_bytes(token_at(&res, 2))?;
        let masked = into_bytes(token_at(&res, 3))?;
        let reveal_proof = into_bytes(token_at(&res, 4))?;
        Ok(VerifyReveal { params, pub_key, reveal_token, masked, reveal_proof })
    }

    /// Whether `r` is a result of the check that the verifier allows: what
    /// its verdict on these arguments stands for.
    pub open spec fn check_allows<V: Fn(&ArgumentVerifys) -> Verdict>(
        self,
        verifier: V,
        r: Result<(), Error>,
    ) -> bool {
        exists|verdict: Verdict| #[trigger]
            verifier.ensures((&ArgumentVerifys::VerifyReveal(self),), verdict) && r == spec_conclude(
                verdict,
            )
    }

    /// Hands the arguments to the verifier, which reads each buffer as the
    /// value it stands for and runs the protocol's check, and maps its
    /// verdict.
    pub fn check<V: Fn(&ArgumentVerifys) -> Verdict>(self, verifier: &V) -> (r: Result<(), Error>)
        requires
            forall|args: &ArgumentVerifys| verifier.requires((args,)),
        ensures
            self.check_allows(*verifier, r),
    {
        let args = ArgumentVerifys::VerifyReveal(self);
        let verdict = verifier(&args);
        conclude(verdict)
    }

    /// The price does not depend on what was decoded.
    pub fn gas(self) -> (gas: u64)
        ensures
            gas == VERIFY_REVEAL_PER_GAS,
    {
        VERIFY_REVEAL_PER_GAS
    }
}

} // verus!
