//! The proof that a deck was shuffled.

use crate::abi::{
    abi_decoding, decode, shape_is_plain, shape_of, shapes_are_plain, shapes_of, spec_token_at,
    token_at, token_conforms, tokens_conform, Shape,
};
use crate::error::Error;
use crate::mental_poker::{conclude, spec_conclude, ArgumentVerifys, Verdict};
use crate::utils::{
    buffers_hold, bytes_array_of, bytes_of, conforming_bytes_are_read, into_bytes,
    into_bytes_array,
};
use ethabi::{ParamType, Token};
use vstd::prelude::*;

verus! {

/// The price of verifying a shuffle.
pub const VERIFY_SHUFFLE_PER_GAS: u64 = 50000;

/// The serialized parameters and shared key, the deck before and after, and the
/// proof.
#[derive(Debug, PartialEq, Eq)]
pub struct VerifyShuffle {
    pub params: Vec<u8>,
    pub shared_key: Vec<u8>,
    pub cur_decks: Vec<Vec<u8>>,
    pub new_decks: Vec<Vec<u8>>,
    pub shuffle_proof: Vec<u8>,
}

impl VerifyShuffle {
    /// The call data holds `(bytes,bytes,bytes[],bytes[],bytes)`: parameters,
    /// shared key, the deck before, the deck after and the proof, read from the
    /// positions 0 to 4 in this order.
    pub open spec fn shapes() -> Seq<Shape> {
        seq![
            Shape::Bytes,
            Shape::Bytes,
            Shape::Array(Box::new(Shape::Bytes)),
            Shape::Array(Box::new(Shape::Bytes)),
            Shape::Bytes,
        ]
    }

    /// Whether this value holds what the decoded tokens say.
    pub open spec fn reads(self, tokens: Seq<Token>) -> bool {
        &&& bytes_of(spec_token_at(tokens, 0)) == Some(self.params@)
        &&& bytes_of(spec_token_at(tokens, 1)) == Some(self.shared_key@)
        &&& bytes_array_of(spec_token_at(tokens, 2)) matches Some(rows) && buffers_hold(
            self.cur_decks@,
            rows,
        )
        &&& bytes_array_of(spec_token_at(tokens, 3)) matches Some(rows) && buffers_hold(
            self.new_decks@,
            rows,
        )
        &&& bytes_of(spec_token_at(tokens, 4)) == Some(self.shuffle_proof@)
    }

    /// Whether `r` is what decoding `data` gives: the decoder's tokens read
    /// as this value, or `ParseDataFailed` where the decoder fails.
    pub open spec fn decoded(data: Seq<u8>, r: Result<VerifyShuffle, Error>) -> bool {
        match abi_decoding(Self::shapes(), data) {
            None => r == Err::<VerifyShuffle, Error>(Error::ParseDataFailed),
            Some(tokens) => tokens_conform(tokens, Self::shapes()) && (r matches Ok(args)
                && args.reads(tokens)),
        }
    }

    fn params_type() -> (types: [ParamType; 5])
        ensures
            shapes_of(types@) == Self::shapes(),
    {
        let types = [
            ParamType::Bytes,
            ParamType::Bytes,
            ParamType::Array(Box::new(ParamType::Bytes)),
            ParamType::Array(Box::new(ParamType::Bytes)),
            ParamType::Bytes,
        ];
        proof {
            reveal_with_fuel(shape_of, 3);
            assert(shapes_of(types@) =~= Self::shapes());
        }
        types
    }

    /// Decodes the arguments from the bytes after the selector.
    pub fn new(data: &[u8]) -> (r: Result<VerifyShuffle, Error>)
        ensures
            Self::decoded(data@, r),
    {
        let types = Self::params_type();
        proof {
            reveal_with_fuel(shape_is_plain, 3);
            assert(shapes_are_plain(Self::shapes()));
        }
        let res = match decode(types.as_slice(), data) {
            Some(res) => res,
            None => { return Err(Error::ParseDataFailed); },
        };
        proof {
            assert(token_conforms(res@[0], Self::shapes()[0]));
            conforming_bytes_are_read(res@[0]);
            assert(token_conforms(res@[1], Self::shapes()[1]));
            conforming_bytes_are_read(res@[1]);
            assert(token_conforms(res@[2], Self::shapes()[2]));
            conforming_bytes_are_read(res@[2]);
            assert(token_conforms(res@[3], Self::shapes()[3]));
            conforming_bytes_are_read(res@[3]);
            assert(token_conforms(res@[4], Self::shapes()[4]));
            conforming_bytes_are_read(res@[4]);
        }
        let params = into_bytes(token_at(&res, 0))?;
        let shared_key = into_bytes(token_at(&res, 1))?;
        let cur_decks = into_bytes_array(token_at(&res, 2))?;
        let new_decks = into_bytes_array(token_at(&res, 3))?;
        let shuffle_proof = into_bytes(token_at(&res, 4))?;
        Ok(VerifyShuffle { params, shared_key, cur_decks, new_decks, shuffle_proof })
    }

    /// Whether `r` is a result of the check that the verifier allows: what
    /// its verdict on these arguments stands for.
    pub open spec fn check_allows<V: Fn(&ArgumentVerifys) -> Verdict>(
        self,
        verifier: V,
        r: Result<(), Error>,
    ) -> bool {
        exists|verdict: Verdict| #[trigger]
            verifier.ensures((&ArgumentVerifys::VerifyShuffle(self),), verdict) && r
                == spec_conclude(verdict)
    }

    /// Hands the arguments to the verifier, which reads each buffer as the
    /// value it stands for and runs the protocol's check, and maps its
    /// verdict.
    pub fn check<V: Fn(&ArgumentVerifys) -> Verdict>(self, verifier: &V) -> (r: Result<(), Error>)
        requires
            forall|args: &ArgumentVerifys| verifier.requires((args,)),
        ensures
            self.check_allows(*verifier, r),
    {
        let args = ArgumentVerifys::VerifyShuffle(self);
        let verdict = verifier(&args);
        conclude(verdict)
    }

    /// The price does not depend on what was decoded.
    pub fn gas(self) -> (gas: u64)
        ensures
            gas == VERIFY_SHUFFLE_PER_GAS,
    {
        VERIFY_SHUFFLE_PER_GAS
    }
}

} // verus!
