//! A batch of deposits into the anonymous pool.

use crate::abi::{
    abi_decoding, decode, shape_is_plain, shape_of, shapes_are_plain, shapes_of, spec_token_at,
    token_at, token_conforms, tokens_conform, Shape,
};
use crate::error::Error;
use crate::output::capped;
use crate::utils::{
    buffers_hold, bytes32_array_of, bytes_array_of, conforming_bytes32_are_read,
    conforming_bytes_are_read, into_bytes32_array, into_bytes_array, into_uint_array, rows_hold,
    uint_array_of,
};
use ethabi::{ParamType, Token};
use vstd::prelude::*;

verus! {

/// The price of one output of a deposit.
pub const DEPOSIT_PER_OUTPUT: u64 = 30000;

/// A batch of deposits, as six lists that run side by side: the asset, the
/// output commitment, the amount, the proof, the owner memo and the hash of
/// each deposit. The decoder sizes each list on its own.
#[derive(Debug, PartialEq, Eq)]
pub struct Deposit {
    pub assets: Vec<[u8; 32]>,
    pub outputs: Vec<[u8; 32]>,
    pub amounts: Vec<u128>,
    pub proofs: Vec<Vec<u8>>,
    pub memos: Vec<Vec<u8>>,
    pub hashes: Vec<[u8; 32]>,
}

impl Deposit {
    /// The call data holds six arrays,
    /// `(bytes32[],bytes32[],uint128[],bytes[],bytes[],bytes32[])`.
    pub open spec fn shapes() -> Seq<Shape> {
        seq![
            Shape::Array(Box::new(Shape::FixedBytes(32))),
            Shape::Array(Box::new(Shape::FixedBytes(32))),
            Shape::Array(Box::new(Shape::Uint(128))),
            Shape::Array(Box::new(Shape::Bytes)),
            Shape::Array(Box::new(Shape::Bytes)),
            Shape::Array(Box::new(Shape::FixedBytes(32))),
        ]
    }

    /// Whether the decoded tokens can be read: each array is there, its
    /// items are of their shape, and the amounts fit 128 bits.
    pub open spec fn accepts(tokens: Seq<Token>) -> bool {
        &&& bytes32_array_of(spec_token_at(tokens, 0)) is Some
        &&& bytes32_array_of(spec_token_at(tokens, 1)) is Some
        &&& uint_array_of(spec_token_at(tokens, 2)) is Some
        &&& bytes_array_of(spec_token_at(tokens, 3)) is Some
        &&& bytes_array_of(spec_token_at(tokens, 4)) is Some
        &&& bytes32_array_of(spec_token_at(tokens, 5)) is Some
    }

    /// Whether this value holds what the decoded tokens say.
    pub open spec fn reads(self, tokens: Seq<Token>) -> bool {
        &&& bytes32_array_of(spec_token_at(tokens, 0)) matches Some(rows) && rows_hold(
            self.assets@,
            rows,
        )
        &&& bytes32_array_of(spec_token_at(tokens, 1)) matches Some(rows) && rows_hold(
            self.outputs@,
            rows,
        )
        &&& uint_array_of(spec_token_at(tokens, 2)) matches Some(numbers) && self.amounts@.len()
            == numbers.len() && forall|i: int|
            0 <= i < numbers.len() ==> (#[trigger] self.amounts@[i]) as nat == numbers[i]
        &&& bytes_array_of(spec_token_at(tokens, 3)) matches Some(rows) && buffers_hold(
            self.proofs@,
            rows,
        )
        &&& bytes_array_of(spec_token_at(tokens, 4)) matches Some(rows) && buffers_hold(
            self.memos@,
            rows,
        )
        &&& bytes32_array_of(spec_token_at(tokens, 5)) matches Some(rows) && rows_hold(
            self.hashes@,
            rows,
        )
    }

    /// Whether `r` is what decoding `data` gives.
    pub open spec fn decoded(data: Seq<u8>, r: Result<Deposit, Error>) -> bool {
        match abi_decoding(Self::shapes(), data) {
            None => r == Err::<Deposit, Error>(Error::ParseDataFailed),
            Some(tokens) => tokens_conform(tokens, Self::shapes()) && if Self::accepts(tokens) {
                r matches Ok(args) && args.reads(tokens)
            } else {
                r == Err::<Deposit, Error>(Error::ParseDataFailed)
            },
        }
    }

    /// What the decoder hands over is of the shapes asked for, so it is read
    /// unless one of the amounts takes more than 128 bits.
    pub proof fn conforming_tokens_are_accepted(tokens: Seq<Token>)
        requires
            tokens_conform(tokens, Self::shapes()),
        ensures
            Self::accepts(tokens) <==> uint_array_of(spec_token_at(tokens, 2)) is Some,
    {
        assert(token_conforms(tokens[0], Self::shapes()[0]));
        assert(token_conforms(tokens[1], Self::shapes()[1]));
        assert(token_conforms(tokens[3], Self::shapes()[3]));
        assert(token_conforms(tokens[4], Self::shapes()[4]));
        assert(token_conforms(tokens[5], Self::shapes()[5]));
        conforming_bytes32_are_read(tokens[0]);
        conforming_bytes32_are_read(tokens[1]);
        conforming_bytes_are_read(tokens[3]);
        conforming_bytes_are_read(tokens[4]);
        conforming_bytes32_are_read(tokens[5]);
    }

    fn params_type() -> (types: [ParamType; 6])
        ensures
            shapes_of(types@) == Self::shapes(),
    {
        let types = [
            ParamType::Array(Box::new(ParamType::FixedBytes(32))),
            ParamType::Array(Box::new(ParamType::FixedBytes(32))),
            ParamType::Array(Box::new(ParamType::Uint(128))),
            ParamType::Array(Box::new(ParamType::Bytes)),
            ParamType::Array(Box::new(ParamType::Bytes)),
            ParamType::Array(Box::new(ParamType::FixedBytes(32))),
        ];
        proof {
            reveal_with_fuel(shape_of, 3);
            assert(shapes_of(types@) =~= Self::shapes());
        }
        types
    }

    /// Decodes the arguments from the bytes after the selector.
    pub fn new(data: &[u8]) -> (r: Result<Deposit, Error>)
        ensures
            Self::decoded(data@, r),
    {
        let types = Self::params_type();
        proof {
            reveal_with_fuel(shape_is_plain, 3);
            assert(shapes_are_plain(Self::shapes()));
        }
        let res = match decode(types.as_slice(), data) {
            Some(res) => res,
            None => { return Err(Error::ParseDataFailed); },
        };
        let assets = into_bytes32_array(token_at(&res, 0))?;
        let outputs = into_bytes32_array(token_at(&res, 1))?;
        let amounts = into_uint_array(token_at(&res, 2))?;
        let proofs = into_bytes_array(token_at(&res, 3))?;
        let memos = into_bytes_array(token_at(&res, 4))?;
        let hashes = into_bytes32_array(token_at(&res, 5))?;
        Ok(Deposit { assets, outputs, amounts, proofs, memos, hashes })
    }

    /// Whether the six lists are of one length.
    pub open spec fn is_aligned(self) -> bool {
        &&& self.outputs@.len() == self.assets@.len()
        &&& self.amounts@.len() == self.assets@.len()
        &&& self.proofs@.len() == self.assets@.len()
        &&& self.memos@.len() == self.assets@.len()
        &&& self.hashes@.len() == self.assets@.len()
    }

    /// Tells whether the six lists are of one length, as a deposit needs one
    /// item of each.
    pub fn aligned(&self) -> (r: bool)
        ensures
            r == self.is_aligned(),
    {
        let n = self.assets.len();
        self.outputs.len() == n && self.amounts.len() == n && self.proofs.len() == n
            && self.memos.len() == n && self.hashes.len() == n
    }

    /// The price of a batch, read from its decoded tokens.
    pub open spec fn tokens_price(tokens: Seq<Token>) -> nat {
        (DEPOSIT_PER_OUTPUT as nat) * bytes32_array_of(spec_token_at(tokens, 1)).unwrap().len()
    }

    /// The price of the batch before it is capped.
    pub open spec fn spec_gas(self) -> nat {
        (DEPOSIT_PER_OUTPUT as nat) * self.outputs@.len()
    }

    /// The price of the batch, capped at the largest 64-bit number: the
    /// price of an output times the number of outputs.
    pub fn gas(self) -> (gas: u64)
        ensures
            gas == capped(self.spec_gas()),
    {
        let outputs: u128 = self.outputs.len() as u128;
        let price: u128 = 30000 * outputs;
        if price > 0xffff_ffff_ffff_ffff {
            0xffff_ffff_ffff_ffff
        } else {
            price as u64
        }
    }
}

} // verus!
