//! The proof that a record is owned.

use crate::abi::{
    abi_decoding, decode, shape_is_plain, shape_of, shapes_are_plain, shapes_of, spec_token_at,
    token_at, token_conforms, tokens_conform, Shape,
};
use crate::anon::statement::{conclude, spec_conclude, OwnershipStatement, Statement, Verdict};
use crate::error::Error;
use crate::utils::{
    bytes32_of, bytes_asset, bytes_of, check_address_format_from_folding,
    conforming_bytes32_are_read, conforming_bytes_are_read, into_bytes, into_bytes32, into_uint,
    spec_address_format, uint_of, FoldingInstance,
};
use ethabi::{ParamType, Token};
use vstd::prelude::*;

verus! {

/// The price of an ownership check.
pub const OWNERSHIP_PER_FEE: u64 = 75000;

#[derive(Debug, PartialEq, Eq)]
pub struct OwnerShip {
    pub root_version: u64,
    pub amount: u128,
    pub asset: Vec<u8>,
    pub nullifier: Vec<u8>,
    pub proof: Vec<u8>,
    pub merkle_root: [u8; 32],
    pub hash: Vec<u8>,
}

impl OwnerShip {
    /// The call data holds eight values,
    /// `(uint256,uint256,bytes,bytes,bytes,bytes,bytes32,bytes)`: root
    /// version, amount, asset, nullifier, proof, folding instance, merkle
    /// root and hash. The folding instance is decoded and not kept: it comes
    /// once more inside the proof.
    pub open spec fn shapes() -> Seq<Shape> {
        seq![
            Shape::Uint(256),
            Shape::Uint(256),
            Shape::Bytes,
            Shape::Bytes,
            Shape::Bytes,
            Shape::Bytes,
            Shape::FixedBytes(32),
            Shape::Bytes,
        ]
    }

    /// Whether the decoded tokens can be read: each is there and of its
    /// shape, and the two numbers fit 128 bits.
    pub open spec fn accepts(tokens: Seq<Token>) -> bool {
        &&& uint_of(spec_token_at(tokens, 0)) is Some
        &&& uint_of(spec_token_at(tokens, 1)) is Some
        &&& bytes_of(spec_token_at(tokens, 2)) is Some
        &&& bytes_of(spec_token_at(tokens, 3)) is Some
        &&& bytes_of(spec_token_at(tokens, 4)) is Some
        &&& bytes32_of(spec_token_at(tokens, 6)) is Some
        &&& bytes_of(spec_token_at(tokens, 7)) is Some
    }

    /// Whether this value holds what the decoded tokens say. Of the root
    /// version the lower 64 bits are kept.
    pub open spec fn reads(self, tokens: Seq<Token>) -> bool {
        &&& uint_of(spec_token_at(tokens, 0)) matches Some(n) && self.root_version as nat == n
            % 0x1_0000_0000_0000_0000
        &&& uint_of(spec_token_at(tokens, 1)) == Some(self.amount as nat)
        &&& bytes_of(spec_token_at(tokens, 2)) == Some(self.asset@)
        &&& bytes_of(spec_token_at(tokens, 3)) == Some(self.nullifier@)
        &&& bytes_of(spec_token_at(tokens, 4)) == Some(self.proof@)
        &&& bytes32_of(spec_token_at(tokens, 6)) == Some(self.merkle_root@)
        &&& bytes_of(spec_token_at(tokens, 7)) == Some(self.hash@)
    }

    /// What the decoder hands over is of the shapes asked for, so it is read
    /// unless one of the two numbers takes more than 128 bits.
    pub proof fn conforming_tokens_are_accepted(tokens: Seq<Token>)
        requires
            tokens_conform(tokens, Self::shapes()),
        ensures
            Self::accepts(tokens) <==> uint_of(spec_token_at(tokens, 0)) is Some && uint_of(
                spec_token_at(tokens, 1),
            ) is Some,
    {
        assert(token_conforms(tokens[2], Self::shapes()[2]));
        assert(token_conforms(tokens[3], Self::shapes()[3]));
        assert(token_conforms(tokens[4], Self::shapes()[4]));
        assert(token_conforms(tokens[6], Self::shapes()[6]));
        assert(token_conforms(tokens[7], Self::shapes()[7]));
        conforming_bytes_are_read(tokens[2]);
        conforming_bytes_are_read(tokens[3]);
        conforming_bytes_are_read(tokens[4]);
        conforming_bytes32_are_read(tokens[6]);
        conforming_bytes_are_read(tokens[7]);
    }

    fn params_type() -> (types: [ParamType; 8])
        ensures
            shapes_of(types@) == Self::shapes(),
    {
        let types = [
            ParamType::Uint(256),
            ParamType::Uint(256),
            ParamType::Bytes,
            ParamType::Bytes,
            ParamType::Bytes,
            ParamType::Bytes,
            ParamType::FixedBytes(32),
            ParamType::Bytes,
        ];
        proof {
            reveal_with_fuel(shape_of, 2);
            assert(shapes_of(types@) =~= Self::shapes());
        }
        types
    }

    /// Whether `r` is what decoding `data` gives.
    pub open spec fn decoded(data: Seq<u8>, r: Result<OwnerShip, Error>) -> bool {
        match abi_decoding(Self::shapes(), data) {
            None => r == Err::<OwnerShip, Error>(Error::ParseDataFailed),
            Some(tokens) => tokens_conform(tokens, Self::shapes()) && if Self::accepts(tokens) {
                r matches Ok(args) && args.reads(tokens)
            } else {
                r == Err::<OwnerShip, Error>(Error::ParseDataFailed)
            },
        }
    }

    /// Decodes the arguments from the bytes after the selector.
    pub fn new(data: &[u8]) -> (r: Result<OwnerShip, Error>)
        ensures
            Self::decoded(data@, r),
    {
        let types = Self::params_type();
        proof {
            reveal_with_fuel(shape_is_plain, 2);
            assert(shapes_are_plain(Self::shapes()));
        }
        let res = match decode(types.as_slice(), data) {
            Some(res) => res,
            None => { return Err(Error::ParseDataFailed); },
        };
        let root_version = (into_uint(token_at(&res, 0))? % 0x1_0000_0000_0000_0000) as u64;
        let amount = into_uint(token_at(&res, 1))?;
        let asset = into_bytes(token_at(&res, 2))?;
        let nullifier = into_bytes(token_at(&res, 3))?;
        let proof = into_bytes(token_at(&res, 4))?;
        let merkle_root = into_bytes32(token_at(&res, 6))?;
        let hash = into_bytes(token_at(&res, 7))?;
        Ok(OwnerShip { root_version, amount, asset, nullifier, proof, merkle_root, hash })
    }

    /// Whether a statement says of this value what is to be verified, for
    /// the folding instance that came with the proof.
    pub open spec fn states(self, folding: FoldingInstance, statement: OwnershipStatement) -> bool {
        &&& statement.format == spec_address_format(folding)
        &&& statement.root_version == self.root_version
        &&& statement.amount == self.amount
        &&& statement.asset.0@ == self.asset@
        &&& statement.nullifier@ == self.nullifier@
        &&& statement.merkle_root == self.merkle_root
        &&& statement.hash@ == self.hash@
        &&& statement.proof@ == self.proof@
    }

    /// Whether `r` is a result of the check that the two functions of the
    /// verifier allow: the proof must open, else `ProofDecodeFailed`; the
    /// asset must be an asset identifier, else `ParseDataFailed`; then the
    /// verdict on the statement decides.
    pub open spec fn check_allows<O, V>(self, opener: O, verifier: V, r: Result<(), Error>) -> bool
        where O: Fn(&Vec<u8>) -> Option<FoldingInstance>, V: Fn(&Statement) -> Verdict {
        exists|opened: Option<FoldingInstance>| #[trigger]
            opener.ensures((&self.proof,), opened) && match opened {
                None => r == Err::<(), Error>(Error::ProofDecodeFailed),
                Some(folding) => if self.asset@.len() != 32 {
                    r == Err::<(), Error>(Error::ParseDataFailed)
                } else {
                    exists|statement: OwnershipStatement, verdict: Verdict|
                        self.states(folding, statement) && #[trigger] verifier.ensures(
                            (&Statement::Ownership(statement),),
                            verdict,
                        ) && r == spec_conclude(verdict)
                },
            }
    }

    /// Opens the proof, checks the asset, and has the verifier decide on
    /// the statement.
    pub fn check<O, V>(self, opener: &O, verifier: &V) -> (r: Result<(), Error>)
        where O: Fn(&Vec<u8>) -> Option<FoldingInstance>, V: Fn(&Statement) -> Verdict
        requires
            forall|bytes: &Vec<u8>| opener.requires((bytes,)),
            forall|statement: &Statement| verifier.requires((statement,)),
        ensures
            self.check_allows(*opener, *verifier, r),
    {
        let opened = opener(&self.proof);
        let folding = match opened {
            Some(folding) => folding,
            None => { return Err(Error::ProofDecodeFailed); },
        };
        let format = check_address_format_from_folding(&folding);
        let asset = bytes_asset(self.asset.as_slice())?;
        let statement = Statement::Ownership(
            OwnershipStatement {
                format,
                root_version: self.root_version,
                amount: self.amount,
                asset,
                nullifier: self.nullifier,
                merkle_root: self.merkle_root,
                hash: self.hash,
                proof: self.proof,
            },
        );
        let verdict = verifier(&statement);
        conclude(verdict)
    }

    /// The price does not depend on what was decoded.
    pub fn gas(self) -> (gas: u64)
        ensures
            gas == OWNERSHIP_PER_FEE,
    {
        OWNERSHIP_PER_FEE
    }
}

} // verus!
