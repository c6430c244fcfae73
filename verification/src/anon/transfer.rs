//! A batch of anonymous transfers.

use crate::abi::{
    fits_u128, u256_value, abi_decoding, decode, shape_is_plain, shape_of, shapes_are_plain, shapes_of, spec_token_at,
    token_at, token_conforms, tokens_conform, Shape,
};
use crate::anon::statement::{conclude, spec_conclude, Statement, TransferStatement, Verdict};
use crate::error::Error;
use crate::output::capped;
use crate::utils::{
    bytes32_array_of, bytes32_of, bytes_array_of, bytes_asset, bytes_of,
    check_address_format_from_folding, conforming_bytes32_are_read, conforming_bytes_are_read,
    into_address, into_bytes, into_bytes32,
    into_bytes32_array, into_bytes_array, into_uint, into_uint256, rows_hold, buffers_hold,
    spec_address_format, uint_of, FoldingInstance,
};
use ethabi::{ParamType, Token};
use ethereum_types::{H160, U256};
use vstd::prelude::*;

verus! {

/// The price of one nullifier of a transfer.
pub const TRANSFER_PER_INPUT: u64 = 4000;

/// The price of one commitment of a transfer.
pub const TRANSFER_PER_OUTPUT: u64 = 30000;

/// One transfer of a batch. The lists of nullifiers, commitments and memos
/// are sized each on its own.
#[derive(Debug, PartialEq, Eq)]
pub struct TransferEntity {
    pub root_version: u64,
    pub root: [u8; 32],
    pub asset: [u8; 32],
    pub fee_amount: U256,
    pub transparent_account: H160,
    pub transparent_asset: [u8; 32],
    pub transparent_amount: U256,
    pub hash: [u8; 32],
    pub nullifiers: Vec<[u8; 32]>,
    pub commitments: Vec<[u8; 32]>,
    pub memos: Vec<Vec<u8>>,
    pub proof: Vec<u8>,
}

/// A batch of transfers, each checked and priced on its own.
#[derive(Debug, PartialEq, Eq)]
pub struct Transfer {
    pub params: Vec<TransferEntity>,
}

impl TransferEntity {
    /// The fields of one transfer, in the order in which they are encoded:
    /// `(uint64,bytes32,bytes32,uint256,address,bytes32,uint256,bytes32,bytes32[],bytes32[],bytes[],bytes)`.
    pub open spec fn shapes() -> Seq<Shape> {
        seq![
            Shape::Uint(64),
            Shape::FixedBytes(32),
            Shape::FixedBytes(32),
            Shape::Uint(256),
            Shape::Address,
            Shape::FixedBytes(32),
            Shape::Uint(256),
            Shape::FixedBytes(32),
            Shape::Array(Box::new(Shape::FixedBytes(32))),
            Shape::Array(Box::new(Shape::FixedBytes(32))),
            Shape::Array(Box::new(Shape::Bytes)),
            Shape::Bytes,
        ]
    }

    /// Whether the fields of a tuple can be read as a transfer: each is there
    /// and of its shape, and the root version fits 128 bits.
    pub open spec fn accepts(inner: Seq<Token>) -> bool {
        &&& uint_of(spec_token_at(inner, 0)) is Some
        &&& bytes32_of(spec_token_at(inner, 1)) is Some
        &&& bytes32_of(spec_token_at(inner, 2)) is Some
        &&& spec_token_at(inner, 3) matches Some(Token::Uint(_))
        &&& spec_token_at(inner, 4) matches Some(Token::Address(_))
        &&& bytes32_of(spec_token_at(inner, 5)) is Some
        &&& spec_token_at(inner, 6) matches Some(Token::Uint(_))
        &&& bytes32_of(spec_token_at(inner, 7)) is Some
        &&& bytes32_array_of(spec_token_at(inner, 8)) is Some
        &&& bytes32_array_of(spec_token_at(inner, 9)) is Some
        &&& bytes_array_of(spec_token_at(inner, 10)) is Some
        &&& bytes_of(spec_token_at(inner, 11)) is Some
    }

    /// Fields of the shapes asked for are read unless the root version takes
    /// more than 128 bits.
    pub proof fn conforming_fields_are_accepted(inner: Seq<Token>)
        requires
            tokens_conform(inner, Self::shapes()),
        ensures
            Self::accepts(inner) <==> uint_of(spec_token_at(inner, 0)) is Some,
    {
        assert(token_conforms(inner[1], Self::shapes()[1]));
        assert(token_conforms(inner[2], Self::shapes()[2]));
        assert(token_conforms(inner[3], Self::shapes()[3]));
        assert(token_conforms(inner[4], Self::shapes()[4]));
        assert(token_conforms(inner[5], Self::shapes()[5]));
        assert(token_conforms(inner[6], Self::shapes()[6]));
        assert(token_conforms(inner[7], Self::shapes()[7]));
        assert(token_conforms(inner[8], Self::shapes()[8]));
        assert(token_conforms(inner[9], Self::shapes()[9]));
        assert(token_conforms(inner[10], Self::shapes()[10]));
        assert(token_conforms(inner[11], Self::shapes()[11]));
        conforming_bytes32_are_read(inner[1]);
        conforming_bytes32_are_read(inner[2]);
        conforming_bytes32_are_read(inner[5]);
        conforming_bytes32_are_read(inner[7]);
        conforming_bytes32_are_read(inner[8]);
        conforming_bytes32_are_read(inner[9]);
        conforming_bytes_are_read(inner[10]);
        conforming_bytes_are_read(inner[11]);
    }

    /// Whether this transfer holds what the fields of a tuple say. Of the
    /// root version the lower 64 bits are kept.
    pub open spec fn reads(self, inner: Seq<Token>) -> bool {
        &&& uint_of(spec_token_at(inner, 0)) matches Some(n) && self.root_version as nat == n
            % 0x1_0000_0000_0000_0000
        &&& Some(self.root@) == bytes32_of(spec_token_at(inner, 1))
        &&& Some(self.asset@) == bytes32_of(spec_token_at(inner, 2))
        &&& Some(Token::Uint(self.fee_amount)) == spec_token_at(inner, 3)
        &&& Some(Token::Address(self.transparent_account)) == spec_token_at(inner, 4)
        &&& Some(self.transparent_asset@) == bytes32_of(spec_token_at(inner, 5))
        &&& Some(Token::Uint(self.transparent_amount)) == spec_token_at(inner, 6)
        &&& Some(self.hash@) == bytes32_of(spec_token_at(inner, 7))
        &&& bytes32_array_of(spec_token_at(inner, 8)) matches Some(rows) && rows_hold(
            self.nullifiers@,
            rows,
        )
        &&& bytes32_array_of(spec_token_at(inner, 9)) matches Some(rows) && rows_hold(
            self.commitments@,
            rows,
        )
        &&& bytes_array_of(spec_token_at(inner, 10)) matches Some(rows) && buffers_hold(
            self.memos@,
            rows,
        )
        &&& Some(self.proof@) == bytes_of(spec_token_at(inner, 11))
    }

    /// The price of this transfer.
    pub open spec fn spec_gas(self) -> nat {
        (TRANSFER_PER_INPUT as nat) * self.nullifiers@.len() + (TRANSFER_PER_OUTPUT as nat)
            * self.commitments@.len()
    }

    /// Whether a statement says of this transfer what is to be verified, for
    /// the folding instance that came with the proof.
    pub open spec fn states(self, folding: FoldingInstance, statement: TransferStatement) -> bool {
        &&& statement.format == spec_address_format(folding)
        &&& statement.nullifiers@ == self.nullifiers@
        &&& statement.commitments@ == self.commitments@
        &&& statement.merkle_root == self.root
        &&& statement.root_version == self.root_version
        &&& statement.fee as nat == u256_value(self.fee_amount)
        &&& statement.fee_type.0@ == self.asset@
        &&& statement.transparent as nat == u256_value(self.transparent_amount)
        &&& statement.transparent_type.0@ == self.transparent_asset@
        &&& statement.memos@ == self.memos@
        &&& statement.hash == self.hash
        &&& statement.proof@ == self.proof@
    }

    /// Whether `r` is a result of checking this transfer that the two
    /// functions of the verifier allow: the two amounts must fit 128 bits,
    /// else `ParseDataFailed`; the proof must open, else `ProofDecodeFailed`;
    /// then the verdict on the statement decides.
    pub open spec fn check_allows<O, V>(self, opener: O, verifier: V, r: Result<(), Error>) -> bool
        where O: Fn(&Vec<u8>) -> Option<FoldingInstance>, V: Fn(&Statement) -> Verdict {
        if !fits_u128(self.fee_amount) || !fits_u128(self.transparent_amount) {
            r == Err::<(), Error>(Error::ParseDataFailed)
        } else {
            exists|opened: Option<FoldingInstance>| #[trigger]
                opener.ensures((&self.proof,), opened) && match opened {
                    None => r == Err::<(), Error>(Error::ProofDecodeFailed),
                    Some(folding) => exists|statement: TransferStatement, verdict: Verdict|
                        self.states(folding, statement) && #[trigger] verifier.ensures(
                            (&Statement::Transfer(statement),),
                            verdict,
                        ) && r == spec_conclude(verdict),
                }
        }
    }

    /// Checks one transfer.
    pub fn check<O, V>(self, opener: &O, verifier: &V) -> (r: Result<(), Error>)
        where O: Fn(&Vec<u8>) -> Option<FoldingInstance>, V: Fn(&Statement) -> Verdict
        requires
            forall|bytes: &Vec<u8>| opener.requires((bytes,)),
            forall|statement: &Statement| verifier.requires((statement,)),
        ensures
            self.check_allows(*opener, *verifier, r),
    {
        if self.fee_amount.0[2] != 0 || self.fee_amount.0[3] != 0 {
            return Err(Error::ParseDataFailed);
        }
        if self.transparent_amount.0[2] != 0 || self.transparent_amount.0[3] != 0 {
            return Err(Error::ParseDataFailed);
        }
        let fee = self.fee_amount.as_u128();
        let transparent = self.transparent_amount.as_u128();
        let opened = opener(&self.proof);
        let folding = match opened {
            Some(folding) => folding,
            None => { return Err(Error::ProofDecodeFailed); },
        };
        let format = check_address_format_from_folding(&folding);
        let fee_type = bytes_asset(self.asset.as_slice())?;
        let transparent_type = bytes_asset(self.transparent_asset.as_slice())?;
        assert(fee_type.0@ =~= self.asset@);
        assert(transparent_type.0@ =~= self.transparent_asset@);
        let statement = Statement::Transfer(
            TransferStatement {
                format,
                nullifiers: self.nullifiers,
                commitments: self.commitments,
                merkle_root: self.root,
                root_version: self.root_version,
                fee,
                fee_type,
                transparent,
                transparent_type,
                memos: self.memos,
                hash: self.hash,
                proof: self.proof,
            },
        );
        let verdict = verifier(&statement);
        assert(self.states(folding, statement->Transfer_0));
        assert(opener.ensures((&self.proof,), opened));
        conclude(verdict)
    }

    /// Reads one transfer from the fields of its tuple.
    pub fn from_fields(inner: &Vec<Token>) -> (r: Result<TransferEntity, Error>)
        ensures
            Self::accepts(inner@) ==> (r matches Ok(entity) && entity.reads(inner@)),
            !Self::accepts(inner@) ==> r == Err::<TransferEntity, Error>(Error::ParseDataFailed),
    {
        let root_version = (into_uint(token_at(inner, 0))? % 0x1_0000_0000_0000_0000) as u64;
        let root = into_bytes32(token_at(inner, 1))?;
        let asset = into_bytes32(token_at(inner, 2))?;
        let fee_amount = into_uint256(token_at(inner, 3))?;
        let transparent_account = into_address(token_at(inner, 4))?;
        let transparent_asset = into_bytes32(token_at(inner, 5))?;
        let transparent_amount = into_uint256(token_at(inner, 6))?;
        let hash = into_bytes32(token_at(inner, 7))?;
        let nullifiers = into_bytes32_array(token_at(inner, 8))?;
        let commitments = into_bytes32_array(token_at(inner, 9))?;
        let memos = into_bytes_array(token_at(inner, 10))?;
        let proof = into_bytes(token_at(inner, 11))?;
        Ok(
            TransferEntity {
                root_version,
                root,
                asset,
                fee_amount,
                transparent_account,
                transparent_asset,
                transparent_amount,
                hash,
                nullifiers,
                commitments,
                memos,
                proof,
            },
        )
    }
}

/// The price of a list of transfers: the sum of their prices.
pub open spec fn batch_gas(entities: Seq<TransferEntity>) -> nat
    decreases entities.len(),
{
    if entities.len() == 0 {
        0
    } else {
        batch_gas(entities.drop_last()) + entities.last().spec_gas()
    }
}

/// Whether `r` is a result of checking the transfers in order that the
/// verifier allows: the result of the first transfer that fails, or success
/// where none fails.
pub open spec fn batch_allows<O, V>(
    entities: Seq<TransferEntity>,
    opener: O,
    verifier: V,
    r: Result<(), Error>,
) -> bool where O: Fn(&Vec<u8>) -> Option<FoldingInstance>, V: Fn(&Statement) -> Verdict
    decreases entities.len(),
{
    if entities.len() == 0 {
        r == Ok::<(), Error>(())
    } else {
        exists|first: Result<(), Error>| #[trigger]
            entities.first().check_allows(opener, verifier, first) && if first is Err {
                r == first
            } else {
                batch_allows(entities.drop_first(), opener, verifier, r)
            }
    }
}

impl Transfer {
    /// The call data holds one array of transfers.
    pub open spec fn shapes() -> Seq<Shape> {
        seq![Shape::Array(Box::new(Shape::Tuple(TransferEntity::shapes())))]
    }

    /// Whether the decoded tokens can be read as a batch: the first is an
    /// array of tuples, and each tuple can be read as a transfer.
    pub open spec fn accepts(tokens: Seq<Token>) -> bool {
        spec_token_at(tokens, 0) matches Some(Token::Array(items)) && forall|i: int|
            0 <= i < items@.len() ==> ((#[trigger] items@[i]) matches Token::Tuple(inner)
                && TransferEntity::accepts(inner@))
    }

    /// Whether this batch holds, in order, the transfers that the decoded
    /// tokens say.
    pub open spec fn reads(self, tokens: Seq<Token>) -> bool {
        spec_token_at(tokens, 0) matches Some(Token::Array(items)) && self.params@.len()
            == items@.len() && forall|i: int|
            0 <= i < items@.len() ==> ((#[trigger] items@[i]) matches Token::Tuple(inner)
                && self.params@[i].reads(inner@))
    }

    /// Whether `r` is what decoding `data` gives.
    pub open spec fn decoded(data: Seq<u8>, r: Result<Transfer, Error>) -> bool {
        match abi_decoding(Self::shapes(), data) {
            None => r == Err::<Transfer, Error>(Error::ParseDataFailed),
            Some(tokens) => tokens_conform(tokens, Self::shapes()) && if Self::accepts(tokens) {
                r matches Ok(batch) && batch.reads(tokens)
            } else {
                r == Err::<Transfer, Error>(Error::ParseDataFailed)
            },
        }
    }

    /// What the decoder hands over is of the shapes asked for, so a batch is
    /// read unless the root version of one of its transfers takes more than
    /// 128 bits.
    pub proof fn conforming_tokens_are_accepted(tokens: Seq<Token>)
        requires
            tokens_conform(tokens, Self::shapes()),
        ensures
            Self::accepts(tokens) <==> (spec_token_at(tokens, 0) matches Some(Token::Array(items))
                && forall|i: int|
                0 <= i < items@.len() ==> ((#[trigger] items@[i]) matches Token::Tuple(inner)
                    && uint_of(spec_token_at(inner@, 0)) is Some)),
    {
        assert(token_conforms(tokens[0], Self::shapes()[0]));
        match tokens[0] {
            Token::Array(items) => {
                assert forall|i: int| 0 <= i < items@.len() implies ((#[trigger] items@[i]) matches Token::Tuple(
                    inner,
                ) && (TransferEntity::accepts(inner@) <==> uint_of(spec_token_at(inner@, 0))
                    is Some)) by {
                    assert(token_conforms(items[i], Shape::Tuple(TransferEntity::shapes())));
                    match items[i] {
                        Token::Tuple(inner) => {
                            assert forall|k: int| 0 <= k < inner@.len() implies token_conforms(
                                #[trigger] inner@[k],
                                TransferEntity::shapes()[k],
                            ) by {
                                assert(token_conforms(inner[k], TransferEntity::shapes()[k]));
                            }
                            TransferEntity::conforming_fields_are_accepted(inner@);
                        },
                        _ => {},
                    }
                }
            },
            _ => {},
        }
    }

    fn params_type() -> (types: Vec<ParamType>)
        ensures
            shapes_of(types@) == TransferEntity::shapes(),
    {
        let types = vec![
            ParamType::Uint(64),
            ParamType::FixedBytes(32),
            ParamType::FixedBytes(32),
            ParamType::Uint(256),
            ParamType::Address,
            ParamType::FixedBytes(32),
            ParamType::Uint(256),
            ParamType::FixedBytes(32),
            ParamType::Array(Box::new(ParamType::FixedBytes(32))),
            ParamType::Array(Box::new(ParamType::FixedBytes(32))),
            ParamType::Array(Box::new(ParamType::Bytes)),
            ParamType::Bytes,
        ];
        proof {
            reveal_with_fuel(shape_of, 3);
            assert(shapes_of(types@) =~= TransferEntity::shapes());
        }
        types
    }

    /// Decodes a batch. The decoding is all or nothing: one transfer that
    /// cannot be read fails the batch.
    pub fn new(data: &[u8]) -> (r: Result<Transfer, Error>)
        ensures
            Self::decoded(data@, r),
    {
        let fields = Self::params_type();
        let types = vec![ParamType::Array(Box::new(ParamType::Tuple(fields)))];
        proof {
            reveal_with_fuel(shape_of, 3);
            reveal_with_fuel(shape_is_plain, 4);
            assert(shape_of(types@[0])->Array_0->Tuple_0 =~= TransferEntity::shapes());
            assert(shapes_of(types@) =~= Self::shapes());
            assert(shapes_are_plain(Self::shapes()));
        }
        let res = match decode(types.as_slice(), data) {
            Some(res) => res,
            None => { return Err(Error::ParseDataFailed); },
        };
        let ghost tokens = res@;
        let array_base = match token_at(&res, 0) {
            Some(Token::Array(array_base)) => array_base,
            _ => { return Err(Error::ParseDataFailed); },
        };
        let ghost items = array_base@;
        let mut result: Vec<TransferEntity> = Vec::with_capacity(array_base.len());
        for tk in it: array_base
            invariant
                abi_decoding(Self::shapes(), data@) == Some(tokens),
                tokens_conform(tokens, Self::shapes()),
                spec_token_at(tokens, 0) matches Some(Token::Array(a)) && a@ == items,
                it.seq() == items,
                result@.len() == it.index(),
                forall|j: int|
                    0 <= j < it.index() ==> ((#[trigger] items[j]) matches Token::Tuple(inner)
                        && TransferEntity::accepts(inner@) && result@[j].reads(inner@)),
        {
            match tk {
                Token::Tuple(inner) => {
                    let entity = match TransferEntity::from_fields(&inner) {
                        Ok(entity) => entity,
                        Err(e) => {
                            assert(!(items[it.index()] matches Token::Tuple(f)
                                && TransferEntity::accepts(f@)));
                            return Err(e);
                        },
                    };
                    result.push(entity);
                },
                _ => {
                    assert(!(items[it.index()] matches Token::Tuple(f)
                        && TransferEntity::accepts(f@)));
                    return Err(Error::ParseDataFailed);
                },
            }
        }
        Ok(Transfer { params: result })
    }

    /// Checks the transfers in order and stops at the first that fails: its
    /// error is the error of the batch. A batch without transfers passes.
    pub fn check<O, V>(self, opener: &O, verifier: &V) -> (r: Result<(), Error>)
        where O: Fn(&Vec<u8>) -> Option<FoldingInstance>, V: Fn(&Statement) -> Verdict
        requires
            forall|bytes: &Vec<u8>| opener.requires((bytes,)),
            forall|statement: &Statement| verifier.requires((statement,)),
        ensures
            batch_allows(self.params@, *opener, *verifier, r),
    {
        let ghost entities = self.params@;
        assert(entities.skip(0) =~= entities);
        for entity in it: self.params
            invariant
                it.seq() == entities,
                forall|bytes: &Vec<u8>| opener.requires((bytes,)),
                forall|statement: &Statement| verifier.requires((statement,)),
                forall|r: Result<(), Error>|
                    batch_allows(entities.skip(it.index()), *opener, *verifier, r) ==> batch_allows(
                        entities,
                        *opener,
                        *verifier,
                        r,
                    ),
        {
            let ghost rest = entities.skip(it.index());
            assert(rest.first() == entity);
            assert(rest.drop_first() =~= entities.skip(it.index() + 1));
            let checked = entity.check(opener, verifier);
            if let Err(e) = checked {
                assert(batch_allows(rest, *opener, *verifier, Err(e)));
                return Err(e);
            }
            assert forall|r: Result<(), Error>|
                batch_allows(
                    entities.skip(it.index() + 1),
                    *opener,
                    *verifier,
                    r,
                ) implies batch_allows(entities, *opener, *verifier, r) by {
                assert(rest.first().check_allows(*opener, *verifier, checked));
                assert(batch_allows(rest, *opener, *verifier, r));
            }
        }
        assert(entities.skip(entities.len() as int).len() == 0);
        Ok(())
    }

    /// The price of the batch, capped at the largest 64-bit number. It
    /// depends on the numbers of nullifiers and commitments alone.
    pub fn gas(self) -> (gas: u64)
        ensures
            gas == capped(batch_gas(self.params@)),
    {
        let mut total: u128 = 0;
        for i in 0..self.params.len()
            invariant
                total <= u64::MAX,
                total as nat == if batch_gas(self.params@.take(i as int)) <= u64::MAX {
                    batch_gas(self.params@.take(i as int))
                } else {
                    u64::MAX as nat
                },
        {
            let entity = &self.params[i];
            let inputs: u128 = entity.nullifiers.len() as u128;
            let outputs: u128 = entity.commitments.len() as u128;
            let price: u128 = 4000 * inputs + 30000 * outputs;
            proof {
                assert(self.params@.take(i + 1).drop_last() =~= self.params@.take(i as int));
                assert(self.params@.take(i + 1).last() == self.params@[i as int]);
                assert(price as nat == entity.spec_gas());
            }
            total = total + price;
            if total > 0xffff_ffff_ffff_ffff {
                total = 0xffff_ffff_ffff_ffff;
            }
        }
        proof {
            assert(self.params@.take(self.params@.len() as int) =~= self.params@);
        }
        total as u64
    }
}

/// A batch without transfers costs nothing, and its check passes whatever
/// the verifier is.
pub proof fn empty_batch_is_free<O, V>(
    entities: Seq<TransferEntity>,
    opener: O,
    verifier: V,
    r: Result<(), Error>,
) where O: Fn(&Vec<u8>) -> Option<FoldingInstance>, V: Fn(&Statement) -> Verdict
    requires
        entities.len() == 0,
    ensures
        batch_gas(entities) == 0,
        batch_allows(entities, opener, verifier, r) <==> r == Ok::<(), Error>(()),
{
}

/// The price of a batch is the price of a nullifier times the number of all
/// nullifiers plus the price of a commitment times the number of all
/// commitments: nothing else of the batch counts.
pub proof fn batch_gas_counts(entities: Seq<TransferEntity>)
    ensures
        batch_gas(entities) == 4000 * total_inputs(entities) + 30000 * total_outputs(entities),
    decreases entities.len(),
{
    if entities.len() > 0 {
        batch_gas_counts(entities.drop_last());
    }
}

/// The number of nullifiers of all the transfers of a list.
pub open spec fn total_inputs(entities: Seq<TransferEntity>) -> nat
    decreases entities.len(),
{
    if entities.len() == 0 {
        0
    } else {
        total_inputs(entities.drop_last()) + entities.last().nullifiers@.len()
    }
}

/// The number of commitments of all the transfers of a list.
pub open spec fn total_outputs(entities: Seq<TransferEntity>) -> nat
    decreases entities.len(),
{
    if entities.len() == 0 {
        0
    } else {
        total_outputs(entities.drop_last()) + entities.last().commitments@.len()
    }
}

/// The price of one transfer, read from the fields of its tuple: only the
/// numbers of its nullifiers and commitments count.
pub open spec fn entity_price(inner: Seq<Token>) -> nat {
    (TRANSFER_PER_INPUT as nat) * bytes32_array_of(spec_token_at(inner, 8)).unwrap().len() + (
    TRANSFER_PER_OUTPUT as nat) * bytes32_array_of(spec_token_at(inner, 9)).unwrap().len()
}

/// The price of a list of tuples: the sum of their prices.
pub open spec fn items_price(items: Seq<Token>) -> nat
    decreases items.len(),
{
    if items.len() == 0 {
        0
    } else {
        items_price(items.drop_last()) + match items.last() {
            Token::Tuple(inner) => entity_price(inner@),
            _ => 0,
        }
    }
}

/// The price of a batch, read from its decoded tokens.
pub open spec fn tokens_price(tokens: Seq<Token>) -> nat {
    match spec_token_at(tokens, 0) {
        Some(Token::Array(items)) => items_price(items@),
        _ => 0,
    }
}

/// The price of a batch is fixed by the tokens that it was read from.
pub proof fn reads_fixes_price(batch: Transfer, tokens: Seq<Token>)
    requires
        batch.reads(tokens),
    ensures
        batch_gas(batch.params@) == tokens_price(tokens),
{
    match spec_token_at(tokens, 0) {
        Some(Token::Array(items)) => {
            prefix_price(batch.params@, items@, items@.len());
            assert(batch.params@.take(items@.len() as int) =~= batch.params@);
            assert(items@.take(items@.len() as int) =~= items@);
        },
        _ => {},
    }
}

proof fn prefix_price(entities: Seq<TransferEntity>, items: Seq<Token>, k: nat)
    requires
        entities.len() == items.len(),
        k <= items.len(),
        forall|i: int|
            0 <= i < items.len() ==> ((#[trigger] items[i]) matches Token::Tuple(inner)
                && entities[i].reads(inner@)),
    ensures
        batch_gas(entities.take(k as int)) == items_price(items.take(k as int)),
    decreases k,
{
    if k > 0 {
        prefix_price(entities, items, (k - 1) as nat);
        assert(entities.take(k as int).drop_last() =~= entities.take(k - 1));
        assert(items.take(k as int).drop_last() =~= items.take(k - 1));
        assert(entities.take(k as int).last() == entities[k - 1]);
        assert(items.take(k as int).last() == items[k - 1]);
        match items[k - 1] {
            Token::Tuple(inner) => {
                assert(entities[k - 1].reads(inner@));
            },
            _ => {},
        }
    }
}

} // verus!
