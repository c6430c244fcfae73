//! The algebraic hash: an evaluation on four field elements, and the table
//! of salts.
//!
//! The field arithmetic is done by an evaluator that the caller supplies: a
//! function that is given the decoded arguments and answers with the
//! little-endian bytes of the result.

use crate::abi::{
    abi_decoding, decode, shape_is_plain, shape_of, shapes_are_plain, shapes_of, spec_token_at,
    token_at, token_conforms, tokens_conform, Shape,
};
use crate::error::{spec_status, Error};
use crate::output::{fitted, price_or_zero, status, write_output};
use crate::selector::{arguments_of, has_selector, starts_with};
use crate::utils::{bytes32_of, conforming_bytes32_are_read, into_bytes32, into_uint, uint_of};
use ethabi::{ParamType, Token};
use vstd::prelude::*;

verus! {

/// `anemoi_jive_4(bytes32,bytes32,bytes32,bytes32)`
pub const ANEMOI_JIVE_4_SELECTOR: [u8; 4] = [0x73, 0x80, 0x82, 0x63];

/// The selector of the table of salts.
pub const ANEMOI_JIVE_254_SALTS_SELECTOR: [u8; 4] = [0xbc, 0x4f, 0x54, 0xce];

/// What a call with `ANEMOI_JIVE_4_SELECTOR` costs.
pub const ANEMOI_SALT_GAS: u64 = 10;

/// What a call with `ANEMOI_JIVE_254_SALTS_SELECTOR` costs.
pub const ANEMOI_EVAL_4: u64 = 400;

/// The number of salts.
pub const SALTS: u128 = 64;

/// Four encoded field elements: two `x` and two `y`.
#[derive(Debug, PartialEq, Eq)]
pub struct Jive4 {
    pub x0: [u8; 32],
    pub x1: [u8; 32],
    pub y0: [u8; 32],
    pub y1: [u8; 32],
}

/// A position in the table of salts, below `SALTS`.
#[derive(Debug, PartialEq, Eq)]
pub struct SaltIndex {
    pub index: u8,
}

/// The decoded arguments of one call.
#[derive(Debug, PartialEq, Eq)]
pub enum Arguments {
    Jive4(Jive4),
    Salts(SaltIndex),
}

/// The operations of the family.
#[derive(Clone, Copy, Debug, PartialEq, Eq, Structural)]
pub enum Operation {
    Jive4,
    Salts,
}

/// The operation that the first four bytes select: byte for byte one of the
/// two selectors, else `UnknownSelector`; data of fewer than four bytes has
/// no selector.
pub open spec fn route(data: Seq<u8>) -> Result<Operation, Error> {
    if data.len() < 4 {
        Err(Error::WrongSelectorLength)
    } else if has_selector(data, ANEMOI_JIVE_4_SELECTOR) {
        Ok(Operation::Jive4)
    } else if has_selector(data, ANEMOI_JIVE_254_SALTS_SELECTOR) {
        Ok(Operation::Salts)
    } else {
        Err(Error::UnknownSelector)
    }
}

impl Jive4 {
    /// The call data holds `(bytes32,bytes32,bytes32,bytes32)`: the two `x`,
    /// then the two `y`.
    pub open spec fn shapes() -> Seq<Shape> {
        seq![
            Shape::FixedBytes(32),
            Shape::FixedBytes(32),
            Shape::FixedBytes(32),
            Shape::FixedBytes(32),
        ]
    }

    /// Whether this value holds what the decoded tokens say.
    pub open spec fn reads(self, tokens: Seq<Token>) -> bool {
        &&& bytes32_of(spec_token_at(tokens, 0)) == Some(self.x0@)
        &&& bytes32_of(spec_token_at(tokens, 1)) == Some(self.x1@)
        &&& bytes32_of(spec_token_at(tokens, 2)) == Some(self.y0@)
        &&& bytes32_of(spec_token_at(tokens, 3)) == Some(self.y1@)
    }

    /// Whether `r` is what decoding `data` gives: the decoder's tokens read
    /// as this value, or `ParseDataFailed` where the decoder fails.
    pub open spec fn decoded(data: Seq<u8>, r: Result<Jive4, Error>) -> bool {
        match abi_decoding(Self::shapes(), data) {
            None => r == Err::<Jive4, Error>(Error::ParseDataFailed),
            Some(tokens) => tokens_conform(tokens, Self::shapes()) && (r matches Ok(args)
                && args.reads(tokens)),
        }
    }

    /// Decodes the arguments from the bytes after the selector.
    pub fn new(data: &[u8]) -> (r: Result<Jive4, Error>)
        ensures
            Self::decoded(data@, r),
    {
        let types = [
            ParamType::FixedBytes(32),
            ParamType::FixedBytes(32),
            ParamType::FixedBytes(32),
            ParamType::FixedBytes(32),
        ];
        proof {
            reveal_with_fuel(shape_of, 2);
            reveal_with_fuel(shape_is_plain, 2);
            assert(shapes_of(types@) =~= Self::shapes());
            assert(shapes_are_plain(Self::shapes()));
        }
        let res = match decode(types.as_slice(), data) {
            Some(res) => res,
            None => { return Err(Error::ParseDataFailed); },
        };
        proof {
            assert(token_conforms(res@[0], Self::shapes()[0]));
            assert(token_conforms(res@[1], Self::shapes()[1]));
            assert(token_conforms(res@[2], Self::shapes()[2]));
            assert(token_conforms(res@[3], Self::shapes()[3]));
            conforming_bytes32_are_read(res@[0]);
            conforming_bytes32_are_read(res@[1]);
            conforming_bytes32_are_read(res@[2]);
            conforming_bytes32_are_read(res@[3]);
        }
        let x0 = into_bytes32(token_at(&res, 0))?;
        let x1 = into_bytes32(token_at(&res, 1))?;
        let y0 = into_bytes32(token_at(&res, 2))?;
        let y1 = into_bytes32(token_at(&res, 3))?;
        Ok(Jive4 { x0, x1, y0, y1 })
    }
}

impl SaltIndex {
    /// The call data holds one unsigned integer.
    pub open spec fn shapes() -> Seq<Shape> {
        seq![Shape::Uint(32)]
    }

    /// Whether `r` is what decoding `data` gives. A number that does not fit
    /// 128 bits fails with `ParseDataFailed`; one that fits and is not below
    /// `SALTS`, with `InputOutOfBound`.
    pub open spec fn decoded(data: Seq<u8>, r: Result<SaltIndex, Error>) -> bool {
        match abi_decoding(Self::shapes(), data) {
            None => r == Err::<SaltIndex, Error>(Error::ParseDataFailed),
            Some(tokens) => tokens_conform(tokens, Self::shapes()) && match uint_of(
                spec_token_at(tokens, 0),
            ) {
                None => r == Err::<SaltIndex, Error>(Error::ParseDataFailed),
                Some(n) => if n < SALTS {
                    r matches Ok(args) && args.index == n
                } else {
                    r == Err::<SaltIndex, Error>(Error::InputOutOfBound)
                },
            },
        }
    }

    /// Decodes the arguments from the bytes after the selector.
    pub fn new(data: &[u8]) -> (r: Result<SaltIndex, Error>)
        ensures
            Self::decoded(data@, r),
            r matches Ok(args) ==> args.index < SALTS,
    {
        let types = [ParamType::Uint(32)];
        proof {
            reveal_with_fuel(shape_of, 2);
            reveal_with_fuel(shape_is_plain, 2);
            assert(shapes_of(types@) =~= Self::shapes());
            assert(shapes_are_plain(Self::shapes()));
        }
        let res = match decode(types.as_slice(), data) {
            Some(res) => res,
            None => { return Err(Error::ParseDataFailed); },
        };
        let index = into_uint(token_at(&res, 0))?;
        if index < SALTS {
            Ok(SaltIndex { index: index as u8 })
        } else {
            Err(Error::InputOutOfBound)
        }
    }
}

impl Arguments {
    /// Whether `r` is what routing and decoding `data` gives: the error of
    /// the routing, or what the selected decoder makes of the bytes after
    /// the selector.
    pub open spec fn decoded(data: Seq<u8>, r: Result<Arguments, Error>) -> bool {
        match route(data) {
            Err(e) => r == Err::<Arguments, Error>(e),
            Ok(Operation::Jive4) => match r {
                Ok(Arguments::Jive4(args)) => Jive4::decoded(data.skip(4), Ok(args)),
                Ok(_) => false,
                Err(e) => Jive4::decoded(data.skip(4), Err(e)),
            },
            Ok(Operation::Salts) => match r {
                Ok(Arguments::Salts(args)) => SaltIndex::decoded(data.skip(4), Ok(args))
                    && args.index < SALTS,
                Ok(_) => false,
                Err(e) => SaltIndex::decoded(data.skip(4), Err(e)),
            },
        }
    }

    /// Routes the call data by its selector and decodes what follows it.
    pub fn new(data: &[u8]) -> (r: Result<Arguments, Error>)
        ensures
            Self::decoded(data@, r),
    {
        if data.len() < 4 {
            return Err(Error::WrongSelectorLength);
        }
        let rest = arguments_of(data);
        if starts_with(data, ANEMOI_JIVE_4_SELECTOR) {
            match Jive4::new(rest) {
                Ok(args) => Ok(Arguments::Jive4(args)),
                Err(e) => Err(e),
            }
        } else if starts_with(data, ANEMOI_JIVE_254_SALTS_SELECTOR) {
            match SaltIndex::new(rest) {
                Ok(args) => Ok(Arguments::Salts(args)),
                Err(e) => Err(e),
            }
        } else {
            Err(Error::UnknownSelector)
        }
    }
}

/// Whether `r` and the slot are what the computation on `data` leaves, for
/// an evaluator: the error of routing and decoding with the slot untouched;
/// `ParseDataFailed` with the slot untouched where the evaluator has no
/// answer, as a value is no field element; else success, with the
/// evaluator's bytes fitted to the slot.
pub open spec fn compute_allows<E: Fn(&Arguments) -> Option<Vec<u8>>>(
    data: Seq<u8>,
    evaluator: E,
    before: [u8; 32],
    after: [u8; 32],
    r: Result<(), Error>,
) -> bool {
    (r matches Err(e) && Arguments::decoded(data, Err(e)) && after == before) || exists|
        args: Arguments,
        answer: Option<Vec<u8>>,
    |
        Arguments::decoded(data, Ok(args)) && #[trigger] evaluator.ensures((&args,), answer)
            && match answer {
            None => r == Err::<(), Error>(Error::ParseDataFailed) && after == before,
            Some(bytes) => r == Ok::<(), Error>(()) && after@ == fitted(bytes@),
        }
}

/// Routes and decodes the call data, has the evaluator compute, and writes
/// its answer to the slot.
pub fn compute<E: Fn(&Arguments) -> Option<Vec<u8>>>(
    data: &[u8],
    ret: &mut [u8; 32],
    evaluator: &E,
) -> (r: Result<(), Error>)
    requires
        forall|args: &Arguments| evaluator.requires((args,)),
    ensures
        compute_allows(data@, *evaluator, *old(ret), *final(ret), r),
{
    let args = Arguments::new(data)?;
    match evaluator(&args) {
        Some(bytes) => {
            write_output(ret, bytes.as_slice());
            Ok(())
        },
        None => Err(Error::ParseDataFailed),
    }
}

/// The price of a call, by its selector alone: the evaluation on four
/// elements costs `ANEMOI_SALT_GAS`, a salt costs `ANEMOI_EVAL_4`. Nothing
/// after the selector is read.
pub open spec fn spec_gas(data: Seq<u8>) -> Result<u64, Error> {
    match route(data) {
        Err(e) => Err(e),
        Ok(Operation::Jive4) => Ok(ANEMOI_SALT_GAS),
        Ok(Operation::Salts) => Ok(ANEMOI_EVAL_4),
    }
}

/// The price of a call. The evaluator is not asked.
pub fn gas(data: &[u8]) -> (r: Result<u64, Error>)
    ensures
        r == spec_gas(data@),
{
    if data.len() < 4 {
        return Err(Error::WrongSelectorLength);
    }
    if starts_with(data, ANEMOI_JIVE_4_SELECTOR) {
        Ok(ANEMOI_SALT_GAS)
    } else if starts_with(data, ANEMOI_JIVE_254_SALTS_SELECTOR) {
        Ok(ANEMOI_EVAL_4)
    } else {
        Err(Error::UnknownSelector)
    }
}

/// The entry point of the family: the status byte of `compute`, which has
/// written the slot where the status is 0 and left it as it was elsewhere.
pub fn precompile_anemoi<E: Fn(&Arguments) -> Option<Vec<u8>>>(
    data: &[u8],
    ret: &mut [u8; 32],
    evaluator: &E,
) -> (code: u8)
    requires
        forall|args: &Arguments| evaluator.requires((args,)),
    ensures
        exists|r: Result<(), Error>| #[trigger]
            compute_allows(data@, *evaluator, *old(ret), *final(ret), r) && code == spec_status(r),
{
    let r = compute(data, ret, evaluator);
    status(&r)
}

/// The price of a call, or 0 where the data routes nowhere.
pub fn precompile_anemoi_gas(data: &[u8]) -> (gas: u64)
    ensures
        gas == (match spec_gas(data@) {
            Ok(gas) => gas,
            Err(_) => 0,
        }),
{
    price_or_zero(gas(data))
}

/// Call data of fewer than four bytes has no selector: it is refused with
/// `WrongSelectorLength`, nothing of it is decoded, and it has no price.
pub proof fn short_data_is_refused(data: Seq<u8>)
    requires
        data.len() < 4,
    ensures
        spec_gas(data) == Err::<u64, Error>(Error::WrongSelectorLength),
        forall|r: Result<Arguments, Error>| #[trigger]
            Arguments::decoded(data, r) ==> r == Err::<Arguments, Error>(
                Error::WrongSelectorLength,
            ),
{
}

/// Call data whose first four bytes are none of the family's selectors is
/// refused with `UnknownSelector`, whatever follows them.
pub proof fn unknown_selector_is_refused(data: Seq<u8>)
    requires
        data.len() >= 4,
        !has_selector(data, ANEMOI_JIVE_4_SELECTOR),
        !has_selector(data, ANEMOI_JIVE_254_SALTS_SELECTOR),
    ensures
        spec_gas(data) == Err::<u64, Error>(Error::UnknownSelector),
        forall|r: Result<Arguments, Error>| #[trigger]
            Arguments::decoded(data, r) ==> r == Err::<Arguments, Error>(Error::UnknownSelector),
{
}

/// Routing and decoding are settled by the call data: two results that the
/// same data allows fail together, with the same error, or succeed together,
/// and then with the same index where a salt is asked for.
pub proof fn decoding_is_settled(
    data: Seq<u8>,
    first: Result<Arguments, Error>,
    second: Result<Arguments, Error>,
)
    requires
        Arguments::decoded(data, first),
        Arguments::decoded(data, second),
    ensures
        first is Err <==> second is Err,
        first matches Err(e) ==> second == Err::<Arguments, Error>(e),
        match (first, second) {
            (Ok(Arguments::Salts(a)), Ok(Arguments::Salts(b))) => a.index == b.index,
            (Ok(Arguments::Jive4(a)), Ok(Arguments::Jive4(b))) => a.x0@ == b.x0@ && a.x1@ == b.x1@
                && a.y0@ == b.y0@ && a.y1@ == b.y1@,
            (Ok(_), Ok(_)) => false,
            _ => true,
        },
{
}

} // verus!
