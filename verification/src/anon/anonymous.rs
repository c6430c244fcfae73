//! The entry points of the anonymous family: routing by selector, the check
//! and the price.

use crate::abi::{abi_decoding, Shape};
use crate::anon::deposit::Deposit;
use crate::anon::ownership::{OwnerShip, OWNERSHIP_PER_FEE};
use crate::anon::statement::{conclude, spec_conclude, Statement, Verdict};
use crate::anon::transfer::{batch_allows, batch_gas, reads_fixes_price, tokens_price, Transfer};
use crate::error::{spec_status, Error};
use crate::output::{capped, price_or_zero, status};
use crate::selector::{arguments_of, has_selector, starts_with};
use crate::utils::FoldingInstance;
use ethabi::Token;
use vstd::prelude::*;

verus! {

/// `verify_deposit(bytes32[],bytes32[],uint128[],bytes[],bytes[],bytes32[])`
pub const VERIFY_DEPOSIT_SELECTOR: [u8; 4] = [0x29, 0xef, 0xb1, 0x48];

/// The selector of a batch of transfers.
pub const VERIFY_TRANSFER_SELECTOR: [u8; 4] = [0xd0, 0xb8, 0x51, 0xef];

/// `verify_ownership(uint256,uint256,bytes,bytes,bytes,bytes,bytes32,bytes)`
pub const VERIFY_WITHDRAW_SELECTOR: [u8; 4] = [0x29, 0x7d, 0xb2, 0x29];

/// The decoded arguments of one call.
#[derive(Debug, PartialEq, Eq)]
pub enum Arguments {
    Deposit(Deposit),
    Transfer(Transfer),
    OwnerShip(OwnerShip),
}

/// The operations of the family.
#[derive(Clone, Copy, Debug, PartialEq, Eq, Structural)]
pub enum Operation {
    Deposit,
    Transfer,
    OwnerShip,
}

/// The operation that the first four bytes select: byte for byte one of the
/// three selectors, else `UnknownSelector`; data of fewer than four bytes has
/// no selector.
pub open spec fn route(data: Seq<u8>) -> Result<Operation, Error> {
    if data.len() < 4 {
        Err(Error::WrongSelectorLength)
    } else if has_selector(data, VERIFY_DEPOSIT_SELECTOR) {
        Ok(Operation::Deposit)
    } else if has_selector(data, VERIFY_TRANSFER_SELECTOR) {
        Ok(Operation::Transfer)
    } else if has_selector(data, VERIFY_WITHDRAW_SELECTOR) {
        Ok(Operation::OwnerShip)
    } else {
        Err(Error::UnknownSelector)
    }
}

impl Arguments {
    /// The operation that the arguments belong to.
    pub open spec fn operation(self) -> Operation {
        match self {
            Arguments::Deposit(_) => Operation::Deposit,
            Arguments::Transfer(_) => Operation::Transfer,
            Arguments::OwnerShip(_) => Operation::OwnerShip,
        }
    }

    /// Whether `r` is what routing and decoding `data` gives: the error of
    /// the routing, or what the selected operation's decoder makes of the
    /// bytes after the selector.
    pub open spec fn decoded(data: Seq<u8>, r: Result<Arguments, Error>) -> bool {
        match route(data) {
            Err(e) => r == Err::<Arguments, Error>(e),
            Ok(Operation::Deposit) => match r {
                Ok(Arguments::Deposit(args)) => Deposit::decoded(data.skip(4), Ok(args)),
                Ok(_) => false,
                Err(e) => Deposit::decoded(data.skip(4), Err(e)),
            },
            Ok(Operation::Transfer) => match r {
                Ok(Arguments::Transfer(args)) => Transfer::decoded(data.skip(4), Ok(args)),
                Ok(_) => false,
                Err(e) => Transfer::decoded(data.skip(4), Err(e)),
            },
            Ok(Operation::OwnerShip) => match r {
                Ok(Arguments::OwnerShip(args)) => OwnerShip::decoded(data.skip(4), Ok(args)),
                Ok(_) => false,
                Err(e) => OwnerShip::decoded(data.skip(4), Err(e)),
            },
        }
    }

    /// Routes the call data by its selector and decodes what follows it.
    pub fn new(data: &[u8]) -> (r: Result<Arguments, Error>)
        ensures
            Self::decoded(data@, r),
    {
        if data.len() < 4 {
            return Err(Error::WrongSelectorLength);
        }
        let rest = arguments_of(data);
        if starts_with(data, VERIFY_DEPOSIT_SELECTOR) {
            match Deposit::new(rest) {
                Ok(args) => Ok(Arguments::Deposit(args)),
                Err(e) => Err(e),
            }
        } else if starts_with(data, VERIFY_TRANSFER_SELECTOR) {
            match Transfer::new(rest) {
                Ok(args) => Ok(Arguments::Transfer(args)),
                Err(e) => Err(e),
            }
        } else if starts_with(data, VERIFY_WITHDRAW_SELECTOR) {
            match OwnerShip::new(rest) {
                Ok(args) => Ok(Arguments::OwnerShip(args)),
                Err(e) => Err(e),
            }
        } else {
            Err(Error::UnknownSelector)
        }
    }

    /// Whether `r` is a result of the check that the verifier allows.
    pub open spec fn check_allows<O, V>(self, opener: O, verifier: V, r: Result<(), Error>) -> bool
        where O: Fn(&Vec<u8>) -> Option<FoldingInstance>, V: Fn(&Statement) -> Verdict {
        match self {
            Arguments::Deposit(args) => if !args.is_aligned() {
                r == Err::<(), Error>(Error::WrongLengthOfArguments)
            } else {
                exists|verdict: Verdict| #[trigger]
                    verifier.ensures((&Statement::Deposit(args),), verdict) && r == spec_conclude(
                        verdict,
                    )
            },
            Arguments::Transfer(args) => batch_allows(args.params@, opener, verifier, r),
            Arguments::OwnerShip(args) => args.check_allows(opener, verifier, r),
        }
    }

    /// Hands the arguments to the verifier and maps its answer. A batch of
    /// deposits whose lists differ in length is refused with
    /// `WrongLengthOfArguments` before the verifier sees it.
    pub fn check<O, V>(self, opener: &O, verifier: &V) -> (r: Result<(), Error>)
        where O: Fn(&Vec<u8>) -> Option<FoldingInstance>, V: Fn(&Statement) -> Verdict
        requires
            forall|bytes: &Vec<u8>| opener.requires((bytes,)),
            forall|statement: &Statement| verifier.requires((statement,)),
        ensures
            self.check_allows(*opener, *verifier, r),
    {
        match self {
            Arguments::Deposit(v) => {
                if !v.aligned() {
                    return Err(Error::WrongLengthOfArguments);
                }
                let statement = Statement::Deposit(v);
                let verdict = verifier(&statement);
                conclude(verdict)
            },
            Arguments::Transfer(v) => v.check(opener, verifier),
            Arguments::OwnerShip(v) => v.check(opener, verifier),
        }
    }

    /// The price of the call, capped at the largest 64-bit number.
    pub fn gas(self) -> (gas: u64)
        ensures
            gas == capped(self.spec_gas()),
    {
        match self {
            Arguments::Deposit(v) => v.gas(),
            Arguments::Transfer(v) => v.gas(),
            Arguments::OwnerShip(v) => v.gas(),
        }
    }

    /// The price of the call before it is capped.
    pub open spec fn spec_gas(self) -> nat {
        match self {
            Arguments::Deposit(args) => args.spec_gas(),
            Arguments::Transfer(args) => batch_gas(args.params@),
            Arguments::OwnerShip(_) => OWNERSHIP_PER_FEE as nat,
        }
    }
}

/// The shapes that an operation's call data is decoded by.
pub open spec fn shapes_for(op: Operation) -> Seq<Shape> {
    match op {
        Operation::Deposit => Deposit::shapes(),
        Operation::Transfer => Transfer::shapes(),
        Operation::OwnerShip => OwnerShip::shapes(),
    }
}

/// Whether an operation's decoder can read the decoded tokens.
pub open spec fn accepts(op: Operation, tokens: Seq<Token>) -> bool {
    match op {
        Operation::Deposit => Deposit::accepts(tokens),
        Operation::Transfer => Transfer::accepts(tokens),
        Operation::OwnerShip => OwnerShip::accepts(tokens),
    }
}

/// The error that routing and decoding the call data ends with, if any.
pub open spec fn decode_error(data: Seq<u8>) -> Option<Error> {
    match route(data) {
        Err(e) => Some(e),
        Ok(op) => match abi_decoding(shapes_for(op), data.skip(4)) {
            None => Some(Error::ParseDataFailed),
            Some(tokens) => if accepts(op, tokens) {
                None
            } else {
                Some(Error::ParseDataFailed)
            },
        },
    }
}

/// The price of an operation, read from its decoded tokens, before it is
/// capped: only the numbers of items count, nothing of what the items hold.
pub open spec fn price(op: Operation, tokens: Seq<Token>) -> nat {
    match op {
        Operation::Deposit => Deposit::tokens_price(tokens),
        Operation::Transfer => tokens_price(tokens),
        Operation::OwnerShip => OWNERSHIP_PER_FEE as nat,
    }
}

/// The price of a call: the error of routing and decoding, else the price
/// of the operation, capped at the largest 64-bit number.
pub open spec fn spec_gas(data: Seq<u8>) -> Result<u64, Error> {
    match decode_error(data) {
        Some(e) => Err(e),
        None => {
            let op = route(data).unwrap();
            Ok(capped(price(op, abi_decoding(shapes_for(op), data.skip(4)).unwrap())))
        },
    }
}

/// The price of a call. Only routing and decoding run: the verifier is not
/// asked.
pub fn gas(data: &[u8]) -> (r: Result<u64, Error>)
    ensures
        r == spec_gas(data@),
{
    let args = match Arguments::new(data) {
        Ok(args) => args,
        Err(e) => { return Err(e); },
    };
    let ghost decoded = args;
    proof {
        match decoded {
            Arguments::Transfer(batch) => {
                reads_fixes_price(batch, abi_decoding(Transfer::shapes(), data@.skip(4)).unwrap());
            },
            Arguments::Deposit(batch) => {
                assert(batch.reads(abi_decoding(Deposit::shapes(), data@.skip(4)).unwrap()));
            },
            Arguments::OwnerShip(_) => {},
        }
    }
    Ok(args.gas())
}

/// Routes and decodes the call data, then has the verifier check it.
pub fn verify<O, V>(data: &[u8], opener: &O, verifier: &V) -> (r: Result<(), Error>)
    where O: Fn(&Vec<u8>) -> Option<FoldingInstance>, V: Fn(&Statement) -> Verdict
    requires
        forall|bytes: &Vec<u8>| opener.requires((bytes,)),
        forall|statement: &Statement| verifier.requires((statement,)),
    ensures
        match decode_error(data@) {
            Some(e) => r == Err::<(), Error>(e),
            None => exists|args: Arguments| #[trigger]
                Arguments::decoded(data@, Ok(args)) && args.check_allows(*opener, *verifier, r),
        },
{
    let args = Arguments::new(data)?;
    args.check(opener, verifier)
}

/// The entry point of the check: its status byte.
pub fn precompile_anonymous_verify<O, V>(data: &[u8], opener: &O, verifier: &V) -> (code: u8)
    where O: Fn(&Vec<u8>) -> Option<FoldingInstance>, V: Fn(&Statement) -> Verdict
    requires
        forall|bytes: &Vec<u8>| opener.requires((bytes,)),
        forall|statement: &Statement| verifier.requires((statement,)),
    ensures
        match decode_error(data@) {
            Some(e) => code == e.spec_code(),
            None => exists|args: Arguments, r: Result<(), Error>|
                Arguments::decoded(data@, Ok(args)) && #[trigger] args.check_allows(
                    *opener,
                    *verifier,
                    r,
                ) && code == spec_status(r),
        },
{
    let r = verify(data, opener, verifier);
    status(&r)
}

/// The price of a call, or 0 where the call data does not route or decode.
pub fn precompile_anonymous_verify_gas(data: &[u8]) -> (gas: u64)
    ensures
        gas == (match spec_gas(data@) {
            Ok(gas) => gas,
            Err(_) => 0,
        }),
{
    price_or_zero(gas(data))
}

/// Call data of fewer than four bytes has no selector: it is refused with
/// `WrongSelectorLength`, and nothing of it is decoded.
pub proof fn short_data_is_refused(data: Seq<u8>)
    requires
        data.len() < 4,
    ensures
        decode_error(data) == Some(Error::WrongSelectorLength),
        spec_gas(data) == Err::<u64, Error>(Error::WrongSelectorLength),
        forall|r: Result<Arguments, Error>| #[trigger]
            Arguments::decoded(data, r) ==> r == Err::<Arguments, Error>(
                Error::WrongSelectorLength,
            ),
{
}

/// Call data whose first four bytes are none of the family's selectors is
/// refused with `UnknownSelector`, whatever follows them.
pub proof fn unknown_selector_is_refused(data: Seq<u8>)
    requires
        data.len() >= 4,
        !has_selector(data, VERIFY_DEPOSIT_SELECTOR),
        !has_selector(data, VERIFY_TRANSFER_SELECTOR),
        !has_selector(data, VERIFY_WITHDRAW_SELECTOR),
    ensures
        decode_error(data) == Some(Error::UnknownSelector),
        spec_gas(data) == Err::<u64, Error>(Error::UnknownSelector),
{
}

/// The price of a batch of transfers is fixed by the numbers of its
/// nullifiers and commitments: two batches that agree in both cost the same,
/// whatever the proofs and values they carry.
pub proof fn price_depends_on_counts(first: Transfer, second: Transfer)
    requires
        crate::anon::transfer::total_inputs(first.params@) == crate::anon::transfer::total_inputs(
            second.params@,
        ),
        crate::anon::transfer::total_outputs(first.params@)
            == crate::anon::transfer::total_outputs(second.params@),
    ensures
        Arguments::Transfer(first).spec_gas() == Arguments::Transfer(second).spec_gas(),
{
    crate::anon::transfer::batch_gas_counts(first.params@);
    crate::anon::transfer::batch_gas_counts(second.params@);
}

/// Routing and decoding are settled by the call data: two results that the
/// same data allows fail together, with the same error, or succeed together,
/// at the same price.
pub proof fn decoding_is_settled(
    data: Seq<u8>,
    first: Result<Arguments, Error>,
    second: Result<Arguments, Error>,
)
    requires
        Arguments::decoded(data, first),
        Arguments::decoded(data, second),
    ensures
        first is Err <==> second is Err,
        first matches Err(e) ==> decode_error(data) == Some(e) && second == Err::<Arguments, Error>(e),
        match (first, second) {
            (Ok(a), Ok(b)) => a.operation() == b.operation() && a.spec_gas() == b.spec_gas(),
            _ => true,
        },
{
    if let (Ok(a), Ok(b)) = (first, second) {
        match (a, b) {
            (Arguments::Transfer(x), Arguments::Transfer(y)) => {
                let tokens = abi_decoding(Transfer::shapes(), data.skip(4)).unwrap();
                reads_fixes_price(x, tokens);
                reads_fixes_price(y, tokens);
            },
            _ => {},
        }
    }
}

} // verus!
