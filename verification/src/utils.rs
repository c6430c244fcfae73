//! Conversions from decoded tokens to native values. Each converter fails
//! with `ParseDataFailed` where the token is absent or of another shape, and
//! never shortens or pads what it was given.

use crate::abi::{
    fits_u128, take_address, take_bytes, take_uint, token_conforms, u256_value, Shape,
};
use crate::error::Error;
use ethabi::Token;
use ethereum_types::{H160, U256};
use vstd::prelude::*;

verus! {

/// The bytes of a fixed-bytes token of exactly 32 bytes.
pub open spec fn bytes32_of(tk: Option<Token>) -> Option<Seq<u8>> {
    match tk {
        Some(Token::FixedBytes(b)) => if b@.len() == 32 {
            Some(b@)
        } else {
            None
        },
        _ => None,
    }
}

/// The address of an address token.
pub open spec fn address_of(tk: Option<Token>) -> Option<H160> {
    match tk {
        Some(Token::Address(a)) => Some(a),
        _ => None,
    }
}

/// The number of an unsigned-integer token.
pub open spec fn uint256_of(tk: Option<Token>) -> Option<U256> {
    match tk {
        Some(Token::Uint(u)) => Some(u),
        _ => None,
    }
}

/// The number of an unsigned-integer token that fits 128 bits.
pub open spec fn uint_of(tk: Option<Token>) -> Option<nat> {
    match tk {
        Some(Token::Uint(u)) => if fits_u128(u) {
            Some(u256_value(u))
        } else {
            None
        },
        _ => None,
    }
}

/// The bytes of a dynamic-bytes token.
pub open spec fn bytes_of(tk: Option<Token>) -> Option<Seq<u8>> {
    match tk {
        Some(Token::Bytes(b)) => Some(b@),
        _ => None,
    }
}

/// The items of an array token.
pub open spec fn items_of(tk: Option<Token>) -> Option<Seq<Token>> {
    match tk {
        Some(Token::Array(items)) => Some(items@),
        _ => None,
    }
}

pub fn into_bytes32(tk: Option<Token>) -> (r: Result<[u8; 32], Error>)
    ensures
        match bytes32_of(tk) {
            Some(bytes) => r matches Ok(a) && a@ == bytes,
            None => r == Err::<[u8; 32], Error>(Error::ParseDataFailed),
        },
{
    let token = match tk {
        Some(token) => token,
        None => { return Err(Error::ParseDataFailed); },
    };
    let bytes = match token.into_fixed_bytes() {
        Some(bytes) => bytes,
        None => { return Err(Error::ParseDataFailed); },
    };
    if bytes.len() != 32 {
        return Err(Error::ParseDataFailed);
    }
    let mut out = [0u8;32];
    for i in 0..32usize
        invariant
            bytes.len() == 32,
            forall|j: int| 0 <= j < i ==> out[j] == bytes[j],
    {
        out[i] = bytes[i];
    }
    assert(out@ =~= bytes@);
    Ok(out)
}

pub fn into_address(tk: Option<Token>) -> (r: Result<H160, Error>)
    ensures
        match address_of(tk) {
            Some(a) => r == Ok::<H160, Error>(a),
            None => r == Err::<H160, Error>(Error::ParseDataFailed),
        },
{
    let token = match tk {
        Some(token) => token,
        None => { return Err(Error::ParseDataFailed); },
    };
    match take_address(token) {
        Some(address) => Ok(address),
        None => Err(Error::ParseDataFailed),
    }
}

/// A number that takes more than 128 bits is refused: it is not shortened.
pub fn into_uint(tk: Option<Token>) -> (r: Result<u128, Error>)
    ensures
        match uint_of(tk) {
            Some(n) => r matches Ok(x) && x == n,
            None => r == Err::<u128, Error>(Error::ParseDataFailed),
        },
{
    let token = match tk {
        Some(token) => token,
        None => { return Err(Error::ParseDataFailed); },
    };
    let number = match take_uint(token) {
        Some(number) => number,
        None => { return Err(Error::ParseDataFailed); },
    };
    if number.0[2] != 0 || number.0[3] != 0 {
        return Err(Error::ParseDataFailed);
    }
    Ok(number.as_u128())
}

pub fn into_uint256(tk: Option<Token>) -> (r: Result<U256, Error>)
    ensures
        match uint256_of(tk) {
            Some(u) => r == Ok::<U256, Error>(u),
            None => r == Err::<U256, Error>(Error::ParseDataFailed),
        },
{
    let token = match tk {
        Some(token) => token,
        None => { return Err(Error::ParseDataFailed); },
    };
    match take_uint(token) {
        Some(number) => Ok(number),
        None => Err(Error::ParseDataFailed),
    }
}

pub fn into_bytes(tk: Option<Token>) -> (r: Result<Vec<u8>, Error>)
    ensures
        match bytes_of(tk) {
            Some(bytes) => r matches Ok(v) && v@ == bytes,
            None => r == Err::<Vec<u8>, Error>(Error::ParseDataFailed),
        },
{
    let token = match tk {
        Some(token) => token,
        None => { return Err(Error::ParseDataFailed); },
    };
    match take_bytes(token) {
        Some(bytes) => Ok(bytes),
        None => Err(Error::ParseDataFailed),
    }
}

/// The items of an array token, where each of them is a fixed-bytes token of
/// exactly 32 bytes.
pub open spec fn bytes32_array_of(tk: Option<Token>) -> Option<Seq<Seq<u8>>> {
    match items_of(tk) {
        Some(items) => if forall|i: int|
            0 <= i < items.len() ==> (#[trigger] bytes32_of(Some(items[i]))) is Some {
            Some(Seq::new(items.len(), |i: int| bytes32_of(Some(items[i])).unwrap()))
        } else {
            None
        },
        None => None,
    }
}

pub fn into_bytes32_array(tk: Option<Token>) -> (r: Result<Vec<[u8; 32]>, Error>)
    ensures
        match bytes32_array_of(tk) {
            Some(rows) => r matches Ok(v) && v@.len() == rows.len() && forall|i: int|
                0 <= i < rows.len() ==> (#[trigger] v@[i])@ == rows[i],
            None => r == Err::<Vec<[u8; 32]>, Error>(Error::ParseDataFailed),
        },
{
    let token = match tk {
        Some(token) => token,
        None => { return Err(Error::ParseDataFailed); },
    };
    let arr = match token.into_array() {
        Some(arr) => arr,
        None => { return Err(Error::ParseDataFailed); },
    };
    let ghost items = arr@;
    let mut res: Vec<[u8; 32]> = Vec::with_capacity(arr.len());
    for item in it: arr
        invariant
            items_of(tk) == Some(items),
            it.seq() == items,
            res@.len() == it.index(),
            forall|j: int|
                0 <= j < it.index() ==> bytes32_of(Some(#[trigger] items[j])) == Some(res@[j]@),
    {
        let bytes32 = match into_bytes32(Some(item)) {
            Ok(bytes32) => bytes32,
            Err(e) => {
                assert(bytes32_of(Some(items[it.index()])) is None);
                return Err(e);
            },
        };
        res.push(bytes32);
    }
    Ok(res)
}

/// The items of an array token, where each of them is an unsigned-integer
/// token that fits 128 bits.
pub open spec fn uint_array_of(tk: Option<Token>) -> Option<Seq<nat>> {
    match items_of(tk) {
        Some(items) => if forall|i: int|
            0 <= i < items.len() ==> (#[trigger] uint_of(Some(items[i]))) is Some {
            Some(Seq::new(items.len(), |i: int| uint_of(Some(items[i])).unwrap()))
        } else {
            None
        },
        None => None,
    }
}

pub fn into_uint_array(tk: Option<Token>) -> (r: Result<Vec<u128>, Error>)
    ensures
        match uint_array_of(tk) {
            Some(numbers) => r matches Ok(v) && v@.len() == numbers.len() && forall|i: int|
                0 <= i < numbers.len() ==> (#[trigger] v@[i]) == numbers[i],
            None => r == Err::<Vec<u128>, Error>(Error::ParseDataFailed),
        },
{
    let token = match tk {
        Some(token) => token,
        None => { return Err(Error::ParseDataFailed); },
    };
    let arr = match token.into_array() {
        Some(arr) => arr,
        None => { return Err(Error::ParseDataFailed); },
    };
    let ghost items = arr@;
    let mut res: Vec<u128> = Vec::with_capacity(arr.len());
    for item in it: arr
        invariant
            items_of(tk) == Some(items),
            it.seq() == items,
            res@.len() == it.index(),
            forall|j: int|
                0 <= j < it.index() ==> uint_of(Some(#[trigger] items[j])) == Some(
                    res@[j] as nat,
                ),
    {
        let uint = match into_uint(Some(item)) {
            Ok(uint) => uint,
            Err(e) => {
                assert(uint_of(Some(items[it.index()])) is None);
                return Err(e);
            },
        };
        res.push(uint);
    }
    Ok(res)
}

/// The items of an array token, where each of them is an unsigned-integer
/// token.
pub open spec fn uint256_array_of(tk: Option<Token>) -> Option<Seq<U256>> {
    match items_of(tk) {
        Some(items) => if forall|i: int|
            0 <= i < items.len() ==> (#[trigger] uint256_of(Some(items[i]))) is Some {
            Some(Seq::new(items.len(), |i: int| uint256_of(Some(items[i])).unwrap()))
        } else {
            None
        },
        None => None,
    }
}

pub fn into_uint256_array(tk: Option<Token>) -> (r: Result<Vec<U256>, Error>)
    ensures
        match uint256_array_of(tk) {
            Some(numbers) => r matches Ok(v) && v@ == numbers,
            None => r == Err::<Vec<U256>, Error>(Error::ParseDataFailed),
        },
{
    let token = match tk {
        Some(token) => token,
        None => { return Err(Error::ParseDataFailed); },
    };
    let arr = match token.into_array() {
        Some(arr) => arr,
        None => { return Err(Error::ParseDataFailed); },
    };
    let ghost items = arr@;
    let mut res: Vec<U256> = Vec::with_capacity(arr.len());
    for item in it: arr
        invariant
            items_of(tk) == Some(items),
            it.seq() == items,
            res@.len() == it.index(),
            forall|j: int|
                0 <= j < it.index() ==> uint256_of(Some(#[trigger] items[j])) == Some(res@[j]),
    {
        let uint = match into_uint256(Some(item)) {
            Ok(uint) => uint,
            Err(e) => {
                assert(uint256_of(Some(items[it.index()])) is None);
                return Err(e);
            },
        };
        res.push(uint);
    }
    assert(res@ =~= uint256_array_of(tk).unwrap());
    Ok(res)
}

/// The items of an array token, where each of them is a dynamic-bytes token.
pub open spec fn bytes_array_of(tk: Option<Token>) -> Option<Seq<Seq<u8>>> {
    match items_of(tk) {
        Some(items) => if forall|i: int|
            0 <= i < items.len() ==> (#[trigger] bytes_of(Some(items[i]))) is Some {
            Some(Seq::new(items.len(), |i: int| bytes_of(Some(items[i])).unwrap()))
        } else {
            None
        },
        None => None,
    }
}

pub fn into_bytes_array(tk: Option<Token>) -> (r: Result<Vec<Vec<u8>>, Error>)
    ensures
        match bytes_array_of(tk) {
            Some(rows) => r matches Ok(v) && v@.len() == rows.len() && forall|i: int|
                0 <= i < rows.len() ==> (#[trigger] v@[i])@ == rows[i],
            None => r == Err::<Vec<Vec<u8>>, Error>(Error::ParseDataFailed),
        },
{
    let token = match tk {
        Some(token) => token,
        None => { return Err(Error::ParseDataFailed); },
    };
    let arr = match token.into_array() {
        Some(arr) => arr,
        None => { return Err(Error::ParseDataFailed); },
    };
    let ghost items = arr@;
    let mut res: Vec<Vec<u8>> = Vec::with_capacity(arr.len());
    for item in it: arr
        invariant
            items_of(tk) == Some(items),
            it.seq() == items,
            res@.len() == it.index(),
            forall|j: int|
                0 <= j < it.index() ==> bytes_of(Some(#[trigger] items[j])) == Some(res@[j]@),
    {
        let bytes = match into_bytes(Some(item)) {
            Ok(bytes) => bytes,
            Err(e) => {
                assert(bytes_of(Some(items[it.index()])) is None);
                return Err(e);
            },
        };
        res.push(bytes);
    }
    Ok(res)
}

/// Whether the rows hold, one by one, the bytes given.
pub open spec fn rows_hold(rows: Seq<[u8; 32]>, bytes: Seq<Seq<u8>>) -> bool {
    rows.len() == bytes.len() && forall|i: int| 0 <= i < rows.len() ==> (#[trigger] rows[i])@ == bytes[i]
}

/// Whether the buffers hold, one by one, the bytes given.
pub open spec fn buffers_hold(buffers: Seq<Vec<u8>>, bytes: Seq<Seq<u8>>) -> bool {
    buffers.len() == bytes.len() && forall|i: int|
        0 <= i < buffers.len() ==> (#[trigger] buffers[i])@ == bytes[i]
}

/// A token of the shape of dynamic bytes is read as bytes, and an array of
/// such tokens as an array of byte strings.
pub proof fn conforming_bytes_are_read(tk: Token)
    ensures
        token_conforms(tk, Shape::Bytes) ==> bytes_of(Some(tk)) is Some,
        token_conforms(tk, Shape::Array(Box::new(Shape::Bytes))) ==> bytes_array_of(Some(tk))
            is Some,
{
    reveal_with_fuel(token_conforms, 2);
    if token_conforms(tk, Shape::Array(Box::new(Shape::Bytes))) {
        match tk {
            Token::Array(items) => {
                assert forall|i: int| 0 <= i < items@.len() implies (#[trigger] bytes_of(
                    Some(items@[i]),
                )) is Some by {
                    assert(token_conforms(items[i], Shape::Bytes));
                }
            },
            _ => {},
        }
    }
}

/// A token of the shape of 32 fixed bytes is read as 32 bytes, and an array
/// of such tokens as an array of rows.
pub proof fn conforming_bytes32_are_read(tk: Token)
    ensures
        token_conforms(tk, Shape::FixedBytes(32)) ==> bytes32_of(Some(tk)) is Some,
        token_conforms(tk, Shape::Array(Box::new(Shape::FixedBytes(32)))) ==> bytes32_array_of(
            Some(tk),
        ) is Some,
{
    reveal_with_fuel(token_conforms, 2);
    if token_conforms(tk, Shape::Array(Box::new(Shape::FixedBytes(32)))) {
        match tk {
            Token::Array(items) => {
                assert forall|i: int| 0 <= i < items@.len() implies (#[trigger] bytes32_of(
                    Some(items@[i]),
                )) is Some by {
                    assert(token_conforms(items[i], Shape::FixedBytes(32)));
                }
            },
            _ => {},
        }
    }
}

/// The rows laid end to end.
pub open spec fn joined(rows: Seq<[u8; 32]>) -> Seq<u8> {
    Seq::new(32 * rows.len(), |k: int| rows[k / 32][k % 32])
}

/// The whole 32-byte rows that `bytes` begins with, in order; what is left
/// after the last whole row is not part of any.
pub open spec fn rows_of(bytes: Seq<u8>) -> Seq<Seq<u8>> {
    Seq::new((bytes.len() / 32) as nat, |i: int| bytes.subrange(32 * i, 32 * i + 32))
}

pub fn join_bytes32(byte32s: &[[u8; 32]]) -> (v: Vec<u8>)
    ensures
        v@ == joined(byte32s@),
{
    let mut v: Vec<u8> = Vec::new();
    for i in 0..byte32s.len()
        invariant
            v@.len() == 32 * i,
            forall|k: int| 0 <= k < 32 * i ==> v@[k] == byte32s@[k / 32][k % 32],
    {
        let row = &byte32s[i];
        for j in 0..32usize
            invariant
                i < byte32s.len(),
                *row == byte32s@[i as int],
                v@.len() == 32 * i + j,
                forall|k: int| 0 <= k < 32 * i + j ==> v@[k] == byte32s@[k / 32][k % 32],
        {
            v.push(row[j]);
        }
    }
    assert(v@ =~= joined(byte32s@));
    v
}

/// Cuts the bytes into rows of 32. It never fails: bytes after the last
/// whole row are left out.
pub fn split_bytes32(bytes32: &Vec<u8>) -> (r: Result<Vec<[u8; 32]>, Error>)
    ensures
        r matches Ok(v) && v@.len() == rows_of(bytes32@).len() && forall|i: int|
            0 <= i < v@.len() ==> (#[trigger] v@[i])@ == rows_of(bytes32@)[i],
{
    let num = bytes32.len() / 32;
    let mut res: Vec<[u8; 32]> = Vec::with_capacity(num);
    for i in 0..num
        invariant
            num == bytes32.len() / 32,
            res@.len() == i,
            forall|k: int| 0 <= k < i ==> (#[trigger] res@[k])@ == rows_of(bytes32@)[k],
    {
        let begin = i * 32;
        let mut row = [0u8;32];
        for j in 0..32usize
            invariant
                begin == i * 32,
                begin + 32 <= bytes32.len(),
                forall|k: int| 0 <= k < j ==> row[k] == bytes32@[begin + k],
        {
            row[j] = bytes32[begin + j];
        }
        assert(row@ =~= rows_of(bytes32@)[i as int]);
        res.push(row);
    }
    Ok(res)
}

/// Cutting what was joined gives the rows back.
pub proof fn split_inverts_join(rows: Seq<[u8; 32]>)
    ensures
        rows_of(joined(rows)).len() == rows.len(),
        forall|i: int| 0 <= i < rows.len() ==> #[trigger] rows_of(joined(rows))[i] == rows[i]@,
{
    assert forall|i: int| 0 <= i < rows.len() implies #[trigger] rows_of(joined(rows))[i]
        == rows[i]@ by {
        let row = rows_of(joined(rows))[i];
        assert forall|j: int| 0 <= j < 32 implies row[j] == rows[i]@[j] by {
            assert((32 * i + j) / 32 == i && (32 * i + j) % 32 == j) by (nonlinear_arith)
                requires
                    0 <= j < 32,
            ;
        }
        assert(row =~= rows[i]@);
    }
}

/// The length of an asset identifier.
pub const ASSET_TYPE_LENGTH: usize = 32;

/// An asset identifier.
#[derive(Clone, Copy, Debug, PartialEq, Eq)]
pub struct AssetType(pub [u8; 32]);

/// The signature scheme that an address-folding instance was built for.
#[derive(Clone, Copy, Debug, PartialEq, Eq, Structural)]
pub enum FoldingInstance {
    Ed25519,
    Secp256k1,
}

/// The address format of the verifier parameters.
#[derive(Clone, Copy, Debug, PartialEq, Eq, Structural)]
pub enum AddressFormat {
    SECP256K1,
    ED25519,
}

/// Reads an asset identifier: exactly `ASSET_TYPE_LENGTH` bytes, else
/// `ParseDataFailed`.
pub fn bytes_asset(bytes: &[u8]) -> (r: Result<AssetType, Error>)
    ensures
        bytes@.len() == ASSET_TYPE_LENGTH ==> (r matches Ok(asset) && asset.0@ == bytes@),
        bytes@.len() != ASSET_TYPE_LENGTH ==> r == Err::<AssetType, Error>(Error::ParseDataFailed),
{
    if bytes.len() != ASSET_TYPE_LENGTH {
        return Err(Error::ParseDataFailed);
    }
    let mut asset_bytes = [0u8;32];
    for i in 0..32usize
        invariant
            bytes@.len() == 32,
            forall|j: int| 0 <= j < i ==> asset_bytes[j] == bytes@[j],
    {
        asset_bytes[i] = bytes[i];
    }
    assert(asset_bytes@ =~= bytes@);
    Ok(AssetType(asset_bytes))
}

pub open spec fn spec_address_format(folding: FoldingInstance) -> AddressFormat {
    match folding {
        FoldingInstance::Ed25519 => AddressFormat::ED25519,
        FoldingInstance::Secp256k1 => AddressFormat::SECP256K1,
    }
}

pub fn check_address_format_from_folding(folding: &FoldingInstance) -> (format: AddressFormat)
    ensures
        format == spec_address_format(*folding),
{
    match folding {
        FoldingInstance::Ed25519 => AddressFormat::ED25519,
        FoldingInstance::Secp256k1 => AddressFormat::SECP256K1,
    }
}

} // verus!
