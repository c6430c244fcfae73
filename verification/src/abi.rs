//! The binary argument encoding, as the `ethabi` crate reads it.
//!
//! The token and parameter types are those of `ethabi` and `ethereum_types`.
//! They are declared with their definitions open: Verus reads the variants
//! and fields from the crates themselves, so verified code matches on them
//! and nothing is assumed of what a value holds. What is believed without
//! proof is the behaviour of the functions below, as said at each.

use ethabi::{ParamType, Token};
use ethereum_types::{H160, U256};
use vstd::prelude::*;

verus! {

/// `ethabi::ParamType`, with the variants that the crate defines.
#[verifier::external_type_specification]
pub struct ExParamType(ethabi::ParamType);

/// `ethabi::Token`, with the variants that the crate defines.
#[verifier::external_type_specification]
pub struct ExToken(ethabi::Token);

/// `ethereum_types::U256`: four 64-bit limbs, the least significant first.
#[verifier::external_type_specification]
pub struct ExU256(ethereum_types::U256);

/// `ethereum_types::H160`: the twenty bytes of an address.
#[verifier::external_type_specification]
pub struct ExH160(ethereum_types::H160);

/// Calls `Token::into_address`, which hands out the address of an `Address`
/// token and nothing for any other token.
#[verifier::external_body]
pub(crate) fn take_address(tk: Token) -> (r: Option<H160>)
    ensures
        r == (match tk {
            Token::Address(a) => Some(a),
            _ => None,
        }),
{
    tk.into_address()
}

/// `Token::into_fixed_bytes` hands out the bytes of a `FixedBytes` token and
/// nothing for any other token.
pub assume_specification[ ethabi::Token::into_fixed_bytes ](tk: ethabi::Token) -> (r: Option<Vec<u8>>)
    ensures
        r == (match tk {
            Token::FixedBytes(b) => Some(b),
            _ => None,
        }),
;

/// Calls `Token::into_bytes`, which hands out the bytes of a `Bytes` token
/// and nothing for any other token.
#[verifier::external_body]
pub(crate) fn take_bytes(tk: Token) -> (r: Option<Vec<u8>>)
    ensures
        r == (match tk {
            Token::Bytes(b) => Some(b),
            _ => None,
        }),
{
    tk.into_bytes()
}

/// Calls `Token::into_uint`, which hands out the number of a `Uint` token and
/// nothing for any other token.
#[verifier::external_body]
pub(crate) fn take_uint(tk: Token) -> (r: Option<U256>)
    ensures
        r == (match tk {
            Token::Uint(u) => Some(u),
            _ => None,
        }),
{
    tk.into_uint()
}

/// `Token::into_array` hands out the items of an `Array` token and nothing
/// for any other token.
pub assume_specification[ ethabi::Token::into_array ](tk: ethabi::Token) -> (r: Option<Vec<Token>>)
    ensures
        r == (match tk {
            Token::Array(items) => Some(items),
            _ => None,
        }),
;

/// The number that a `U256` stands for.
pub open spec fn u256_value(u: U256) -> nat {
    (u.0[0] as nat) + (u.0[1] as nat) * 0x1_0000_0000_0000_0000 + (u.0[2] as nat)
        * 0x1_0000_0000_0000_0000_0000_0000_0000_0000 + (u.0[3] as nat)
        * 0x1_0000_0000_0000_0000_0000_0000_0000_0000_0000_0000_0000_0000
}

/// Whether the number fits 128 bits: its two upper limbs are zero.
pub open spec fn fits_u128(u: U256) -> bool {
    u.0[2] == 0 && u.0[3] == 0
}

/// `U256::as_u128` panics unless the two upper limbs are zero, and then
/// returns the number that the two lower limbs make.
pub assume_specification[ ethereum_types::U256::as_u128 ](u: &U256) -> (r: u128)
    requires
        fits_u128(*u),
    ensures
        r as nat == u256_value(*u),
;

/// `Token`'s derived `Clone` copies the token as it is.
pub assume_specification[ <ethabi::Token as Clone>::clone ](tk: &Token) -> (r: Token)
    ensures
        r == *tk,
;

/// The token at a position of a list, where the list is that long.
pub open spec fn spec_token_at(tokens: Seq<Token>, i: int) -> Option<Token> {
    if 0 <= i < tokens.len() {
        Some(tokens[i])
    } else {
        None
    }
}

/// A copy of the token at a position, or nothing where the list is shorter.
pub fn token_at(tokens: &Vec<Token>, i: usize) -> (r: Option<Token>)
    ensures
        r == spec_token_at(tokens@, i as int),
{
    if i < tokens.len() {
        Some(tokens[i].clone())
    } else {
        None
    }
}

/// What a parameter type asks for, as a plain value.
pub ghost enum Shape {
    Address,
    Bytes,
    Int(usize),
    Uint(usize),
    Bool,
    String,
    Array(Box<Shape>),
    FixedBytes(usize),
    FixedArray(Box<Shape>, usize),
    Tuple(Seq<Shape>),
}

/// The shape that a parameter type stands for.
pub open spec fn shape_of(ty: ParamType) -> Shape
    decreases ty,
{
    match ty {
        ParamType::Address => Shape::Address,
        ParamType::Bytes => Shape::Bytes,
        ParamType::Int(bits) => Shape::Int(bits),
        ParamType::Uint(bits) => Shape::Uint(bits),
        ParamType::Bool => Shape::Bool,
        ParamType::String => Shape::String,
        ParamType::Array(item) => Shape::Array(Box::new(shape_of(*item))),
        ParamType::FixedBytes(len) => Shape::FixedBytes(len),
        ParamType::FixedArray(item, len) => Shape::FixedArray(Box::new(shape_of(*item)), len),
        ParamType::Tuple(fields) => Shape::Tuple(
            Seq::new(
                fields.len() as nat,
                |i: int|
                    if 0 <= i < fields.len() {
                        shape_of(fields[i])
                    } else {
                        Shape::Bool
                    },
            ),
        ),
    }
}

/// The shapes of a list of parameter types.
pub open spec fn shapes_of(types: Seq<ParamType>) -> Seq<Shape> {
    Seq::new(types.len(), |i: int| shape_of(types[i]))
}

/// Whether the decoder can be asked for a shape: fixed bytes are between 1
/// and 32 bytes long, a tuple has at least one field, and there is no array
/// of fixed length. Such a shape takes up room in the data for each item, so
/// the decoder runs out of data before it runs long.
pub open spec fn shape_is_plain(shape: Shape) -> bool
    decreases shape,
{
    match shape {
        Shape::FixedBytes(len) => 1 <= len <= 32,
        Shape::Array(item) => shape_is_plain(*item),
        Shape::FixedArray(_, _) => false,
        Shape::Tuple(fields) => fields.len() > 0 && forall|i: int|
            #![trigger fields[i]]
            0 <= i < fields.len() ==> shape_is_plain(fields[i]),
        _ => true,
    }
}

/// Whether each shape of a list is plain.
pub open spec fn shapes_are_plain(shapes: Seq<Shape>) -> bool {
    forall|i: int| 0 <= i < shapes.len() ==> #[trigger] shape_is_plain(shapes[i])
}

/// Whether a token has a shape: the variant matches, fixed bytes have
/// exactly the length asked for, and the items of arrays and tuples match in
/// turn.
pub open spec fn token_conforms(token: Token, shape: Shape) -> bool
    decreases shape,
{
    match shape {
        Shape::Address => token is Address,
        Shape::Bytes => token is Bytes,
        Shape::Int(_) => token is Int,
        Shape::Uint(_) => token is Uint,
        Shape::Bool => token is Bool,
        Shape::String => token is String,
        Shape::FixedBytes(len) => token matches Token::FixedBytes(b) && b@.len() == len,
        Shape::Array(item) => token matches Token::Array(items) && forall|i: int|
            #![trigger items[i]]
            0 <= i < items.len() ==> token_conforms(items[i], *item),
        Shape::FixedArray(item, len) => token matches Token::FixedArray(items) && items.len()
            == len && forall|i: int|
            #![trigger items[i]]
            0 <= i < items.len() ==> token_conforms(items[i], *item),
        Shape::Tuple(fields) => token matches Token::Tuple(items) && items.len()
            == fields.len() && forall|i: int|
            #![trigger items[i]]
            0 <= i < items.len() ==> token_conforms(items[i], fields[i]),
    }
}

/// Whether a list of tokens matches a list of shapes one by one.
pub open spec fn tokens_conform(tokens: Seq<Token>, shapes: Seq<Shape>) -> bool {
    tokens.len() == shapes.len() && forall|i: int|
        0 <= i < tokens.len() ==> #[trigger] token_conforms(tokens[i], shapes[i])
}

/// What `ethabi::decode` makes of `data` when it is asked for parameter
/// types of the given shapes: the tokens, or nothing where it reports an
/// error.
pub uninterp spec fn abi_decoding(shapes: Seq<Shape>, data: Seq<u8>) -> Option<Seq<Token>>;

/// Calls `ethabi::decode`. Its answer depends on the two arguments alone and
/// is named `abi_decoding`. When it succeeds there is one token for each type
/// asked for, each of the shape of its type: the decoder builds them so,
/// variant by variant. The decoder's own error is dropped: every caller
/// reports a failed decoding in the same way.
#[verifier::external_body]
pub(crate) fn decode(types: &[ParamType], data: &[u8]) -> (r: Option<Vec<Token>>)
    requires
        shapes_are_plain(shapes_of(types@)),
    ensures
        r is Some <==> abi_decoding(shapes_of(types@), data@) is Some,
        r matches Some(tokens) ==> abi_decoding(shapes_of(types@), data@) == Some(tokens@),
        r matches Some(tokens) ==> tokens_conform(tokens@, shapes_of(types@)),
{
    ethabi::decode(types, data).ok()
}

} // verus!
