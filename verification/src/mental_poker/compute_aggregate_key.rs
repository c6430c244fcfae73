//! The aggregate of the players' public keys.

use crate::abi::{
    abi_decoding, decode, shape_is_plain, shape_of, shapes_are_plain, shapes_of, spec_token_at,
    token_at, token_conforms, tokens_conform, Shape,
};
use crate::error::Error;
use crate::mental_poker::utils::{
    add_points, deserialize, infinity_bytes, parsed_point, point_bytes, point_sum, serialize,
    zero_point, Point,
};
use crate::utils::{buffers_hold, bytes_array_of, conforming_bytes_are_read, into_bytes_array};
use ethabi::{ParamType, Token};
use vstd::prelude::*;

verus! {

/// The price of computing an aggregate key.
pub const COMPUTE_AGGREGATE_KEY_PER_GAS: u64 = 50000;

/// The serialized public keys of the players.
#[derive(Debug, PartialEq, Eq)]
pub struct ComputeAggregateKey {
    pub pub_keys: Vec<Vec<u8>>,
}

/// The point at infinity, from which a combination starts.
pub open spec fn neutral() -> Point {
    parsed_point(infinity_bytes()).unwrap()
}

/// Whether each of the buffers is read as a point.
pub open spec fn all_parse(keys: Seq<Seq<u8>>) -> bool {
    forall|i: int| 0 <= i < keys.len() ==> (#[trigger] parsed_point(keys[i])) is Some
}

/// One step of the combination: the point that a buffer is read as is added
/// to what was combined so far.
pub open spec fn add_key() -> spec_fn(Point, Seq<u8>) -> Point {
    |acc: Point, key: Seq<u8>| point_sum(acc, parsed_point(key).unwrap())
}

/// The points of the keys added up in order, beginning with the point at
/// infinity.
pub open spec fn combined(keys: Seq<Seq<u8>>) -> Point {
    keys.fold_left(neutral(), add_key())
}

/// The aggregate of the keys, or nothing where one of them is not read as a
/// point.
pub open spec fn aggregate(keys: Seq<Seq<u8>>) -> Option<Point> {
    if all_parse(keys) {
        Some(combined(keys))
    } else {
        None
    }
}

/// The byte strings that the buffers hold.
pub open spec fn contents(buffers: Seq<Vec<u8>>) -> Seq<Seq<u8>> {
    Seq::new(buffers.len(), |i: int| buffers[i]@)
}

impl ComputeAggregateKey {
    /// The call data holds one array of byte strings, `(bytes[])`.
    pub open spec fn shapes() -> Seq<Shape> {
        seq![Shape::Array(Box::new(Shape::Bytes))]
    }

    /// Whether this value holds what the decoded tokens say.
    pub open spec fn reads(self, tokens: Seq<Token>) -> bool {
        bytes_array_of(spec_token_at(tokens, 0)) matches Some(rows) && buffers_hold(
            self.pub_keys@,
            rows,
        )
    }

    /// Whether `r` is what decoding `data` gives: the decoder's tokens read
    /// as this value, or `ParseDataFailed` where the decoder fails.
    pub open spec fn decoded(data: Seq<u8>, r: Result<ComputeAggregateKey, Error>) -> bool {
        match abi_decoding(Self::shapes(), data) {
            None => r == Err::<ComputeAggregateKey, Error>(Error::ParseDataFailed),
            Some(tokens) => tokens_conform(tokens, Self::shapes()) && (r matches Ok(args)
                && args.reads(tokens)),
        }
    }

    fn params_type() -> (types: [ParamType; 1])
        ensures
            shapes_of(types@) == Self::shapes(),
    {
        let bytes_array = ParamType::Array(Box::new(ParamType::Bytes));
        let types = [bytes_array];
        proof {
            reveal_with_fuel(shape_of, 3);
            assert(shapes_of(types@) =~= Self::shapes());
        }
        types
    }

    /// Decodes the arguments from the bytes after the selector.
    pub fn new(data: &[u8]) -> (r: Result<ComputeAggregateKey, Error>)
        ensures
            Self::decoded(data@, r),
    {
        let types = Self::params_type();
        proof {
            reveal_with_fuel(shape_is_plain, 3);
            assert(shapes_are_plain(Self::shapes()));
        }
        let res = match decode(types.as_slice(), data) {
            Some(res) => res,
            None => { return Err(Error::ParseDataFailed); },
        };
        proof {
            assert(token_conforms(res@[0], Self::shapes()[0]));
            conforming_bytes_are_read(res@[0]);
        }
        let pub_keys = into_bytes_array(token_at(&res, 0))?;
        Ok(ComputeAggregateKey { pub_keys })
    }

    /// Whether `r` is the result of the computation: the canonical bytes of
    /// the aggregate of the keys, which are read back as the aggregate.
    pub open spec fn check_gives(self, r: Result<Vec<u8>, Error>) -> bool {
        match aggregate(contents(self.pub_keys@)) {
            None => r == Err::<Vec<u8>, Error>(Error::DeserializeError),
            Some(sum) => match point_bytes(sum) {
                Some(bytes) => r matches Ok(v) && v@ == bytes && parsed_point(v@) == Some(sum),
                None => r == Err::<Vec<u8>, Error>(Error::ProofVerificationFailed),
            },
        }
    }

    /// Reads each key as a point, adds the points up from the point at
    /// infinity, and writes the sum in its canonical compressed form. A key
    /// that is not read as a point fails the call with `DeserializeError`; a
    /// sum that cannot be written, with `ProofVerificationFailed`.
    pub fn check(self) -> (r: Result<Vec<u8>, Error>)
        ensures
            self.check_gives(r),
    {
        let ghost keys = contents(self.pub_keys@);
        let mut aggregate_pub_key = zero_point();
        assert(keys.take(0) =~= Seq::<Seq<u8>>::empty());
        for i in 0..self.pub_keys.len()
            invariant
                keys == contents(self.pub_keys@),
                neutral() == parsed_point(infinity_bytes()).unwrap(),
                forall|j: int| 0 <= j < i ==> (#[trigger] parsed_point(keys[j])) is Some,
                aggregate_pub_key == combined(keys.take(i as int)),
        {
            let v_pub_key = match deserialize(self.pub_keys[i].as_slice()) {
                Ok(point) => point,
                Err(e) => {
                    assert(parsed_point(keys[i as int]) is None);
                    return Err(e);
                },
            };
            proof {
                assert(keys.take(i + 1).drop_last() =~= keys.take(i as int));
                assert(keys.take(i + 1).last() == keys[i as int]);
            }
            aggregate_pub_key = add_points(aggregate_pub_key, v_pub_key);
        }
        assert(keys.take(keys.len() as int) =~= keys);
        match serialize(&aggregate_pub_key) {
            Ok(bytes) => Ok(bytes),
            Err(_) => Err(Error::ProofVerificationFailed),
        }
    }

    /// The price does not depend on what was decoded.
    pub fn gas(self) -> (gas: u64)
        ensures
            gas == COMPUTE_AGGREGATE_KEY_PER_GAS,
    {
        COMPUTE_AGGREGATE_KEY_PER_GAS
    }
}

/// The aggregate does not depend on the order of the keys: two lists that
/// hold the same keys, each as often as the other, have the same aggregate.
/// This rests on the addition of points being commutative and associative,
/// which is a property of the curve and is asked for here.
pub proof fn aggregate_is_order_independent(keys: Seq<Seq<u8>>, permuted: Seq<Seq<u8>>)
    requires
        keys.to_multiset() == permuted.to_multiset(),
        forall|a: Point, b: Point| #[trigger] point_sum(a, b) == point_sum(b, a),
        forall|a: Point, b: Point, c: Point| #[trigger]
            point_sum(point_sum(a, b), c) == point_sum(a, point_sum(b, c)),
    ensures
        aggregate(keys) == aggregate(permuted),
{
    broadcast use vstd::seq_lib::group_to_multiset_ensures;

    assert(all_parse(keys) <==> all_parse(permuted)) by {
        if all_parse(keys) {
            assert forall|i: int| 0 <= i < permuted.len() implies (#[trigger] parsed_point(
                permuted[i],
            )) is Some by {
                assert(permuted.contains(permuted[i]));
                assert(keys.to_multiset().count(permuted[i]) > 0);
                assert(keys.contains(permuted[i]));
            }
        }
        if all_parse(permuted) {
            assert forall|i: int| 0 <= i < keys.len() implies (#[trigger] parsed_point(
                keys[i],
            )) is Some by {
                assert(keys.contains(keys[i]));
                assert(permuted.to_multiset().count(keys[i]) > 0);
                assert(permuted.contains(keys[i]));
            }
        }
    }
    let f = add_key();
    assert(vstd::seq_lib::commutative_foldl(f)) by {
        assert forall|x: Seq<u8>, y: Seq<u8>, v: Point| #[trigger] f(f(v, x), y) == f(
            f(v, y),
            x,
        ) by {
            let px = parsed_point(x).unwrap();
            let py = parsed_point(y).unwrap();
            assert(point_sum(point_sum(v, px), py) == point_sum(v, point_sum(px, py)));
            assert(point_sum(point_sum(v, py), px) == point_sum(v, point_sum(py, px)));
            assert(point_sum(px, py) == point_sum(py, px));
        }
    }
    vstd::seq_lib::lemma_fold_left_permutation(keys, permuted, f, neutral());
}

/// A list without keys has the point at infinity for its aggregate.
pub proof fn aggregate_of_nothing(keys: Seq<Seq<u8>>)
    requires
        keys.len() == 0,
    ensures
        aggregate(keys) == Some(neutral()),
{
}

} // verus!
