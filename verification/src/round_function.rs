//! The round function abstraction: a pure map from a 128-bit block and a
//! 128-bit round key to a 128-bit block.  The Feistel engine is generic
//! over this capability, so alternative round functions can be substituted
//! without touching the network logic.

use vstd::prelude::*;

use crate::block::Block128;
use crate::block::wrapping_add_bytes;

verus! {

/// `F: B x K -> B`, where `B` is the 128-bit block width and `K` the
/// 128-bit round-key width.  The function must be pure and deterministic:
/// `f_spec` is its mathematical meaning, and `f` computes exactly it.
#[allow(non_snake_case)]
pub trait RoundFunction256 {
    /// The round function as a map on 16-byte sequences.
    spec fn f_spec(input: Seq<u8>, key: Seq<u8>) -> Seq<u8>;

    /// A round function maps 128-bit inputs to 128-bit outputs.
    proof fn f_spec_len(input: Seq<u8>, key: Seq<u8>)
        requires
            input.len() == 16,
            key.len() == 16,
        ensures
            Self::f_spec(input, key).len() == 16,
    ;

    /// Applies the round function to one block under one round key.
    fn f(input: Block128, K_i: Block128) -> (r: Block128)
        ensures
            r@ == Self::f_spec(input@, K_i@),
    ;
}

/// The reference round function: bytewise wrapping addition of the input
/// and the round key.  Explicitly a placeholder, not a security claim.
pub struct NaiveWrappingAdd;

#[allow(non_snake_case)]
impl RoundFunction256 for NaiveWrappingAdd {
    open spec fn f_spec(input: Seq<u8>, key: Seq<u8>) -> Seq<u8> {
        wrapping_add_bytes(input, key)
    }

    proof fn f_spec_len(input: Seq<u8>, key: Seq<u8>) {
    }

    fn f(input: Block128, K_i: Block128) -> (r: Block128) {
        input.wrapping_add(&K_i)
    }
}

} // verus!
