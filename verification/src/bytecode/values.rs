use vstd::prelude::*;
use vstd::array::array_fill_for_copy_types;
use vstd::bytes::{
    lemma_auto_spec_u128_to_from_le_bytes,
    lemma_auto_spec_u16_to_from_le_bytes,
    lemma_auto_spec_u32_to_from_le_bytes,
    lemma_auto_spec_u64_to_from_le_bytes,
    spec_u128_to_le_bytes,
    spec_u16_to_le_bytes,
    spec_u32_to_le_bytes,
    spec_u64_to_le_bytes,
    u128_from_le_bytes,
    u128_to_le_bytes,
    u16_from_le_bytes,
    u16_to_le_bytes,
    u32_from_le_bytes,
    u32_to_le_bytes,
    u64_from_le_bytes,
    u64_to_le_bytes,
};
use crate::bytecode::chunk::Value;

verus! {

/// The array that holds the given bytes.
pub fn array_of<const N: usize>(bytes: &Vec<u8>) -> (r: [u8; N])
    requires
        bytes@.len() == N,
    ensures
        r@ == bytes@,
{
    let mut r: [u8; N] = array_fill_for_copy_types(0u8);
    let mut i: usize = 0;
    while i < N
        invariant
            i <= N,
            bytes@.len() == N,
            r@.len() == N,
            forall|k: int| 0 <= k < i ==> r@[k] == bytes@[k],
        decreases N - i,
    {
        r[i] = bytes[i];
        i += 1;
    }
    assert(r@ =~= bytes@);
    r
}

impl Value<1> for u8 {
    open spec fn spec_bits(self) -> Seq<u8> {
        seq![self]
    }

    fn to_bits(self) -> (r: [u8; 1]) {
        let r = [self];
        assert(r@ =~= seq![self]);
        r
    }

    fn from_bits(bits: [u8; 1]) -> (r: Self) {
        let r = bits[0];
        assert(seq![r] =~= bits@);
        r
    }
}

impl Value<1> for i8 {
    open spec fn spec_bits(self) -> Seq<u8> {
        seq![self as u8]
    }

    fn to_bits(self) -> (r: [u8; 1]) {
        let r = [self as u8];
        assert(r@ =~= seq![self as u8]);
        r
    }

    fn from_bits(bits: [u8; 1]) -> (r: Self) {
        let byte = bits[0];
        let r = byte as i8;
        assert((byte as i8) as u8 == byte) by (bit_vector);
        assert(seq![r as u8] =~= bits@);
        r
    }
}

impl Value<2> for u16 {
    open spec fn spec_bits(self) -> Seq<u8> {
        spec_u16_to_le_bytes(self)
    }

    fn to_bits(self) -> (r: [u8; 2]) {
        array_of(&u16_to_le_bytes(self))
    }

    fn from_bits(bits: [u8; 2]) -> (r: Self) {
        proof {
            lemma_auto_spec_u16_to_from_le_bytes();
        }
        u16_from_le_bytes(bits.as_slice())
    }
}

impl Value<2> for i16 {
    open spec fn spec_bits(self) -> Seq<u8> {
        spec_u16_to_le_bytes(self as u16)
    }

    fn to_bits(self) -> (r: [u8; 2]) {
        array_of(&u16_to_le_bytes(self as u16))
    }

    fn from_bits(bits: [u8; 2]) -> (r: Self) {
        proof {
            lemma_auto_spec_u16_to_from_le_bytes();
        }
        let word = u16_from_le_bytes(bits.as_slice());
        assert((word as i16) as u16 == word) by (bit_vector);
        word as i16
    }
}

impl Value<4> for u32 {
    open spec fn spec_bits(self) -> Seq<u8> {
        spec_u32_to_le_bytes(self)
    }

    fn to_bits(self) -> (r: [u8; 4]) {
        array_of(&u32_to_le_bytes(self))
    }

    fn from_bits(bits: [u8; 4]) -> (r: Self) {
        proof {
            lemma_auto_spec_u32_to_from_le_bytes();
        }
        u32_from_le_bytes(bits.as_slice())
    }
}

impl Value<4> for i32 {
    open spec fn spec_bits(self) -> Seq<u8> {
        spec_u32_to_le_bytes(self as u32)
    }

    fn to_bits(self) -> (r: [u8; 4]) {
        array_of(&u32_to_le_bytes(self as u32))
    }

    fn from_bits(bits: [u8; 4]) -> (r: Self) {
        proof {
            lemma_auto_spec_u32_to_from_le_bytes();
        }
        let word = u32_from_le_bytes(bits.as_slice());
        assert((word as i32) as u32 == word) by (bit_vector);
        word as i32
    }
}

impl Value<8> for u64 {
    open spec fn spec_bits(self) -> Seq<u8> {
        spec_u64_to_le_bytes(self)
    }

    fn to_bits(self) -> (r: [u8; 8]) {
        array_of(&u64_to_le_bytes(self))
    }

    fn from_bits(bits: [u8; 8]) -> (r: Self) {
        proof {
            lemma_auto_spec_u64_to_from_le_bytes();
        }
        u64_from_le_bytes(bits.as_slice())
    }
}

impl Value<8> for i64 {
    open spec fn spec_bits(self) -> Seq<u8> {
        spec_u64_to_le_bytes(self as u64)
    }

    fn to_bits(self) -> (r: [u8; 8]) {
        array_of(&u64_to_le_bytes(self as u64))
    }

    fn from_bits(bits: [u8; 8]) -> (r: Self) {
        proof {
            lemma_auto_spec_u64_to_from_le_bytes();
        }
        let word = u64_from_le_bytes(bits.as_slice());
        assert((word as i64) as u64 == word) by (bit_vector);
        word as i64
    }
}

impl Value<16> for u128 {
    open spec fn spec_bits(self) -> Seq<u8> {
        spec_u128_to_le_bytes(self)
    }

    fn to_bits(self) -> (r: [u8; 16]) {
        array_of(&u128_to_le_bytes(self))
    }

    fn from_bits(bits: [u8; 16]) -> (r: Self) {
        proof {
            lemma_auto_spec_u128_to_from_le_bytes();
        }
        u128_from_le_bytes(bits.as_slice())
    }
}

impl Value<16> for i128 {
    open spec fn spec_bits(self) -> Seq<u8> {
        spec_u128_to_le_bytes(self as u128)
    }

    fn to_bits(self) -> (r: [u8; 16]) {
        array_of(&u128_to_le_bytes(self as u128))
    }

    fn from_bits(bits: [u8; 16]) -> (r: Self) {
        proof {
            lemma_auto_spec_u128_to_from_le_bytes();
        }
        let word = u128_from_le_bytes(bits.as_slice());
        assert((word as i128) as u128 == word) by (bit_vector);
        word as i128
    }
}

} // verus!
