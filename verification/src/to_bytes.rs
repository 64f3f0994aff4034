//! Encoding of the primitive types, the inverse of their decoding.

use crate::from_bytes::{lemma_size_width, size_width, FromBytes};
use crate::little_endian::{
    fits_signed, le_bytes, lemma_le_bytes_len, lemma_le_value_of_bytes, lemma_radix_pow_values,
    lemma_twos_complement_round_trip, twos_complement, write_le, write_le_signed,
};
use vstd::prelude::*;
use vstd::slice::slice_to_vec;
use vstd::utf8::{
    char_is_scalar, char_u32_cast, encode_utf8, encode_utf8_decode_utf8, encode_utf8_valid_utf8,
};

verus! {

/// A type whose values can be written as bytes and read back unchanged.
pub trait ToBytes: FromBytes {
    /// The bytes that encode `value`.
    spec fn encode(value: Self::V) -> Seq<u8>;

    /// Writes the bytes that encode the value.
    fn to_bytes(&self) -> (bytes: Vec<u8>)
        ensures
            bytes@ == Self::encode(self@),
    ;

    /// Decoding the encoding of a value gives the value back.
    proof fn lemma_decode_encode(value: Self)
        ensures
            Self::decode(Self::encode(value@)) == Some(value@),
    ;
}

/// Encodes a value. Decoding the bytes gives the value back.
pub fn encode<T: ToBytes>(value: &T) -> (bytes: Vec<u8>)
    ensures
        bytes@ == T::encode(value@),
        T::decode(bytes@) == Some(value@),
{
    proof {
        T::lemma_decode_encode(*value);
    }
    value.to_bytes()
}

impl ToBytes for u8 {
    open spec fn encode(value: u8) -> Seq<u8> {
        le_bytes(value as nat, 1)
    }

    fn to_bytes(&self) -> (bytes: Vec<u8>) {
        write_le(*self as u128, 1)
    }

    proof fn lemma_decode_encode(value: u8) {
        lemma_radix_pow_values();
        lemma_le_bytes_len(value as nat, 1);
        lemma_le_value_of_bytes(value as nat, 1);
    }
}

impl ToBytes for u16 {
    open spec fn encode(value: u16) -> Seq<u8> {
        le_bytes(value as nat, 2)
    }

    fn to_bytes(&self) -> (bytes: Vec<u8>) {
        write_le(*self as u128, 2)
    }

    proof fn lemma_decode_encode(value: u16) {
        lemma_radix_pow_values();
        lemma_le_bytes_len(value as nat, 2);
        lemma_le_value_of_bytes(value as nat, 2);
    }
}

impl ToBytes for u32 {
    open spec fn encode(value: u32) -> Seq<u8> {
        le_bytes(value as nat, 4)
    }

    fn to_bytes(&self) -> (bytes: Vec<u8>) {
        write_le(*self as u128, 4)
    }

    proof fn lemma_decode_encode(value: u32) {
        lemma_radix_pow_values();
        lemma_le_bytes_len(value as nat, 4);
        lemma_le_value_of_bytes(value as nat, 4);
    }
}

impl ToBytes for u64 {
    open spec fn encode(value: u64) -> Seq<u8> {
        le_bytes(value as nat, 8)
    }

    fn to_bytes(&self) -> (bytes: Vec<u8>) {
        write_le(*self as u128, 8)
    }

    proof fn lemma_decode_encode(value: u64) {
        lemma_radix_pow_values();
        lemma_le_bytes_len(value as nat, 8);
        lemma_le_value_of_bytes(value as nat, 8);
    }
}

impl ToBytes for u128 {
    open spec fn encode(value: u128) -> Seq<u8> {
        le_bytes(value as nat, 16)
    }

    fn to_bytes(&self) -> (bytes: Vec<u8>) {
        write_le(*self as u128, 16)
    }

    proof fn lemma_decode_encode(value: u128) {
        lemma_radix_pow_values();
        lemma_le_bytes_len(value as nat, 16);
        lemma_le_value_of_bytes(value as nat, 16);
    }
}

impl ToBytes for usize {
    open spec fn encode(value: usize) -> Seq<u8> {
        le_bytes(value as nat, size_width())
    }

    fn to_bytes(&self) -> (bytes: Vec<u8>) {
        write_le(*self as u128, core::mem::size_of::<usize>())
    }

    proof fn lemma_decode_encode(value: usize) {
        lemma_radix_pow_values();
        lemma_size_width();
        lemma_le_bytes_len(value as nat, size_width());
        lemma_le_value_of_bytes(value as nat, size_width());
    }
}

impl ToBytes for i8 {
    open spec fn encode(value: i8) -> Seq<u8> {
        le_bytes(twos_complement(value as int, 1), 1)
    }

    fn to_bytes(&self) -> (bytes: Vec<u8>) {
        proof {
            lemma_radix_pow_values();
        }
        write_le_signed(*self as i128, 1)
    }

    proof fn lemma_decode_encode(value: i8) {
        lemma_radix_pow_values();
        lemma_twos_complement_round_trip(value as int, 1);
        let code = twos_complement(value as int, 1);
        lemma_le_bytes_len(code, 1);
        lemma_le_value_of_bytes(code, 1);
    }
}

impl ToBytes for i16 {
    open spec fn encode(value: i16) -> Seq<u8> {
        le_bytes(twos_complement(value as int, 2), 2)
    }

    fn to_bytes(&self) -> (bytes: Vec<u8>) {
        proof {
            lemma_radix_pow_values();
        }
        write_le_signed(*self as i128, 2)
    }

    proof fn lemma_decode_encode(value: i16) {
        lemma_radix_pow_values();
        lemma_twos_complement_round_trip(value as int, 2);
        let code = twos_complement(value as int, 2);
        lemma_le_bytes_len(code, 2);
        lemma_le_value_of_bytes(code, 2);
    }
}

impl ToBytes for i32 {
    open spec fn encode(value: i32) -> Seq<u8> {
        le_bytes(twos_complement(value as int, 4), 4)
    }

    fn to_bytes(&self) -> (bytes: Vec<u8>) {
        proof {
            lemma_radix_pow_values();
        }
        write_le_signed(*self as i128, 4)
    }

    proof fn lemma_decode_encode(value: i32) {
        lemma_radix_pow_values();
        lemma_twos_complement_round_trip(value as int, 4);
        let code = twos_complement(value as int, 4);
        lemma_le_bytes_len(code, 4);
        lemma_le_value_of_bytes(code, 4);
    }
}

impl ToBytes for i64 {
    open spec fn encode(value: i64) -> Seq<u8> {
        le_bytes(twos_complement(value as int, 8), 8)
    }

    fn to_bytes(&self) -> (bytes: Vec<u8>) {
        proof {
            lemma_radix_pow_values();
        }
        write_le_signed(*self as i128, 8)
    }

    proof fn lemma_decode_encode(value: i64) {
        lemma_radix_pow_values();
        lemma_twos_complement_round_trip(value as int, 8);
        let code = twos_complement(value as int, 8);
        lemma_le_bytes_len(code, 8);
        lemma_le_value_of_bytes(code, 8);
    }
}

impl ToBytes for i128 {
    open spec fn encode(value: i128) -> Seq<u8> {
        le_bytes(twos_complement(value as int, 16), 16)
    }

    fn to_bytes(&self) -> (bytes: Vec<u8>) {
        proof {
            lemma_radix_pow_values();
        }
        write_le_signed(*self as i128, 16)
    }

    proof fn lemma_decode_encode(value: i128) {
        lemma_radix_pow_values();
        lemma_twos_complement_round_trip(value as int, 16);
        let code = twos_complement(value as int, 16);
        lemma_le_bytes_len(code, 16);
        lemma_le_value_of_bytes(code, 16);
    }
}

impl ToBytes for isize {
    open spec fn encode(value: isize) -> Seq<u8> {
        le_bytes(twos_complement(value as int, size_width()), size_width())
    }

    fn to_bytes(&self) -> (bytes: Vec<u8>) {
        proof {
            lemma_radix_pow_values();
        lemma_size_width();
        }
        write_le_signed(*self as i128, core::mem::size_of::<usize>())
    }

    proof fn lemma_decode_encode(value: isize) {
        lemma_radix_pow_values();
        lemma_size_width();
        lemma_twos_complement_round_trip(value as int, size_width());
        let code = twos_complement(value as int, size_width());
        lemma_le_bytes_len(code, size_width());
        lemma_le_value_of_bytes(code, size_width());
    }
}

impl ToBytes for bool {
    open spec fn encode(value: bool) -> Seq<u8> {
        if value {
            seq![1u8]
        } else {
            seq![0u8]
        }
    }

    fn to_bytes(&self) -> (bytes: Vec<u8>) {
        let mut bytes: Vec<u8> = Vec::new();
        if *self {
            bytes.push(1u8);
        } else {
            bytes.push(0u8);
        }
        assert(bytes@ =~= Self::encode(*self));
        bytes
    }

    proof fn lemma_decode_encode(value: bool) {
    }
}

impl ToBytes for char {
    open spec fn encode(value: char) -> Seq<u8> {
        le_bytes((value as u32) as nat, 4)
    }

    fn to_bytes(&self) -> (bytes: Vec<u8>) {
        let scalar: u32 = *self as u32;
        write_le(scalar as u128, 4)
    }

    proof fn lemma_decode_encode(value: char) {
        let scalar = value as u32;
        char_is_scalar(value);
        char_u32_cast(value, scalar);
        lemma_radix_pow_values();
        lemma_le_bytes_len(scalar as nat, 4);
        lemma_le_value_of_bytes(scalar as nat, 4);
    }
}

impl ToBytes for String {
    open spec fn encode(value: Seq<char>) -> Seq<u8> {
        encode_utf8(value)
    }

    fn to_bytes(&self) -> (bytes: Vec<u8>) {
        slice_to_vec(self.as_str().as_bytes())
    }

    proof fn lemma_decode_encode(value: String) {
        encode_utf8_valid_utf8(value@);
        encode_utf8_decode_utf8(value@);
    }
}

} // verus!
