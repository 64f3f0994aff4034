//! Decoding of the primitive types from their byte encodings.

use crate::error::CodecError;
use crate::little_endian::{
    from_twos_complement, le_value, lemma_le_value_bound, lemma_radix_pow_values, read_le,
    read_le_signed,
};
use vstd::prelude::*;
use vstd::slice::slice_to_vec;
use vstd::utf8::{
    char_u32_cast, decode_utf8, encode_utf8, encode_utf8_decode_utf8, is_scalar, valid_utf8,
};

verus! {

/// A type whose values can be read back from their byte encoding.
///
/// Numbers are stored least significant byte first, signed numbers in two's
/// complement. The size types take as many bytes as the platform gives them. A
/// boolean is one byte, a character the four bytes of its scalar value, and a
/// string its UTF-8 bytes, as many as there are.
pub trait FromBytes: Sized + View {
    /// The value that `data` encodes, or `None` where `data` encodes no value of this type.
    spec fn decode(data: Seq<u8>) -> Option<Self::V>;

    /// Reads the value that `data` encodes.
    fn from_bytes(data: &[u8]) -> (value: Self)
        requires
            Self::decode(data@) is Some,
        ensures
            Self::decode(data@) == Some(value@),
    ;

    /// Reads the value that `data` encodes, or finds that it encodes none.
    fn try_from_bytes(data: &[u8]) -> (value: Option<Self>)
        ensures
            match value {
                Some(v) => Self::decode(data@) == Some(v@),
                None => Self::decode(data@) is None,
            },
    ;
}

/// Decodes a value of the type `T`.
///
/// Fails with `FormatError` exactly where `data` encodes no value of that type: where
/// its length is not the width of the type, where it is no scalar value of a
/// character, or where it is no UTF-8 of a string.
pub fn decode<T: FromBytes>(data: &[u8]) -> (result: Result<T, CodecError>)
    ensures
        match result {
            Ok(value) => T::decode(data@) == Some(value@),
            Err(e) => e == CodecError::FormatError && T::decode(data@) is None,
        },
{
    match T::try_from_bytes(data) {
        Some(value) => Ok(value),
        None => Err(CodecError::FormatError),
    }
}

/// The unsigned number that `data` encodes on exactly `width` bytes.
pub open spec fn decode_unsigned(data: Seq<u8>, width: nat) -> Option<nat> {
    if data.len() == width {
        Some(le_value(data))
    } else {
        None
    }
}

/// The signed number that `data` encodes on exactly `width` bytes.
pub open spec fn decode_signed(data: Seq<u8>, width: nat) -> Option<int> {
    if data.len() == width {
        Some(from_twos_complement(le_value(data), width))
    } else {
        None
    }
}

/// The number of bytes that the platform gives its size types.
pub open spec fn size_width() -> nat {
    vstd::layout::size_of::<usize>()
}

/// The size types take four or eight bytes.
pub proof fn lemma_size_width()
    ensures
        size_width() == 4 || size_width() == 8,
        size_width() == 4 ==> usize::MAX == 0xffff_ffff && isize::MAX == 0x7fff_ffff && isize::MIN
            == -0x8000_0000,
        size_width() == 8 ==> usize::MAX == 0xffff_ffff_ffff_ffff && isize::MAX
            == 0x7fff_ffff_ffff_ffff && isize::MIN == -0x8000_0000_0000_0000,
{
    broadcast use vstd::layout::layout_of_primitives;

}

impl FromBytes for u8 {
    open spec fn decode(data: Seq<u8>) -> Option<u8> {
        match decode_unsigned(data, 1) {
            Some(number) => Some(number as u8),
            None => None,
        }
    }

    fn from_bytes(data: &[u8]) -> (value: u8) {
        proof {
            lemma_le_value_bound(data@);
            lemma_radix_pow_values();
        }
        read_le(data) as u8
    }

    fn try_from_bytes(data: &[u8]) -> (value: Option<u8>) {
        if data.len() == 1 {
            Some(Self::from_bytes(data))
        } else {
            None
        }
    }
}

impl FromBytes for u16 {
    open spec fn decode(data: Seq<u8>) -> Option<u16> {
        match decode_unsigned(data, 2) {
            Some(number) => Some(number as u16),
            None => None,
        }
    }

    fn from_bytes(data: &[u8]) -> (value: u16) {
        proof {
            lemma_le_value_bound(data@);
            lemma_radix_pow_values();
        }
        read_le(data) as u16
    }

    fn try_from_bytes(data: &[u8]) -> (value: Option<u16>) {
        if data.len() == 2 {
            Some(Self::from_bytes(data))
        } else {
            None
        }
    }
}

impl FromBytes for u32 {
    open spec fn decode(data: Seq<u8>) -> Option<u32> {
        match decode_unsigned(data, 4) {
            Some(number) => Some(number as u32),
            None => None,
        }
    }

    fn from_bytes(data: &[u8]) -> (value: u32) {
        proof {
            lemma_le_value_bound(data@);
            lemma_radix_pow_values();
        }
        read_le(data) as u32
    }

    fn try_from_bytes(data: &[u8]) -> (value: Option<u32>) {
        if data.len() == 4 {
            Some(Self::from_bytes(data))
        } else {
            None
        }
    }
}

impl FromBytes for u64 {
    open spec fn decode(data: Seq<u8>) -> Option<u64> {
        match decode_unsigned(data, 8) {
            Some(number) => Some(number as u64),
            None => None,
        }
    }

    fn from_bytes(data: &[u8]) -> (value: u64) {
        proof {
            lemma_le_value_bound(data@);
            lemma_radix_pow_values();
        }
        read_le(data) as u64
    }

    fn try_from_bytes(data: &[u8]) -> (value: Option<u64>) {
        if data.len() == 8 {
            Some(Self::from_bytes(data))
        } else {
            None
        }
    }
}

impl FromBytes for u128 {
    open spec fn decode(data: Seq<u8>) -> Option<u128> {
        match decode_unsigned(data, 16) {
            Some(number) => Some(number as u128),
            None => None,
        }
    }

    fn from_bytes(data: &[u8]) -> (value: u128) {
        proof {
            lemma_le_value_bound(data@);
            lemma_radix_pow_values();
        }
        read_le(data) as u128
    }

    fn try_from_bytes(data: &[u8]) -> (value: Option<u128>) {
        if data.len() == 16 {
            Some(Self::from_bytes(data))
        } else {
            None
        }
    }
}

impl FromBytes for usize {
    open spec fn decode(data: Seq<u8>) -> Option<usize> {
        match decode_unsigned(data, size_width()) {
            Some(number) => Some(number as usize),
            None => None,
        }
    }

    fn from_bytes(data: &[u8]) -> (value: usize) {
        proof {
            lemma_le_value_bound(data@);
            lemma_radix_pow_values();
            lemma_size_width();
        }
        read_le(data) as usize
    }

    fn try_from_bytes(data: &[u8]) -> (value: Option<usize>) {
        if data.len() == core::mem::size_of::<usize>() {
            Some(Self::from_bytes(data))
        } else {
            None
        }
    }
}

impl FromBytes for i8 {
    open spec fn decode(data: Seq<u8>) -> Option<i8> {
        match decode_signed(data, 1) {
            Some(number) => Some(number as i8),
            None => None,
        }
    }

    fn from_bytes(data: &[u8]) -> (value: i8) {
        proof {
            lemma_le_value_bound(data@);
            lemma_radix_pow_values();
        }
        read_le_signed(data) as i8
    }

    fn try_from_bytes(data: &[u8]) -> (value: Option<i8>) {
        if data.len() == 1 {
            Some(Self::from_bytes(data))
        } else {
            None
        }
    }
}

impl FromBytes for i16 {
    open spec fn decode(data: Seq<u8>) -> Option<i16> {
        match decode_signed(data, 2) {
            Some(number) => Some(number as i16),
            None => None,
        }
    }

    fn from_bytes(data: &[u8]) -> (value: i16) {
        proof {
            lemma_le_value_bound(data@);
            lemma_radix_pow_values();
        }
        read_le_signed(data) as i16
    }

    fn try_from_bytes(data: &[u8]) -> (value: Option<i16>) {
        if data.len() == 2 {
            Some(Self::from_bytes(data))
        } else {
            None
        }
    }
}

impl FromBytes for i32 {
    open spec fn decode(data: Seq<u8>) -> Option<i32> {
        match decode_signed(data, 4) {
            Some(number) => Some(number as i32),
            None => None,
        }
    }

    fn from_bytes(data: &[u8]) -> (value: i32) {
        proof {
            lemma_le_value_bound(data@);
            lemma_radix_pow_values();
        }
        read_le_signed(data) as i32
    }

    fn try_from_bytes(data: &[u8]) -> (value: Option<i32>) {
        if data.len() == 4 {
            Some(Self::from_bytes(data))
        } else {
            None
        }
    }
}

impl FromBytes for i64 {
    open spec fn decode(data: Seq<u8>) -> Option<i64> {
        match decode_signed(data, 8) {
            Some(number) => Some(number as i64),
            None => None,
        }
    }

    fn from_bytes(data: &[u8]) -> (value: i64) {
        proof {
            lemma_le_value_bound(data@);
            lemma_radix_pow_values();
        }
        read_le_signed(data) as i64
    }

    fn try_from_bytes(data: &[u8]) -> (value: Option<i64>) {
        if data.len() == 8 {
            Some(Self::from_bytes(data))
        } else {
            None
        }
    }
}

impl FromBytes for i128 {
    open spec fn decode(data: Seq<u8>) -> Option<i128> {
        match decode_signed(data, 16) {
            Some(number) => Some(number as i128),
            None => None,
        }
    }

    fn from_bytes(data: &[u8]) -> (value: i128) {
        proof {
            lemma_le_value_bound(data@);
            lemma_radix_pow_values();
        }
        read_le_signed(data) as i128
    }

    fn try_from_bytes(data: &[u8]) -> (value: Option<i128>) {
        if data.len() == 16 {
            Some(Self::from_bytes(data))
        } else {
            None
        }
    }
}

impl FromBytes for isize {
    open spec fn decode(data: Seq<u8>) -> Option<isize> {
        match decode_signed(data, size_width()) {
            Some(number) => Some(number as isize),
            None => None,
        }
    }

    fn from_bytes(data: &[u8]) -> (value: isize) {
        proof {
            lemma_le_value_bound(data@);
            lemma_radix_pow_values();
            lemma_size_width();
        }
        read_le_signed(data) as isize
    }

    fn try_from_bytes(data: &[u8]) -> (value: Option<isize>) {
        if data.len() == core::mem::size_of::<usize>() {
            Some(Self::from_bytes(data))
        } else {
            None
        }
    }
}

impl FromBytes for bool {
    open spec fn decode(data: Seq<u8>) -> Option<bool> {
        if data.len() == 1 {
            Some(data[0] != 0)
        } else {
            None
        }
    }

    fn from_bytes(data: &[u8]) -> (value: bool) {
        data[0] != 0
    }

    fn try_from_bytes(data: &[u8]) -> (value: Option<bool>) {
        if data.len() == 1 {
            Some(data[0] != 0)
        } else {
            None
        }
    }
}

/// The scalar value that `data` encodes on four bytes, where it is one of a character.
pub open spec fn decode_scalar(data: Seq<u8>) -> Option<u32> {
    if data.len() == 4 && is_scalar(le_value(data) as u32) {
        Some(le_value(data) as u32)
    } else {
        None
    }
}

impl FromBytes for char {
    open spec fn decode(data: Seq<u8>) -> Option<char> {
        match decode_scalar(data) {
            Some(scalar) => Some(scalar as char),
            None => None,
        }
    }

    fn from_bytes(data: &[u8]) -> (value: char) {
        proof {
            lemma_le_value_bound(data@);
            lemma_radix_pow_values();
        }
        let scalar: u32 = read_le(data) as u32;
        match char_from_u32(scalar) {
            Some(c) => {
                proof {
                    char_u32_cast(c, scalar);
                }
                c
            },
            None => vstd::pervasive::unreached(),
        }
    }

    fn try_from_bytes(data: &[u8]) -> (value: Option<char>) {
        if data.len() != 4 {
            return None;
        }
        proof {
            lemma_le_value_bound(data@);
            lemma_radix_pow_values();
        }
        let scalar: u32 = read_le(data) as u32;
        let decoded: Option<char> = char_from_u32(scalar);
        proof {
            if let Some(c) = decoded {
                char_u32_cast(c, scalar);
            }
        }
        decoded
    }
}

impl FromBytes for String {
    open spec fn decode(data: Seq<u8>) -> Option<Seq<char>> {
        if valid_utf8(data) {
            Some(decode_utf8(data))
        } else {
            None
        }
    }

    fn from_bytes(data: &[u8]) -> (value: String) {
        match string_from_utf8(slice_to_vec(data)) {
            Ok(text) => {
                proof {
                    encode_utf8_decode_utf8(text@);
                }
                text
            },
            Err(_) => vstd::pervasive::unreached(),
        }
    }

    fn try_from_bytes(data: &[u8]) -> (value: Option<String>) {
        match string_from_utf8(slice_to_vec(data)) {
            Ok(text) => {
                proof {
                    encode_utf8_decode_utf8(text@);
                }
                Some(text)
            },
            Err(_) => None,
        }
    }
}

/// The error of `String::from_utf8`, carried through unread.
#[verifier::external_type_specification]
#[verifier::external_body]
pub struct ExFromUtf8Error(std::string::FromUtf8Error);

/// `char::from_u32` of std: the character whose scalar value is `scalar`, and `None`
/// exactly where `scalar` is no Unicode scalar value, that is a surrogate or a number
/// above 0x10FFFF.
#[verifier::external_body]
fn char_from_u32(scalar: u32) -> (c: Option<char>)
    ensures
        c is Some <==> is_scalar(scalar),
        c matches Some(character) ==> character as u32 == scalar,
{
    char::from_u32(scalar)
}

/// `String::from_utf8` of std: the string whose bytes are `bytes`, and an error
/// exactly where `bytes` is no valid UTF-8.
#[verifier::external_body]
fn string_from_utf8(bytes: Vec<u8>) -> (text: Result<String, std::string::FromUtf8Error>)
    ensures
        text is Ok <==> valid_utf8(bytes@),
        text matches Ok(string) ==> encode_utf8(string@) == bytes@,
{
    String::from_utf8(bytes)
}

} // verus!
