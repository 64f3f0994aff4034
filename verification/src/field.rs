//! The two kinds of fields that a record type is built from: the identity of the
//! record, and a value of a primitive type.

use crate::from_bytes::FromBytes;
use crate::to_bytes::ToBytes;
use crate::value::{Value, ValueView};
use vstd::prelude::*;

verus! {

/// The identity of a record: a number that the table gives out once.
#[derive(Clone, Copy, PartialEq, Eq, Debug)]
pub struct OID {
    val: i64,
}

impl View for OID {
    type V = i64;

    closed spec fn view(&self) -> i64 {
        self.val
    }
}

impl OID {
    /// The identity with the given number.
    pub fn new(val: i64) -> (oid: OID)
        ensures
            oid@ == val,
    {
        OID { val }
    }

    /// The number of the identity.
    pub fn value(&self) -> (val: i64)
        ensures
            val == self@,
    {
        self.val
    }

    /// The identity as the value of a field.
    pub fn to_value(&self) -> (value: Value)
        ensures
            value@ == ValueView::I64(self@),
    {
        Value::I64(self.val)
    }
}

impl FromBytes for OID {
    open spec fn decode(data: Seq<u8>) -> Option<i64> {
        <i64 as FromBytes>::decode(data)
    }

    fn from_bytes(data: &[u8]) -> (value: OID) {
        OID { val: i64::from_bytes(data) }
    }

    fn try_from_bytes(data: &[u8]) -> (value: Option<OID>) {
        match i64::try_from_bytes(data) {
            Some(val) => Some(OID { val }),
            None => None,
        }
    }
}

impl ToBytes for OID {
    open spec fn encode(value: i64) -> Seq<u8> {
        <i64 as ToBytes>::encode(value)
    }

    fn to_bytes(&self) -> (bytes: Vec<u8>) {
        self.val.to_bytes()
    }

    proof fn lemma_decode_encode(value: OID) {
        <i64 as ToBytes>::lemma_decode_encode(value.val);
    }
}

/// A field that holds a value of a primitive type.
#[derive(Clone, Copy, PartialEq, Eq, Debug)]
pub struct Primitive<T> {
    val: T,
}

impl<T: View> View for Primitive<T> {
    type V = T::V;

    closed spec fn view(&self) -> T::V {
        self.val@
    }
}

impl<T: View> Primitive<T> {
    /// The field that holds `val`.
    pub fn new(val: T) -> (field: Primitive<T>)
        ensures
            field@ == val@,
    {
        Primitive { val }
    }

    /// The value that the field holds.
    pub fn value(&self) -> (val: &T)
        ensures
            val@ == self@,
    {
        &self.val
    }

    /// The value that the field held.
    pub fn into_value(self) -> (val: T)
        ensures
            val@ == self@,
    {
        self.val
    }
}

impl<T: FromBytes> FromBytes for Primitive<T> {
    open spec fn decode(data: Seq<u8>) -> Option<T::V> {
        T::decode(data)
    }

    fn from_bytes(data: &[u8]) -> (value: Primitive<T>) {
        Primitive { val: T::from_bytes(data) }
    }

    fn try_from_bytes(data: &[u8]) -> (value: Option<Primitive<T>>) {
        match T::try_from_bytes(data) {
            Some(val) => Some(Primitive { val }),
            None => None,
        }
    }
}

impl<T: ToBytes> ToBytes for Primitive<T> {
    open spec fn encode(value: T::V) -> Seq<u8> {
        T::encode(value)
    }

    fn to_bytes(&self) -> (bytes: Vec<u8>) {
        self.val.to_bytes()
    }

    proof fn lemma_decode_encode(value: Primitive<T>) {
        T::lemma_decode_encode(value.val);
    }
}

} // verus!
