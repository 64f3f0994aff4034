//! The closed set of field types, and the values of those types.

use crate::error::CodecError;
use crate::from_bytes::FromBytes;
use crate::to_bytes::ToBytes;
use vstd::prelude::*;
use vstd::utf8::{encode_utf8, encode_utf8_decode_utf8, encode_utf8_valid_utf8};

verus! {

/// The type that a field declares. A table header records it by its name.
#[derive(Clone, Copy, PartialEq, Eq, Structural, Debug)]
pub enum PrimitiveType {
    /// An 8-bit signed number.
    I8,
    /// A 16-bit signed number.
    I16,
    /// A 32-bit signed number.
    I32,
    /// A 64-bit signed number.
    I64,
    /// A 128-bit signed number.
    I128,
    /// A signed number of the platform's size.
    Isize,
    /// An 8-bit unsigned number.
    U8,
    /// A 16-bit unsigned number.
    U16,
    /// A 32-bit unsigned number.
    U32,
    /// A 64-bit unsigned number.
    U64,
    /// A 128-bit unsigned number.
    U128,
    /// An unsigned number of the platform's size.
    Usize,
    /// A 32-bit binary floating-point number, held as its bit pattern.
    F32,
    /// A 64-bit binary floating-point number, held as its bit pattern.
    F64,
    /// A boolean.
    Bool,
    /// A character.
    Char,
    /// A string.
    Str,
}

impl PrimitiveType {
    /// The name under which a table header records the type.
    pub open spec fn spec_name(self) -> Seq<char> {
        match self {
            PrimitiveType::I8 => "i8"@,
            PrimitiveType::I16 => "i16"@,
            PrimitiveType::I32 => "i32"@,
            PrimitiveType::I64 => "i64"@,
            PrimitiveType::I128 => "i128"@,
            PrimitiveType::Isize => "isize"@,
            PrimitiveType::U8 => "u8"@,
            PrimitiveType::U16 => "u16"@,
            PrimitiveType::U32 => "u32"@,
            PrimitiveType::U64 => "u64"@,
            PrimitiveType::U128 => "u128"@,
            PrimitiveType::Usize => "usize"@,
            PrimitiveType::F32 => "f32"@,
            PrimitiveType::F64 => "f64"@,
            PrimitiveType::Bool => "bool"@,
            PrimitiveType::Char => "char"@,
            PrimitiveType::Str => "String"@,
        }
    }

    /// The name under which a table header records the type.
    pub fn name(&self) -> (name: &'static str)
        ensures
            name@ == self.spec_name(),
    {
        match self {
            PrimitiveType::I8 => "i8",
            PrimitiveType::I16 => "i16",
            PrimitiveType::I32 => "i32",
            PrimitiveType::I64 => "i64",
            PrimitiveType::I128 => "i128",
            PrimitiveType::Isize => "isize",
            PrimitiveType::U8 => "u8",
            PrimitiveType::U16 => "u16",
            PrimitiveType::U32 => "u32",
            PrimitiveType::U64 => "u64",
            PrimitiveType::U128 => "u128",
            PrimitiveType::Usize => "usize",
            PrimitiveType::F32 => "f32",
            PrimitiveType::F64 => "f64",
            PrimitiveType::Bool => "bool",
            PrimitiveType::Char => "char",
            PrimitiveType::Str => "String",
        }
    }

    /// The type that a table header records under `name`, if there is one.
    pub fn from_name(name: &str) -> (ty: Option<PrimitiveType>)
        ensures
            match ty {
                Some(t) => t.spec_name() == name@,
                None => forall|t: PrimitiveType| t.spec_name() != name@,
            },
    {
        if same_text(name, "i8") {
            Some(PrimitiveType::I8)
        } else if same_text(name, "i16") {
            Some(PrimitiveType::I16)
        } else if same_text(name, "i32") {
            Some(PrimitiveType::I32)
        } else if same_text(name, "i64") {
            Some(PrimitiveType::I64)
        } else if same_text(name, "i128") {
            Some(PrimitiveType::I128)
        } else if same_text(name, "isize") {
            Some(PrimitiveType::Isize)
        } else if same_text(name, "u8") {
            Some(PrimitiveType::U8)
        } else if same_text(name, "u16") {
            Some(PrimitiveType::U16)
        } else if same_text(name, "u32") {
            Some(PrimitiveType::U32)
        } else if same_text(name, "u64") {
            Some(PrimitiveType::U64)
        } else if same_text(name, "u128") {
            Some(PrimitiveType::U128)
        } else if same_text(name, "usize") {
            Some(PrimitiveType::Usize)
        } else if same_text(name, "f32") {
            Some(PrimitiveType::F32)
        } else if same_text(name, "f64") {
            Some(PrimitiveType::F64)
        } else if same_text(name, "bool") {
            Some(PrimitiveType::Bool)
        } else if same_text(name, "char") {
            Some(PrimitiveType::Char)
        } else if same_text(name, "String") {
            Some(PrimitiveType::Str)
        } else {
            None
        }
    }
}

/// Whether two texts are the same.
pub fn same_text(left: &str, right: &str) -> (same: bool)
    ensures
        same == (left@ == right@),
{
    let a: &[u8] = left.as_bytes();
    let b: &[u8] = right.as_bytes();
    proof {
        encode_utf8_decode_utf8(left@);
        encode_utf8_decode_utf8(right@);
    }
    if a.len() != b.len() {
        return false;
    }
    let mut at: usize = 0;
    while at < a.len()
        invariant
            at <= a@.len() == b@.len(),
            a@ == encode_utf8(left@),
            b@ == encode_utf8(right@),
            forall|i: int| 0 <= i < at ==> a@[i] == b@[i],
        decreases a@.len() - at,
    {
        if a[at] != b[at] {
            return false;
        }
        at = at + 1;
    }
    assert(a@ =~= b@);
    true
}

/// The value of one field of a record.
///
/// A floating-point number is held as its bit pattern, which is what the
/// storage format carries.
#[derive(Clone, PartialEq, Eq, Debug)]
pub enum Value {
    /// An 8-bit signed number.
    I8(i8),
    /// A 16-bit signed number.
    I16(i16),
    /// A 32-bit signed number.
    I32(i32),
    /// A 64-bit signed number.
    I64(i64),
    /// A 128-bit signed number.
    I128(i128),
    /// A signed number of the platform's size.
    Isize(isize),
    /// An 8-bit unsigned number.
    U8(u8),
    /// A 16-bit unsigned number.
    U16(u16),
    /// A 32-bit unsigned number.
    U32(u32),
    /// A 64-bit unsigned number.
    U64(u64),
    /// A 128-bit unsigned number.
    U128(u128),
    /// An unsigned number of the platform's size.
    Usize(usize),
    /// A 32-bit binary floating-point number, held as its bit pattern.
    F32(u32),
    /// A 64-bit binary floating-point number, held as its bit pattern.
    F64(u64),
    /// A boolean.
    Bool(bool),
    /// A character.
    Char(char),
    /// A string.
    Str(String),
}

/// What a [`Value`] stands for.
pub enum ValueView {
    I8(i8),
    I16(i16),
    I32(i32),
    I64(i64),
    I128(i128),
    Isize(isize),
    U8(u8),
    U16(u16),
    U32(u32),
    U64(u64),
    U128(u128),
    Usize(usize),
    F32(u32),
    F64(u64),
    Bool(bool),
    Char(char),
    Str(Seq<char>),
}

impl View for Value {
    type V = ValueView;

    open spec fn view(&self) -> ValueView {
        match self {
            Value::I8(x) => ValueView::I8(*x),
            Value::I16(x) => ValueView::I16(*x),
            Value::I32(x) => ValueView::I32(*x),
            Value::I64(x) => ValueView::I64(*x),
            Value::I128(x) => ValueView::I128(*x),
            Value::Isize(x) => ValueView::Isize(*x),
            Value::U8(x) => ValueView::U8(*x),
            Value::U16(x) => ValueView::U16(*x),
            Value::U32(x) => ValueView::U32(*x),
            Value::U64(x) => ValueView::U64(*x),
            Value::U128(x) => ValueView::U128(*x),
            Value::Usize(x) => ValueView::Usize(*x),
            Value::F32(x) => ValueView::F32(*x),
            Value::F64(x) => ValueView::F64(*x),
            Value::Bool(x) => ValueView::Bool(*x),
            Value::Char(x) => ValueView::Char(*x),
            Value::Str(x) => ValueView::Str(x@),
        }
    }
}

impl ValueView {
    /// The type of the value.
    pub open spec fn value_type(self) -> PrimitiveType {
        match self {
            ValueView::I8(_) => PrimitiveType::I8,
            ValueView::I16(_) => PrimitiveType::I16,
            ValueView::I32(_) => PrimitiveType::I32,
            ValueView::I64(_) => PrimitiveType::I64,
            ValueView::I128(_) => PrimitiveType::I128,
            ValueView::Isize(_) => PrimitiveType::Isize,
            ValueView::U8(_) => PrimitiveType::U8,
            ValueView::U16(_) => PrimitiveType::U16,
            ValueView::U32(_) => PrimitiveType::U32,
            ValueView::U64(_) => PrimitiveType::U64,
            ValueView::U128(_) => PrimitiveType::U128,
            ValueView::Usize(_) => PrimitiveType::Usize,
            ValueView::F32(_) => PrimitiveType::F32,
            ValueView::F64(_) => PrimitiveType::F64,
            ValueView::Bool(_) => PrimitiveType::Bool,
            ValueView::Char(_) => PrimitiveType::Char,
            ValueView::Str(_) => PrimitiveType::Str,
        }
    }
}

/// The bytes that encode `value`.
pub open spec fn encode_value(value: ValueView) -> Seq<u8> {
    match value {
        ValueView::I8(x) => <i8 as ToBytes>::encode(x),
        ValueView::I16(x) => <i16 as ToBytes>::encode(x),
        ValueView::I32(x) => <i32 as ToBytes>::encode(x),
        ValueView::I64(x) => <i64 as ToBytes>::encode(x),
        ValueView::I128(x) => <i128 as ToBytes>::encode(x),
        ValueView::Isize(x) => <isize as ToBytes>::encode(x),
        ValueView::U8(x) => <u8 as ToBytes>::encode(x),
        ValueView::U16(x) => <u16 as ToBytes>::encode(x),
        ValueView::U32(x) => <u32 as ToBytes>::encode(x),
        ValueView::U64(x) => <u64 as ToBytes>::encode(x),
        ValueView::U128(x) => <u128 as ToBytes>::encode(x),
        ValueView::Usize(x) => <usize as ToBytes>::encode(x),
        ValueView::F32(x) => <u32 as ToBytes>::encode(x),
        ValueView::F64(x) => <u64 as ToBytes>::encode(x),
        ValueView::Bool(x) => <bool as ToBytes>::encode(x),
        ValueView::Char(x) => <char as ToBytes>::encode(x),
        ValueView::Str(x) => <String as ToBytes>::encode(x),
    }
}

/// The value of type `ty` that `data` encodes, or `None` where it encodes none.
pub open spec fn decode_value(ty: PrimitiveType, data: Seq<u8>) -> Option<ValueView> {
    match ty {
        PrimitiveType::I8 => match <i8 as FromBytes>::decode(data) {
            Some(x) => Some(ValueView::I8(x)),
            None => None,
        },
        PrimitiveType::I16 => match <i16 as FromBytes>::decode(data) {
            Some(x) => Some(ValueView::I16(x)),
            None => None,
        },
        PrimitiveType::I32 => match <i32 as FromBytes>::decode(data) {
            Some(x) => Some(ValueView::I32(x)),
            None => None,
        },
        PrimitiveType::I64 => match <i64 as FromBytes>::decode(data) {
            Some(x) => Some(ValueView::I64(x)),
            None => None,
        },
        PrimitiveType::I128 => match <i128 as FromBytes>::decode(data) {
            Some(x) => Some(ValueView::I128(x)),
            None => None,
        },
        PrimitiveType::Isize => match <isize as FromBytes>::decode(data) {
            Some(x) => Some(ValueView::Isize(x)),
            None => None,
        },
        PrimitiveType::U8 => match <u8 as FromBytes>::decode(data) {
            Some(x) => Some(ValueView::U8(x)),
            None => None,
        },
        PrimitiveType::U16 => match <u16 as FromBytes>::decode(data) {
            Some(x) => Some(ValueView::U16(x)),
            None => None,
        },
        PrimitiveType::U32 => match <u32 as FromBytes>::decode(data) {
            Some(x) => Some(ValueView::U32(x)),
            None => None,
        },
        PrimitiveType::U64 => match <u64 as FromBytes>::decode(data) {
            Some(x) => Some(ValueView::U64(x)),
            None => None,
        },
        PrimitiveType::U128 => match <u128 as FromBytes>::decode(data) {
            Some(x) => Some(ValueView::U128(x)),
            None => None,
        },
        PrimitiveType::Usize => match <usize as FromBytes>::decode(data) {
            Some(x) => Some(ValueView::Usize(x)),
            None => None,
        },
        PrimitiveType::F32 => match <u32 as FromBytes>::decode(data) {
            Some(x) => Some(ValueView::F32(x)),
            None => None,
        },
        PrimitiveType::F64 => match <u64 as FromBytes>::decode(data) {
            Some(x) => Some(ValueView::F64(x)),
            None => None,
        },
        PrimitiveType::Bool => match <bool as FromBytes>::decode(data) {
            Some(x) => Some(ValueView::Bool(x)),
            None => None,
        },
        PrimitiveType::Char => match <char as FromBytes>::decode(data) {
            Some(x) => Some(ValueView::Char(x)),
            None => None,
        },
        PrimitiveType::Str => match <String as FromBytes>::decode(data) {
            Some(x) => Some(ValueView::Str(x)),
            None => None,
        },
    }
}

/// Decoding the encoding of a value, as a value of its own type, gives the value back.
pub proof fn lemma_decode_encode_value(value: ValueView)
    ensures
        decode_value(value.value_type(), encode_value(value)) == Some(value),
{
    match value {
        ValueView::I8(x) => <i8 as ToBytes>::lemma_decode_encode(x),
        ValueView::I16(x) => <i16 as ToBytes>::lemma_decode_encode(x),
        ValueView::I32(x) => <i32 as ToBytes>::lemma_decode_encode(x),
        ValueView::I64(x) => <i64 as ToBytes>::lemma_decode_encode(x),
        ValueView::I128(x) => <i128 as ToBytes>::lemma_decode_encode(x),
        ValueView::Isize(x) => <isize as ToBytes>::lemma_decode_encode(x),
        ValueView::U8(x) => <u8 as ToBytes>::lemma_decode_encode(x),
        ValueView::U16(x) => <u16 as ToBytes>::lemma_decode_encode(x),
        ValueView::U32(x) => <u32 as ToBytes>::lemma_decode_encode(x),
        ValueView::U64(x) => <u64 as ToBytes>::lemma_decode_encode(x),
        ValueView::U128(x) => <u128 as ToBytes>::lemma_decode_encode(x),
        ValueView::Usize(x) => <usize as ToBytes>::lemma_decode_encode(x),
        ValueView::F32(x) => <u32 as ToBytes>::lemma_decode_encode(x),
        ValueView::F64(x) => <u64 as ToBytes>::lemma_decode_encode(x),
        ValueView::Bool(x) => <bool as ToBytes>::lemma_decode_encode(x),
        ValueView::Char(x) => <char as ToBytes>::lemma_decode_encode(x),
        ValueView::Str(x) => {
            encode_utf8_valid_utf8(x);
            encode_utf8_decode_utf8(x);
        },
    }
}

impl Value {
    /// The type of the value.
    pub fn value_type(&self) -> (ty: PrimitiveType)
        ensures
            ty == self@.value_type(),
    {
        match self {
            Value::I8(_) => PrimitiveType::I8,
            Value::I16(_) => PrimitiveType::I16,
            Value::I32(_) => PrimitiveType::I32,
            Value::I64(_) => PrimitiveType::I64,
            Value::I128(_) => PrimitiveType::I128,
            Value::Isize(_) => PrimitiveType::Isize,
            Value::U8(_) => PrimitiveType::U8,
            Value::U16(_) => PrimitiveType::U16,
            Value::U32(_) => PrimitiveType::U32,
            Value::U64(_) => PrimitiveType::U64,
            Value::U128(_) => PrimitiveType::U128,
            Value::Usize(_) => PrimitiveType::Usize,
            Value::F32(_) => PrimitiveType::F32,
            Value::F64(_) => PrimitiveType::F64,
            Value::Bool(_) => PrimitiveType::Bool,
            Value::Char(_) => PrimitiveType::Char,
            Value::Str(_) => PrimitiveType::Str,
        }
    }

    /// Writes the bytes that encode the value.
    pub fn to_bytes(&self) -> (bytes: Vec<u8>)
        ensures
            bytes@ == encode_value(self@),
    {
        match self {
            Value::I8(x) => x.to_bytes(),
            Value::I16(x) => x.to_bytes(),
            Value::I32(x) => x.to_bytes(),
            Value::I64(x) => x.to_bytes(),
            Value::I128(x) => x.to_bytes(),
            Value::Isize(x) => x.to_bytes(),
            Value::U8(x) => x.to_bytes(),
            Value::U16(x) => x.to_bytes(),
            Value::U32(x) => x.to_bytes(),
            Value::U64(x) => x.to_bytes(),
            Value::U128(x) => x.to_bytes(),
            Value::Usize(x) => x.to_bytes(),
            Value::F32(x) => x.to_bytes(),
            Value::F64(x) => x.to_bytes(),
            Value::Bool(x) => x.to_bytes(),
            Value::Char(x) => x.to_bytes(),
            Value::Str(x) => x.to_bytes(),
        }
    }

    /// Reads the value of type `ty` that `data` encodes.
    ///
    /// Fails with `FormatError` exactly where `data` encodes no value of that type.
    pub fn from_bytes(ty: PrimitiveType, data: &[u8]) -> (value: Result<Value, CodecError>)
        ensures
            match value {
                Ok(v) => decode_value(ty, data@) == Some(v@),
                Err(e) => e == CodecError::FormatError && decode_value(ty, data@) is None,
            },
    {
        let decoded: Option<Value> = match ty {
            PrimitiveType::I8 => match <i8 as FromBytes>::try_from_bytes(data) {
                Some(x) => Some(Value::I8(x)),
                None => None,
            },
            PrimitiveType::I16 => match <i16 as FromBytes>::try_from_bytes(data) {
                Some(x) => Some(Value::I16(x)),
                None => None,
            },
            PrimitiveType::I32 => match <i32 as FromBytes>::try_from_bytes(data) {
                Some(x) => Some(Value::I32(x)),
                None => None,
            },
            PrimitiveType::I64 => match <i64 as FromBytes>::try_from_bytes(data) {
                Some(x) => Some(Value::I64(x)),
                None => None,
            },
            PrimitiveType::I128 => match <i128 as FromBytes>::try_from_bytes(data) {
                Some(x) => Some(Value::I128(x)),
                None => None,
            },
            PrimitiveType::Isize => match <isize as FromBytes>::try_from_bytes(data) {
                Some(x) => Some(Value::Isize(x)),
                None => None,
            },
            PrimitiveType::U8 => match <u8 as FromBytes>::try_from_bytes(data) {
                Some(x) => Some(Value::U8(x)),
                None => None,
            },
            PrimitiveType::U16 => match <u16 as FromBytes>::try_from_bytes(data) {
                Some(x) => Some(Value::U16(x)),
                None => None,
            },
            PrimitiveType::U32 => match <u32 as FromBytes>::try_from_bytes(data) {
                Some(x) => Some(Value::U32(x)),
                None => None,
            },
            PrimitiveType::U64 => match <u64 as FromBytes>::try_from_bytes(data) {
                Some(x) => Some(Value::U64(x)),
                None => None,
            },
            PrimitiveType::U128 => match <u128 as FromBytes>::try_from_bytes(data) {
                Some(x) => Some(Value::U128(x)),
                None => None,
            },
            PrimitiveType::Usize => match <usize as FromBytes>::try_from_bytes(data) {
                Some(x) => Some(Value::Usize(x)),
                None => None,
            },
            PrimitiveType::F32 => match <u32 as FromBytes>::try_from_bytes(data) {
                Some(x) => Some(Value::F32(x)),
                None => None,
            },
            PrimitiveType::F64 => match <u64 as FromBytes>::try_from_bytes(data) {
                Some(x) => Some(Value::F64(x)),
                None => None,
            },
            PrimitiveType::Bool => match <bool as FromBytes>::try_from_bytes(data) {
                Some(x) => Some(Value::Bool(x)),
                None => None,
            },
            PrimitiveType::Char => match <char as FromBytes>::try_from_bytes(data) {
                Some(x) => Some(Value::Char(x)),
                None => None,
            },
            PrimitiveType::Str => match <String as FromBytes>::try_from_bytes(data) {
                Some(x) => Some(Value::Str(x)),
                None => None,
            },
        };
        match decoded {
            Some(v) => Ok(v),
            None => Err(CodecError::FormatError),
        }
    }
}

} // verus!
