//! The record codec: the values of the fields of one record, each behind its
//! length in one byte, in the order of the schema. The bytes carry no tags, so
//! the schema alone says which bytes belong to which field.

use crate::config::MAX_PREFIXED_LEN;
use crate::error::CodecError;
use crate::schema::{fields_view, FieldView, TableSchema, TableSchemaView};
use crate::table::{append_bytes, prefixed};
use crate::value::{
    decode_value, encode_value, lemma_decode_encode_value, PrimitiveType, Value, ValueView,
};
use vstd::prelude::*;
use vstd::slice::slice_subrange;

verus! {

/// The values of the fields of one record, in the order of the schema.
#[derive(Clone, PartialEq, Eq, Debug)]
pub struct Record {
    pub values: Vec<Value>,
}

/// What a list of values stands for.
pub open spec fn values_view(values: Seq<Value>) -> Seq<ValueView> {
    Seq::new(values.len(), |i: int| values[i]@)
}

impl View for Record {
    type V = Seq<ValueView>;

    open spec fn view(&self) -> Seq<ValueView> {
        values_view(self.values@)
    }
}

/// The types that the fields declare, in their order.
pub open spec fn field_types(fields: Seq<FieldView>) -> Seq<PrimitiveType> {
    Seq::new(fields.len(), |i: int| fields[i].ty)
}

/// Whether a record has one value for each type of `types`, each of that type.
pub open spec fn conforms(record: Seq<ValueView>, types: Seq<PrimitiveType>) -> bool {
    &&& record.len() == types.len()
    &&& forall|i: int| 0 <= i < record.len() ==> (#[trigger] record[i]).value_type() == types[i]
}

/// Whether the encoding of `value` is short enough for a one-byte length prefix.
pub open spec fn fits(value: ValueView) -> bool {
    encode_value(value).len() <= MAX_PREFIXED_LEN
}

/// Whether each value of a record is short enough for its length prefix.
pub open spec fn all_fit(record: Seq<ValueView>) -> bool {
    forall|i: int| 0 <= i < record.len() ==> fits(#[trigger] record[i])
}

/// The values of a record, each behind the length of its encoding.
pub open spec fn frames(record: Seq<ValueView>) -> Seq<u8>
    decreases record.len(),
{
    if record.len() == 0 {
        Seq::empty()
    } else {
        prefixed(encode_value(record.first())) + frames(record.drop_first())
    }
}

/// What encoding a record under a schema gives.
///
/// A record that does not conform to the schema is a `SchemaMismatch`; one that
/// conforms but holds a value too long for its length prefix is a `FieldTooLarge`.
pub open spec fn spec_encode_record(schema: TableSchemaView, record: Seq<ValueView>) -> Result<
    Seq<u8>,
    CodecError,
> {
    if !conforms(record, field_types(schema.fields)) {
        Err(CodecError::SchemaMismatch)
    } else if !all_fit(record) {
        Err(CodecError::FieldTooLarge)
    } else {
        Ok(frames(record))
    }
}

/// `values`, then what `rest` holds, where it holds values.
pub open spec fn prepend(values: Seq<ValueView>, rest: Result<Seq<ValueView>, CodecError>) -> Result<
    Seq<ValueView>,
    CodecError,
> {
    match rest {
        Ok(more) => Ok(values + more),
        Err(e) => Err(e),
    }
}

/// The values of types `types` that stand at the start of `data`, one after the other.
///
/// Each value stands behind its length in one byte. Where `data` ends before a
/// length or before the bytes it announces, the record is truncated; where the
/// bytes of a field encode no value of its type, the format is wrong. Bytes
/// after the last field are not read.
pub open spec fn decode_fields(types: Seq<PrimitiveType>, data: Seq<u8>) -> Result<
    Seq<ValueView>,
    CodecError,
>
    decreases types.len(),
{
    if types.len() == 0 {
        Ok(Seq::empty())
    } else if data.len() == 0 || data.len() < 1 + data[0] {
        Err(CodecError::TruncatedRecord)
    } else {
        match decode_value(types.first(), data.subrange(1, 1 + data[0])) {
            None => Err(CodecError::FormatError),
            Some(value) => prepend(
                seq![value],
                decode_fields(types.drop_first(), data.skip(1 + data[0])),
            ),
        }
    }
}

/// What decoding `data` under a schema gives. No bytes at all are a truncated record.
pub open spec fn spec_decode_record(schema: TableSchemaView, data: Seq<u8>) -> Result<
    Seq<ValueView>,
    CodecError,
> {
    if data.len() == 0 {
        Err(CodecError::TruncatedRecord)
    } else {
        decode_fields(field_types(schema.fields), data)
    }
}

/// The values that were framed stand at the start of the frames, whatever follows.
pub proof fn lemma_decode_frames(record: Seq<ValueView>, types: Seq<PrimitiveType>, tail: Seq<u8>)
    requires
        conforms(record, types),
        all_fit(record),
    ensures
        decode_fields(types, frames(record) + tail) == Ok::<Seq<ValueView>, CodecError>(record),
    decreases record.len(),
{
    if record.len() == 0 {
        assert(record =~= Seq::empty());
    } else {
        let value = record.first();
        let encoding = encode_value(value);
        let data = frames(record) + tail;
        let rest = record.drop_first();
        assert(fits(record[0]));
        assert(data[0] == encoding.len() as u8);
        assert(data.subrange(1, 1 + data[0]) =~= encoding);
        assert(data.skip(1 + data[0]) =~= frames(rest) + tail);
        assert(record[0].value_type() == types[0]);
        lemma_decode_encode_value(value);
        assert forall|i: int| 0 <= i < rest.len() implies (#[trigger] rest[i]).value_type()
            == types.drop_first()[i] by {
            assert(rest[i] == record[i + 1]);
        }
        assert forall|i: int| 0 <= i < rest.len() implies fits(#[trigger] rest[i]) by {
            assert(rest[i] == record[i + 1]);
        }
        lemma_decode_frames(rest, types.drop_first(), tail);
        assert(seq![value] + rest =~= record);
    }
}

/// Round trip: a record that conforms to a schema with at least one field, and whose
/// values are short enough to be encoded, is what decoding its encoding gives.
pub proof fn lemma_record_round_trip(schema: TableSchemaView, record: Seq<ValueView>)
    requires
        schema.fields.len() > 0,
        spec_encode_record(schema, record) is Ok,
    ensures
        spec_decode_record(schema, spec_encode_record(schema, record)->Ok_0) == Ok::<
            Seq<ValueView>,
            CodecError,
        >(record),
{
    let types = field_types(schema.fields);
    lemma_decode_frames(record, types, Seq::empty());
    assert(frames(record) + Seq::<u8>::empty() =~= frames(record));
    assert(frames(record).len() > 0);
}

/// Whether a record conforms to the fields of a schema.
fn record_conforms(schema: &TableSchema, record: &Record) -> (same: bool)
    ensures
        same == conforms(record@, field_types(schema@.fields)),
{
    if record.values.len() != schema.fields.len() {
        return false;
    }
    let ghost types = field_types(schema@.fields);
    let mut at: usize = 0;
    while at < record.values.len()
        invariant
            at <= record.values@.len() == schema.fields@.len(),
            types == field_types(schema@.fields),
            forall|i: int| 0 <= i < at ==> (#[trigger] record@[i]).value_type() == types[i],
        decreases record.values@.len() - at,
    {
        if record.values[at].value_type() != schema.fields[at].type_ {
            assert(record@[at as int].value_type() != types[at as int]);
            return false;
        }
        at = at + 1;
    }
    true
}

/// Encodes a record under a schema.
///
/// Fails with `SchemaMismatch` where the record does not conform to the schema,
/// and with `FieldTooLarge` where it conforms but the encoding of a value takes
/// more than 255 bytes.
pub fn encode_record(schema: &TableSchema, record: &Record) -> (result: Result<
    Vec<u8>,
    CodecError,
>)
    ensures
        match result {
            Ok(bytes) => spec_encode_record(schema@, record@) == Ok::<Seq<u8>, CodecError>(
                bytes@,
            ),
            Err(e) => spec_encode_record(schema@, record@) == Err::<Seq<u8>, CodecError>(e),
        },
{
    if !record_conforms(schema, record) {
        return Err(CodecError::SchemaMismatch);
    }
    let ghost all = record@;
    let mut out: Vec<u8> = Vec::new();
    let mut at: usize = 0;
    assert(all.skip(0) =~= all);
    while at < record.values.len()
        invariant
            at <= record.values@.len(),
            all == record@,
            conforms(all, field_types(schema@.fields)),
            forall|i: int| 0 <= i < at ==> fits(#[trigger] all[i]),
            out@ + frames(all.skip(at as int)) == frames(all),
        decreases record.values@.len() - at,
    {
        let encoding: Vec<u8> = record.values[at].to_bytes();
        if encoding.len() > MAX_PREFIXED_LEN {
            assert(!fits(all[at as int]));
            return Err(CodecError::FieldTooLarge);
        }
        let ghost before = out@;
        out.push(encoding.len() as u8);
        append_bytes(&mut out, encoding.as_slice());
        proof {
            let rest = all.skip(at as int);
            assert(rest.first() == all[at as int]);
            assert(rest.drop_first() =~= all.skip(at + 1));
            assert(out@ =~= before + prefixed(encode_value(all[at as int])));
            assert(out@ + frames(all.skip(at + 1)) =~= before + frames(rest));
        }
        at = at + 1;
    }
    assert(all.skip(at as int) =~= Seq::<ValueView>::empty());
    assert(out@ + Seq::<u8>::empty() =~= out@);
    Ok(out)
}

/// Decodes the record that `bytes` holds under a schema.
///
/// Fails with `TruncatedRecord` where `bytes` is empty or ends before the last
/// field does, and with `FormatError` where the bytes of a field encode no value
/// of the field's type. The first failure in the order of the fields is reported.
pub fn decode_record(schema: &TableSchema, bytes: &[u8]) -> (result: Result<Record, CodecError>)
    ensures
        match result {
            Ok(record) => spec_decode_record(schema@, bytes@) == Ok::<Seq<ValueView>, CodecError>(
                record@,
            ),
            Err(e) => spec_decode_record(schema@, bytes@) == Err::<Seq<ValueView>, CodecError>(e),
        },
{
    if bytes.len() == 0 {
        return Err(CodecError::TruncatedRecord);
    }
    let ghost types = field_types(schema@.fields);
    let ghost whole = decode_fields(types, bytes@);
    let mut values: Vec<Value> = Vec::new();
    let mut cursor: usize = 0;
    let mut at: usize = 0;
    proof {
        assert(types.skip(0) =~= types);
        assert(bytes@.skip(0) =~= bytes@);
        assert(values_view(values@) =~= Seq::empty());
        let rest = decode_fields(types, bytes@);
        match rest {
            Ok(more) => assert(Seq::<ValueView>::empty() + more =~= more),
            Err(_) => {},
        }
    }
    while at < schema.fields.len()
        invariant
            at <= schema.fields@.len(),
            cursor <= bytes@.len(),
            types == field_types(schema@.fields),
            whole == decode_fields(types, bytes@),
            whole == prepend(
                values_view(values@),
                decode_fields(types.skip(at as int), bytes@.skip(cursor as int)),
            ),
        decreases schema.fields@.len() - at,
    {
        let ghost left = types.skip(at as int);
        let ghost data = bytes@.skip(cursor as int);
        let ghost done = values_view(values@);
        proof {
            assert(left.first() == schema.fields@[at as int].type_);
            assert(left.drop_first() =~= types.skip(at + 1));
        }
        if cursor >= bytes.len() {
            return Err(CodecError::TruncatedRecord);
        }
        let len: usize = bytes[cursor] as usize;
        let start: usize = cursor + 1;
        if len > bytes.len() - start {
            return Err(CodecError::TruncatedRecord);
        }
        let end: usize = start + len;
        proof {
            assert(data[0] == bytes@[cursor as int]);
            assert(data.subrange(1, 1 + data[0]) =~= bytes@.subrange(start as int, end as int));
            assert(data.skip(1 + data[0]) =~= bytes@.skip(end as int));
        }
        match Value::from_bytes(schema.fields[at].type_, slice_subrange(bytes, start, end)) {
            Err(_) => {
                return Err(CodecError::FormatError);
            },
            Ok(value) => {
                values.push(value);
                proof {
                    assert(values_view(values@) =~= done.push(value@));
                    let rest = decode_fields(types.skip(at + 1), bytes@.skip(end as int));
                    match rest {
                        Ok(more) => assert(done + (seq![value@] + more) =~= done.push(value@)
                            + more),
                        Err(_) => {},
                    }
                }
            },
        }
        cursor = end;
        at = at + 1;
    }
    proof {
        assert(types.skip(at as int) =~= Seq::<PrimitiveType>::empty());
        assert(values_view(values@) + Seq::<ValueView>::empty() =~= values_view(values@));
    }
    Ok(Record { values })
}

} // verus!
