//! The layout of a table file: a header that describes the table, then a
//! zero-filled region of fixed length for data and index.
//!
//! ```text
//! name         64 bytes, the name first, then zeros
//! data offset  4 bytes, least significant first: where the header ends
//! reserved     3 bytes, zero
//! references   1 byte for their number, then 64 bytes for each name
//! fields       for each: length of the name, name, 1 for a foreign key or 0,
//!              length of the type name, type name
//! methods      for each: length of the name, name
//! ```

use crate::config::{DATA_REGION_LEN, MAX_PREFIXED_LEN, MAX_REFERENCES, NAME_WIDTH, TABLE_FIXED_LEN};
use crate::error::StoreError;
use crate::little_endian::{le_bytes, lemma_le_bytes_len, write_le};
use crate::schema::{
    byte_len, byte_length, field_names_within, fields_view, names_fit, names_view, names_within,
    Field, FieldView, TableSchema, TableSchemaView,
};
use crate::value::PrimitiveType;
use vstd::prelude::*;
use vstd::string::StringExecFns;
use vstd::utf8::{encode_utf8, is_ascii_chars, is_ascii_chars_encode_utf8};

verus! {

/// `count` zero bytes.
pub open spec fn zeros(count: nat) -> Seq<u8> {
    Seq::new(count, |i: int| 0u8)
}

/// `text`, then as many zero bytes as bring it to `width` bytes.
pub open spec fn padded(text: Seq<u8>, width: nat) -> Seq<u8>
    recommends
        text.len() <= width,
{
    text + zeros((width - text.len()) as nat)
}

/// The length of `text` in one byte, then `text`.
pub open spec fn prefixed(text: Seq<u8>) -> Seq<u8>
    recommends
        text.len() <= MAX_PREFIXED_LEN,
{
    seq![text.len() as u8] + text
}

/// The names of the referenced tables, each padded to its fixed width.
pub open spec fn reference_names(references: Seq<Seq<char>>) -> Seq<u8>
    decreases references.len(),
{
    if references.len() == 0 {
        Seq::empty()
    } else {
        reference_names(references.drop_last()) + padded(
            encode_utf8(references.last()),
            NAME_WIDTH as nat,
        )
    }
}

/// The number of references in one byte, then their names.
pub open spec fn reference_region(references: Seq<Seq<char>>) -> Seq<u8>
    recommends
        references.len() <= MAX_REFERENCES,
{
    seq![references.len() as u8] + reference_names(references)
}

/// The entry of one field: its name, whether it is a foreign key, and the name of its type.
pub open spec fn field_entry(field: FieldView) -> Seq<u8> {
    prefixed(encode_utf8(field.name)) + seq![
        if field.is_fk {
            1u8
        } else {
            0u8
        },
    ] + prefixed(encode_utf8(field.ty.spec_name()))
}

/// The entries of the fields, in their order.
pub open spec fn field_region(fields: Seq<FieldView>) -> Seq<u8>
    decreases fields.len(),
{
    if fields.len() == 0 {
        Seq::empty()
    } else {
        field_region(fields.drop_last()) + field_entry(fields.last())
    }
}

/// The names of the methods, each behind its length.
pub open spec fn method_region(methods: Seq<Seq<char>>) -> Seq<u8>
    decreases methods.len(),
{
    if methods.len() == 0 {
        Seq::empty()
    } else {
        method_region(methods.drop_last()) + prefixed(encode_utf8(methods.last()))
    }
}

/// What follows the fixed part of a table header: references, fields and methods.
pub open spec fn metadata(schema: TableSchemaView) -> Seq<u8> {
    reference_region(schema.references) + field_region(schema.fields) + method_region(
        schema.methods,
    )
}

/// The offset at which the header ends and the data region begins.
pub open spec fn data_offset(schema: TableSchemaView) -> nat {
    TABLE_FIXED_LEN as nat + metadata(schema).len()
}

/// The header of the table file of `schema`.
pub open spec fn table_header(schema: TableSchemaView) -> Seq<u8> {
    padded(encode_utf8(schema.struct_name), NAME_WIDTH as nat) + le_bytes(data_offset(schema), 4)
        + zeros(3) + metadata(schema)
}

/// The table file of `schema` as it is created: the header, then the empty data region.
pub open spec fn table_image(schema: TableSchemaView) -> Seq<u8> {
    table_header(schema) + zeros(DATA_REGION_LEN as nat)
}

/// What keeps `schema` from being laid out as a table header, if anything does: a
/// name that does not fit its place, more references than one byte can count, or a
/// header too long for its own offset field.
pub open spec fn layout_defect(schema: TableSchemaView) -> Option<StoreError> {
    if !schema.names_fit() {
        Some(StoreError::NameTooLong)
    } else if schema.references.len() > MAX_REFERENCES || data_offset(schema) > u32::MAX {
        Some(StoreError::CapacityExceeded)
    } else {
        None
    }
}

/// The name of every type is short enough for a one-byte length prefix.
pub proof fn lemma_type_name_fits(ty: PrimitiveType)
    ensures
        1 <= byte_len(ty.spec_name()) <= 6,
{
    reveal_strlit("i8");
    reveal_strlit("i16");
    reveal_strlit("i32");
    reveal_strlit("i64");
    reveal_strlit("i128");
    reveal_strlit("isize");
    reveal_strlit("u8");
    reveal_strlit("u16");
    reveal_strlit("u32");
    reveal_strlit("u64");
    reveal_strlit("u128");
    reveal_strlit("usize");
    reveal_strlit("f32");
    reveal_strlit("f64");
    reveal_strlit("bool");
    reveal_strlit("char");
    reveal_strlit("String");
    let name = ty.spec_name();
    assert(is_ascii_chars(name));
    is_ascii_chars_encode_utf8(name);
}

/// Appends `data` to `out`.
pub fn append_bytes(out: &mut Vec<u8>, data: &[u8])
    ensures
        final(out)@ == old(out)@ + data@,
{
    let mut at: usize = 0;
    while at < data.len()
        invariant
            at <= data@.len(),
            out@ == old(out)@ + data@.take(at as int),
        decreases data@.len() - at,
    {
        out.push(data[at]);
        assert(data@.take(at + 1) =~= data@.take(at as int).push(data@[at as int]));
        at = at + 1;
    }
    assert(data@.take(at as int) =~= data@);
}

/// Appends `count` zero bytes to `out`.
pub fn append_zeros(out: &mut Vec<u8>, count: usize)
    ensures
        final(out)@ == old(out)@ + zeros(count as nat),
{
    let mut done: usize = 0;
    while done < count
        invariant
            done <= count,
            out@ == old(out)@ + zeros(done as nat),
        decreases count - done,
    {
        out.push(0u8);
        assert(zeros((done + 1) as nat) =~= zeros(done as nat).push(0u8));
        done = done + 1;
    }
}

/// Appends `text` to `vec`, padded with zero bytes to `tot_len` bytes.
///
/// The text comes first and the zeros after it. A text of more than `tot_len`
/// bytes is refused, and `vec` stays as it was.
pub fn string_padding(vec: &mut Vec<u8>, str: String, tot_len: usize) -> (result: Result<
    (),
    String,
>)
    ensures
        byte_len(str@) <= tot_len ==> result is Ok && final(vec)@ == old(vec)@ + padded(
            encode_utf8(str@),
            tot_len as nat,
        ),
        byte_len(str@) > tot_len ==> final(vec)@ == old(vec)@ && (result matches Err(text)
            && text@ == "string too long"@),
{
    let text: &[u8] = str.as_str().as_bytes();
    if tot_len < text.len() {
        return Err(String::from_str("string too long"));
    }
    append_bytes(vec, text);
    append_zeros(vec, tot_len - text.len());
    assert(vec@ =~= old(vec)@ + padded(encode_utf8(str@), tot_len as nat));
    Ok(())
}

/// Appends `text` behind its length in one byte.
fn append_prefixed(out: &mut Vec<u8>, text: &[u8])
    requires
        text@.len() <= MAX_PREFIXED_LEN,
    ensures
        final(out)@ == old(out)@ + prefixed(text@),
{
    out.push(text.len() as u8);
    append_bytes(out, text);
    assert(out@ =~= old(out)@ + prefixed(text@));
}

/// Appends the region of the references.
fn append_references(out: &mut Vec<u8>, references: &Vec<String>)
    requires
        references@.len() <= MAX_REFERENCES,
        names_within(names_view(references@), NAME_WIDTH as nat),
    ensures
        final(out)@ == old(out)@ + reference_region(names_view(references@)),
{
    let ghost all = names_view(references@);
    out.push(references.len() as u8);
    let mut at: usize = 0;
    while at < references.len()
        invariant
            at <= references@.len(),
            all == names_view(references@),
            names_within(all, NAME_WIDTH as nat),
            out@ == old(out)@ + seq![references@.len() as u8] + reference_names(
                all.take(at as int),
            ),
        decreases references@.len() - at,
    {
        let text: &[u8] = references[at].as_str().as_bytes();
        let ghost before = out@;
        proof {
            assert(all.take(at + 1).drop_last() =~= all.take(at as int));
            assert(all.take(at + 1).last() == all[at as int]);
            assert(byte_len(all[at as int]) <= NAME_WIDTH);
        }
        append_bytes(out, text);
        append_zeros(out, NAME_WIDTH - text.len());
        assert(out@ =~= before + padded(text@, NAME_WIDTH as nat));
        assert(out@ =~= old(out)@ + seq![references@.len() as u8] + reference_names(
            all.take(at + 1),
        ));
        at = at + 1;
    }
    assert(all.take(at as int) =~= all);
    assert(out@ =~= old(out)@ + reference_region(all));
}

/// Appends the entries of the fields.
fn append_fields(out: &mut Vec<u8>, fields: &Vec<Field>)
    requires
        field_names_within(fields_view(fields@), MAX_PREFIXED_LEN as nat),
    ensures
        final(out)@ == old(out)@ + field_region(fields_view(fields@)),
{
    let ghost all = fields_view(fields@);
    let mut at: usize = 0;
    assert(out@ =~= old(out)@ + field_region(all.take(0)));
    while at < fields.len()
        invariant
            at <= fields@.len(),
            all == fields_view(fields@),
            field_names_within(all, MAX_PREFIXED_LEN as nat),
            out@ == old(out)@ + field_region(all.take(at as int)),
        decreases fields@.len() - at,
    {
        let field: &Field = &fields[at];
        let ghost before = out@;
        proof {
            assert(all.take(at + 1).drop_last() =~= all.take(at as int));
            assert(all.take(at + 1).last() == all[at as int]);
            assert(all[at as int] == field@);
            assert(byte_len(all[at as int].name) <= MAX_PREFIXED_LEN);
            lemma_type_name_fits(field.type_);
        }
        append_prefixed(out, field.name.as_str().as_bytes());
        if field.is_FK {
            out.push(1u8);
        } else {
            out.push(0u8);
        }
        append_prefixed(out, field.type_.name().as_bytes());
        assert(out@ =~= before + field_entry(field@));
        assert(out@ =~= old(out)@ + field_region(all.take(at + 1)));
        at = at + 1;
    }
    assert(all.take(at as int) =~= all);
}

/// Appends the names of the methods.
fn append_methods(out: &mut Vec<u8>, methods: &Vec<String>)
    requires
        names_within(names_view(methods@), MAX_PREFIXED_LEN as nat),
    ensures
        final(out)@ == old(out)@ + method_region(names_view(methods@)),
{
    let ghost all = names_view(methods@);
    let mut at: usize = 0;
    assert(out@ =~= old(out)@ + method_region(all.take(0)));
    while at < methods.len()
        invariant
            at <= methods@.len(),
            all == names_view(methods@),
            names_within(all, MAX_PREFIXED_LEN as nat),
            out@ == old(out)@ + method_region(all.take(at as int)),
        decreases methods@.len() - at,
    {
        proof {
            assert(all.take(at + 1).drop_last() =~= all.take(at as int));
            assert(all.take(at + 1).last() == all[at as int]);
            assert(byte_len(all[at as int]) <= MAX_PREFIXED_LEN);
        }
        append_prefixed(out, methods[at].as_str().as_bytes());
        assert(out@ =~= old(out)@ + method_region(all.take(at + 1)));
        at = at + 1;
    }
    assert(all.take(at as int) =~= all);
}

/// Lays out the header of the table file of `schema`.
///
/// Fails with `NameTooLong` where a name does not fit its place, and with
/// `CapacityExceeded` where there are more than 255 references or the header
/// would be too long for its own offset field.
pub fn build_table_header(schema: &TableSchema) -> (result: Result<Vec<u8>, StoreError>)
    ensures
        match result {
            Ok(header) => layout_defect(schema@) is None && header@ == table_header(schema@),
            Err(e) => layout_defect(schema@) == Some(e),
        },
{
    if !names_fit(schema) {
        return Err(StoreError::NameTooLong);
    }
    if schema.references.len() > MAX_REFERENCES {
        return Err(StoreError::CapacityExceeded);
    }
    let mut rest: Vec<u8> = Vec::new();
    append_references(&mut rest, &schema.references);
    append_fields(&mut rest, &schema.fields);
    append_methods(&mut rest, &schema.methods);
    assert(rest@ =~= metadata(schema@));
    if rest.len() > 0xffff_ffff - TABLE_FIXED_LEN {
        return Err(StoreError::CapacityExceeded);
    }
    let offset: usize = TABLE_FIXED_LEN + rest.len();
    let mut header: Vec<u8> = Vec::new();
    append_bytes(&mut header, schema.struct_name.as_str().as_bytes());
    append_zeros(&mut header, NAME_WIDTH - byte_length(schema.struct_name.as_str()));
    let offset_bytes: Vec<u8> = write_le(offset as u128, 4);
    append_bytes(&mut header, offset_bytes.as_slice());
    append_zeros(&mut header, 3);
    append_bytes(&mut header, rest.as_slice());
    assert(header@ =~= table_header(schema@));
    Ok(header)
}

/// Lays out the table file of `schema` as it is created: the header, then the
/// zero-filled data region.
pub fn build_table_image(schema: &TableSchema) -> (result: Result<Vec<u8>, StoreError>)
    ensures
        match result {
            Ok(image) => layout_defect(schema@) is None && image@ == table_image(schema@),
            Err(e) => layout_defect(schema@) == Some(e),
        },
{
    match build_table_header(schema) {
        Ok(header) => {
            let mut image: Vec<u8> = header;
            append_zeros(&mut image, DATA_REGION_LEN);
            Ok(image)
        },
        Err(e) => Err(e),
    }
}

} // verus!
