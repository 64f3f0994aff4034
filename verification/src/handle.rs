//! Opening a table file: its header is read and checked.

use crate::config::{DATA_REGION_LEN, MAX_REFERENCES, NAME_WIDTH, TABLE_FIXED_LEN};
use crate::error::StoreError;
use crate::little_endian::{
    le_bytes, le_value, lemma_le_bytes_len, lemma_le_value_bound, lemma_le_value_of_bytes,
    lemma_radix_pow_values, read_le,
};
use crate::schema::{byte_len, names_within, TableSchemaView};
use crate::table::{
    data_offset, layout_defect, metadata, padded, reference_names, reference_region, table_header,
    table_image, zeros,
};
use vstd::prelude::*;
use vstd::slice::{slice_subrange, slice_to_vec};
use vstd::utf8::encode_utf8;

verus! {

/// The least length of a table header: its fixed part and the number of references.
pub const MIN_TABLE_HEADER_LEN: usize = 72;

/// What the header of an open table says.
#[derive(Clone, PartialEq, Eq, Debug)]
pub struct TableHandle {
    /// The name of the table, as bytes, without its padding.
    pub name: Vec<u8>,
    /// The names of the referenced tables, as bytes, without their padding.
    pub references: Vec<Vec<u8>>,
    /// The offset at which the header ends and the data region begins.
    pub data_offset: usize,
    /// The length of the data region.
    pub data_len: usize,
}

/// What a [`TableHandle`] stands for.
pub struct TableHandleView {
    pub name: Seq<u8>,
    pub references: Seq<Seq<u8>>,
    pub data_offset: nat,
    pub data_len: nat,
}

impl View for TableHandle {
    type V = TableHandleView;

    open spec fn view(&self) -> TableHandleView {
        TableHandleView {
            name: self.name@,
            references: Seq::new(self.references@.len(), |i: int| self.references@[i]@),
            data_offset: self.data_offset as nat,
            data_len: self.data_len as nat,
        }
    }
}

/// `field` without the zero bytes at its end.
pub open spec fn unpadded(field: Seq<u8>) -> Seq<u8>
    decreases field.len(),
{
    if field.len() > 0 && field.last() == 0 {
        unpadded(field.drop_last())
    } else {
        field
    }
}

/// The place of the name of the reference `index` in a table file.
pub open spec fn reference_start(index: int) -> int {
    MIN_TABLE_HEADER_LEN + NAME_WIDTH * index
}

/// The name of the reference `index` of a table file, without its padding.
pub open spec fn reference_at(file: Seq<u8>, index: int) -> Seq<u8> {
    unpadded(file.subrange(reference_start(index), reference_start(index) + NAME_WIDTH))
}

/// The offset of the data region that a table file records.
pub open spec fn recorded_offset(file: Seq<u8>) -> nat {
    le_value(file.subrange(NAME_WIDTH as int, NAME_WIDTH + 4))
}

/// The number of references that a table file records.
pub open spec fn recorded_references(file: Seq<u8>) -> nat {
    file[TABLE_FIXED_LEN as int] as nat
}

/// Whether the offsets of a table file agree with each other: the file is long
/// enough for a header, the header as it says where it ends is long enough for its
/// references, and it ends inside the file.
pub open spec fn offsets_agree(file: Seq<u8>) -> bool {
    &&& file.len() >= MIN_TABLE_HEADER_LEN
    &&& reference_start(recorded_references(file) as int) <= recorded_offset(file) <= file.len()
}

/// What opening a table file gives. A file that is shorter than a header, or whose
/// offsets do not agree, has not the format of a table file.
pub open spec fn spec_open(file: Seq<u8>) -> Result<TableHandleView, StoreError> {
    if !offsets_agree(file) {
        Err(StoreError::FormatError)
    } else {
        Ok(
            TableHandleView {
                name: unpadded(file.subrange(0, NAME_WIDTH as int)),
                references: Seq::new(
                    recorded_references(file),
                    |i: int| reference_at(file, i),
                ),
                data_offset: recorded_offset(file),
                data_len: (file.len() - recorded_offset(file)) as nat,
            },
        )
    }
}

/// Padding that is taken off again leaves the text, where the text itself does not
/// end in a zero byte.
pub proof fn lemma_unpadded_padded(text: Seq<u8>, width: nat)
    requires
        text.len() <= width,
        text.len() > 0 ==> text.last() != 0,
    ensures
        unpadded(padded(text, width)) == text,
    decreases width - text.len(),
{
    let field = padded(text, width);
    if text.len() < width {
        assert(field.last() == 0);
        assert(field.drop_last() =~= padded(text, (width - 1) as nat));
        lemma_unpadded_padded(text, (width - 1) as nat);
    } else {
        assert(field =~= text);
    }
}

/// The names of the references take 64 bytes each.
pub proof fn lemma_reference_names_len(references: Seq<Seq<char>>)
    requires
        names_within(references, NAME_WIDTH as nat),
    ensures
        reference_names(references).len() == NAME_WIDTH * references.len(),
    decreases references.len(),
{
    if references.len() > 0 {
        let front = references.drop_last();
        assert forall|i: int| 0 <= i < front.len() implies byte_len(#[trigger] front[i])
            <= NAME_WIDTH by {
            assert(front[i] == references[i]);
        }
        lemma_reference_names_len(front);
        assert(byte_len(references[references.len() - 1]) <= NAME_WIDTH);
    }
}

/// The name of each reference stands in its own 64 bytes, in the order of the references.
pub proof fn lemma_reference_slot(references: Seq<Seq<char>>, index: int)
    requires
        names_within(references, NAME_WIDTH as nat),
        0 <= index < references.len(),
    ensures
        reference_names(references).subrange(NAME_WIDTH * index, NAME_WIDTH * index + NAME_WIDTH)
            == padded(encode_utf8(references[index]), NAME_WIDTH as nat),
    decreases references.len(),
{
    let front = references.drop_last();
    let last = padded(encode_utf8(references.last()), NAME_WIDTH as nat);
    assert forall|i: int| 0 <= i < front.len() implies byte_len(#[trigger] front[i])
        <= NAME_WIDTH by {
        assert(front[i] == references[i]);
    }
    lemma_reference_names_len(front);
    assert(byte_len(references[references.len() - 1]) <= NAME_WIDTH);
    let all = reference_names(references);
    if index == references.len() - 1 {
        assert(all.subrange(NAME_WIDTH * index, NAME_WIDTH * index + NAME_WIDTH) =~= last);
    } else {
        lemma_reference_slot(front, index);
        assert(front[index] == references[index]);
        assert(all.subrange(NAME_WIDTH * index, NAME_WIDTH * index + NAME_WIDTH)
            =~= reference_names(front).subrange(
            NAME_WIDTH * index,
            NAME_WIDTH * index + NAME_WIDTH,
        ));
    }
}

/// Whether `text` can be told from its padding: it does not itself end in a zero byte.
pub open spec fn ends_in_text(text: Seq<u8>) -> bool {
    text.len() > 0 ==> text.last() != 0
}

/// A table file as it is created can be opened, and the handle says what the
/// schema said: where the data region begins, how long it is, and the names of
/// the table and of the tables it refers to, each where it does not itself end
/// in a zero byte.
pub proof fn lemma_open_created(schema: TableSchemaView)
    requires
        layout_defect(schema) is None,
    ensures
        spec_open(table_image(schema)) is Ok,
        spec_open(table_image(schema))->Ok_0.data_offset == data_offset(schema),
        spec_open(table_image(schema))->Ok_0.data_len == DATA_REGION_LEN,
        spec_open(table_image(schema))->Ok_0.references.len() == schema.references.len(),
        ends_in_text(encode_utf8(schema.struct_name)) ==> spec_open(
            table_image(schema),
        )->Ok_0.name == encode_utf8(schema.struct_name),
        forall|i: int|
            0 <= i < schema.references.len() && ends_in_text(
                encode_utf8(#[trigger] schema.references[i]),
            ) ==> spec_open(table_image(schema))->Ok_0.references[i] == encode_utf8(
                schema.references[i],
            ),
{
    let file = table_image(schema);
    let name = padded(encode_utf8(schema.struct_name), NAME_WIDTH as nat);
    let offset = le_bytes(data_offset(schema), 4);
    lemma_le_bytes_len(data_offset(schema), 4);
    lemma_radix_pow_values();
    lemma_le_value_of_bytes(data_offset(schema), 4);
    lemma_reference_names_len(schema.references);
    assert(name.len() == NAME_WIDTH);
    assert(file.subrange(0, NAME_WIDTH as int) =~= name);
    assert(file.subrange(NAME_WIDTH as int, NAME_WIDTH + 4) =~= offset);
    assert(file[TABLE_FIXED_LEN as int] == metadata(schema)[0]);
    assert(metadata(schema)[0] == schema.references.len() as u8);
    assert(reference_region(schema.references).len() == 1 + NAME_WIDTH
        * schema.references.len());
    assert(table_header(schema).len() == data_offset(schema));
    if ends_in_text(encode_utf8(schema.struct_name)) {
        lemma_unpadded_padded(encode_utf8(schema.struct_name), NAME_WIDTH as nat);
    }
    assert forall|i: int|
        0 <= i < schema.references.len() && ends_in_text(
            encode_utf8(#[trigger] schema.references[i]),
        ) implies spec_open(file)->Ok_0.references[i] == encode_utf8(schema.references[i]) by {
        let text = encode_utf8(schema.references[i]);
        lemma_reference_slot(schema.references, i);
        assert(byte_len(schema.references[i]) <= NAME_WIDTH);
        assert(file.subrange(reference_start(i), reference_start(i) + NAME_WIDTH)
            =~= reference_names(schema.references).subrange(
            NAME_WIDTH * i,
            NAME_WIDTH * i + NAME_WIDTH,
        ));
        lemma_unpadded_padded(text, NAME_WIDTH as nat);
    }
}

/// `field` without the zero bytes at its end.
pub fn trim_padding(field: &[u8]) -> (text: Vec<u8>)
    ensures
        text@ == unpadded(field@),
{
    let mut end: usize = field.len();
    assert(field@.take(end as int) =~= field@);
    while end > 0 && field[end - 1] == 0
        invariant
            end <= field@.len(),
            unpadded(field@) == unpadded(field@.take(end as int)),
        decreases end,
    {
        assert(field@.take(end as int).drop_last() =~= field@.take(end - 1));
        end = end - 1;
    }
    assert(field@.subrange(0, end as int) =~= field@.take(end as int));
    slice_to_vec(slice_subrange(field, 0, end))
}

/// Opens a table file: reads its header and checks it.
///
/// Fails with `FormatError` exactly where the file is shorter than the least header,
/// or where the offset of its data region lies before the end of its references or
/// behind the end of the file.
pub fn open(file: &[u8]) -> (result: Result<TableHandle, StoreError>)
    ensures
        match result {
            Ok(handle) => spec_open(file@) == Ok::<TableHandleView, StoreError>(handle@),
            Err(e) => spec_open(file@) == Err::<TableHandleView, StoreError>(e),
        },
{
    if file.len() < MIN_TABLE_HEADER_LEN {
        return Err(StoreError::FormatError);
    }
    proof {
        lemma_le_value_bound(file@.subrange(NAME_WIDTH as int, NAME_WIDTH + 4));
        lemma_radix_pow_values();
    }
    let offset: u128 = read_le(slice_subrange(file, NAME_WIDTH, NAME_WIDTH + 4));
    let count: usize = file[TABLE_FIXED_LEN] as usize;
    let names_end: usize = MIN_TABLE_HEADER_LEN + NAME_WIDTH * count;
    if offset < names_end as u128 || offset > file.len() as u128 {
        return Err(StoreError::FormatError);
    }
    let data_offset: usize = offset as usize;
    let mut references: Vec<Vec<u8>> = Vec::new();
    let mut at: usize = 0;
    while at < count
        invariant
            at <= count <= MAX_REFERENCES,
            MIN_TABLE_HEADER_LEN + NAME_WIDTH * count <= file@.len(),
            references@.len() == at,
            forall|i: int| 0 <= i < at ==> (#[trigger] references@[i])@ == reference_at(file@, i),
        decreases count - at,
    {
        let start: usize = MIN_TABLE_HEADER_LEN + NAME_WIDTH * at;
        let name: Vec<u8> = trim_padding(slice_subrange(file, start, start + NAME_WIDTH));
        references.push(name);
        at = at + 1;
    }
    let handle = TableHandle {
        name: trim_padding(slice_subrange(file, 0, NAME_WIDTH)),
        references,
        data_offset,
        data_len: file.len() - data_offset,
    };
    assert(handle@.references =~= spec_open(file@)->Ok_0.references);
    Ok(handle)
}

} // verus!
