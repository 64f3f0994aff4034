//! The catalog file of a database: a header of ten bytes.
//!
//! ```text
//! offset 0  magic number  4 bytes, least significant first
//! offset 4  version       1 byte
//! offset 5  table count   1 byte
//! offset 6  flags         4 bytes, reserved, zero
//! ```
//!
//! The table count is the one part that changes while the database lives.

use crate::config::{
    CATALOG_HEADER_LEN, FORMAT_VERSION, MAGIC_NUMBER, MAX_TABLES, TABLE_COUNT_OFFSET,
};
use crate::error::StoreError;
use crate::little_endian::{le_bytes, lemma_le_bytes_len, write_le};
use crate::table::{append_bytes, append_zeros, zeros};
use vstd::prelude::*;
use vstd::slice::{slice_subrange, slice_to_vec};

verus! {

/// The magic number as it stands at the start of a catalog file.
pub open spec fn magic_bytes() -> Seq<u8> {
    le_bytes(MAGIC_NUMBER as nat, 4)
}

/// The header of a catalog that records `table_count` tables.
pub open spec fn catalog_header(table_count: u8) -> Seq<u8> {
    magic_bytes() + seq![FORMAT_VERSION, table_count] + zeros(4)
}

/// Whether `catalog` is long enough for a header and starts with the magic number.
pub open spec fn has_magic(catalog: Seq<u8>) -> bool {
    catalog.len() >= CATALOG_HEADER_LEN && catalog.subrange(0, 4) == magic_bytes()
}

/// The number of tables that `catalog` records.
pub open spec fn table_count(catalog: Seq<u8>) -> u8
    recommends
        has_magic(catalog),
{
    catalog[TABLE_COUNT_OFFSET as int]
}

/// What registering one more table makes of `catalog`: the same bytes with the table
/// count one higher. A catalog without the magic number is refused, and so is one
/// that is full.
pub open spec fn spec_register_table(catalog: Seq<u8>) -> Result<Seq<u8>, StoreError> {
    if !has_magic(catalog) {
        Err(StoreError::FormatError)
    } else if table_count(catalog) == MAX_TABLES {
        Err(StoreError::CapacityExceeded)
    } else {
        Ok(catalog.update(TABLE_COUNT_OFFSET as int, (table_count(catalog) + 1) as u8))
    }
}

/// The bytes of the magic number, one by one.
pub proof fn lemma_magic_bytes()
    ensures
        magic_bytes() == seq![0x42u8, 0x44u8, 0x59u8, 0x4Du8],
{
    reveal_with_fuel(le_bytes, 5);
    assert(magic_bytes() =~= seq![0x42u8, 0x44u8, 0x59u8, 0x4Du8]);
}

/// Header fidelity: a catalog header is ten bytes, the magic number, the version,
/// the table count and four zero bytes.
pub proof fn lemma_catalog_header(count: u8)
    ensures
        catalog_header(count) == seq![
            0x42u8,
            0x44u8,
            0x59u8,
            0x4Du8,
            1u8,
            count,
            0u8,
            0u8,
            0u8,
            0u8,
        ],
        has_magic(catalog_header(count)),
        table_count(catalog_header(count)) == count,
{
    lemma_magic_bytes();
    let header = catalog_header(count);
    assert(header =~= seq![0x42u8, 0x44u8, 0x59u8, 0x4Du8, 1u8, count, 0u8, 0u8, 0u8, 0u8]);
    assert(header.subrange(0, 4) =~= magic_bytes());
}

/// A registration keeps the magic number and raises the table count by one, so that a
/// catalog can take tables until it records 255 of them.
pub proof fn lemma_register_table(catalog: Seq<u8>)
    requires
        has_magic(catalog),
        table_count(catalog) < MAX_TABLES,
    ensures
        spec_register_table(catalog) is Ok,
        has_magic(spec_register_table(catalog)->Ok_0),
        table_count(spec_register_table(catalog)->Ok_0) == table_count(catalog) + 1,
        spec_register_table(catalog)->Ok_0.len() == catalog.len(),
{
    let updated = spec_register_table(catalog)->Ok_0;
    assert(updated.subrange(0, 4) =~= catalog.subrange(0, 4));
}

/// Registering a table in the header of a catalog of `count` tables gives the header
/// of a catalog of one more.
pub proof fn lemma_register_in_header(count: u8)
    requires
        count < MAX_TABLES,
    ensures
        spec_register_table(catalog_header(count)) == Ok::<Seq<u8>, StoreError>(
            catalog_header((count + 1) as u8),
        ),
{
    lemma_catalog_header(count);
    lemma_catalog_header((count + 1) as u8);
    assert(catalog_header(count).update(TABLE_COUNT_OFFSET as int, (count + 1) as u8)
        =~= catalog_header((count + 1) as u8));
}

/// Lays out the header of a catalog that records `table_count` tables.
pub fn build_catalog_header(table_count: u8) -> (header: Vec<u8>)
    ensures
        header@ == catalog_header(table_count),
{
    let mut header: Vec<u8> = write_le(MAGIC_NUMBER as u128, 4);
    header.push(FORMAT_VERSION);
    header.push(table_count);
    append_zeros(&mut header, 4);
    assert(header@ =~= catalog_header(table_count));
    header
}

/// Whether `catalog` starts with the magic number.
pub fn check_magic(catalog: &[u8]) -> (ok: bool)
    ensures
        ok == has_magic(catalog@),
{
    if catalog.len() < CATALOG_HEADER_LEN {
        return false;
    }
    let magic: Vec<u8> = write_le(MAGIC_NUMBER as u128, 4);
    proof {
        lemma_le_bytes_len(MAGIC_NUMBER as nat, 4);
    }
    let mut at: usize = 0;
    while at < 4
        invariant
            at <= 4,
            magic@ == magic_bytes(),
            magic@.len() == 4,
            catalog@.len() >= CATALOG_HEADER_LEN,
            forall|i: int| 0 <= i < at ==> catalog@[i] == magic@[i],
        decreases 4 - at,
    {
        if catalog[at] != magic[at] {
            assert(catalog@.subrange(0, 4)[at as int] != magic_bytes()[at as int]);
            return false;
        }
        at = at + 1;
    }
    assert(catalog@.subrange(0, 4) =~= magic_bytes());
    true
}

/// Registers one more table in a catalog: gives the catalog with its table count
/// raised by one.
///
/// Fails with `FormatError` where the catalog is shorter than a header or does not
/// start with the magic number, and with `CapacityExceeded` where it records 255
/// tables already.
pub fn register_table(catalog: &[u8]) -> (result: Result<Vec<u8>, StoreError>)
    ensures
        match result {
            Ok(updated) => spec_register_table(catalog@) == Ok::<Seq<u8>, StoreError>(updated@),
            Err(e) => spec_register_table(catalog@) == Err::<Seq<u8>, StoreError>(e),
        },
{
    if !check_magic(catalog) {
        return Err(StoreError::FormatError);
    }
    let count: u8 = catalog[TABLE_COUNT_OFFSET];
    if count == MAX_TABLES {
        return Err(StoreError::CapacityExceeded);
    }
    let mut updated: Vec<u8> = slice_to_vec(slice_subrange(catalog, 0, TABLE_COUNT_OFFSET));
    updated.push(count + 1);
    append_bytes(&mut updated, slice_subrange(catalog, TABLE_COUNT_OFFSET + 1, catalog.len()));
    assert(updated@ =~= catalog@.update(TABLE_COUNT_OFFSET as int, (count + 1) as u8));
    Ok(updated)
}

} // verus!
