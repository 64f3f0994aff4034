//! The constants of the on-disk layout.

use vstd::prelude::*;

verus! {

/// The number that every catalog file starts with, stored least significant byte first.
pub const MAGIC_NUMBER: u32 = 0x4D594442;

/// The version of the catalog format.
pub const FORMAT_VERSION: u8 = 1;

/// The length of the catalog header: magic number, version, table count and flags.
pub const CATALOG_HEADER_LEN: usize = 10;

/// Where the table count stands in the catalog header.
pub const TABLE_COUNT_OFFSET: usize = 5;

/// The largest number of tables that a catalog can record.
pub const MAX_TABLES: u8 = 255;

/// The width of a table name or of a reference name in a table header.
pub const NAME_WIDTH: usize = 64;

/// The largest length that a one-byte length prefix can announce.
pub const MAX_PREFIXED_LEN: usize = 255;

/// The largest number of references that a table header can list.
pub const MAX_REFERENCES: usize = 255;

/// The length of the fixed part of a table header: name, data offset and three reserved bytes.
pub const TABLE_FIXED_LEN: usize = 71;

/// The length of the zero-filled data and index region that follows a table header.
pub const DATA_REGION_LEN: usize = 262144;

} // verus!
