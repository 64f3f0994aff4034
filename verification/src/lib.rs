//! A single-writer, file-based storage format for typed records.
//!
//! The crate fixes the byte-exact layout of a catalog file per database and of
//! one self-describing table file per table, and holds the binary codec that
//! turns a schema and a byte buffer into typed field values and back.
//!
//! The library computes and decides; it does not touch the file system. The
//! operations on databases and tables are written as tasks that say what is to
//! be done on the storage and go on with what the storage answers.

pub mod catalog;
pub mod config;
pub mod directory;
pub mod error;
pub mod field;
pub mod file_manager;
pub mod from_bytes;
pub mod handle;
pub mod little_endian;
pub mod record;
pub mod schema;
pub mod storage;
pub mod table;
pub mod to_bytes;
pub mod value;

pub use catalog::{build_catalog_header, register_table};
pub use config::MAGIC_NUMBER;
pub use directory::{Database, TableDirectoryEntry};
pub use error::{CatalogError, CodecError, SchemaError, StoreError};
pub use field::{Primitive, OID};
pub use file_manager::{
    create_db, create_table, delete_db, reinitialize_table, Reply, Request, Step, Task,
};
pub use from_bytes::{decode, FromBytes};
pub use handle::{open, TableHandle};
pub use record::{decode_record, encode_record, Record};
pub use schema::{validate, Field, TableSchema};
pub use table::{build_table_header, build_table_image, string_padding};
pub use to_bytes::{encode, ToBytes};
pub use value::{PrimitiveType, Value};
