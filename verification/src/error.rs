//! The errors that the operations of the library report.

use vstd::prelude::*;
use vstd::string::StringExecFns;

verus! {

/// Why a record could not be encoded or decoded.
#[derive(Clone, Copy, PartialEq, Eq, Structural, Debug)]
pub enum CodecError {
    /// The bytes end before the last field does, or there are no bytes at all.
    TruncatedRecord,
    /// A field's encoding is longer than a one-byte length prefix can announce.
    FieldTooLarge,
    /// The bytes of a field do not encode a value of the field's type.
    FormatError,
    /// The record does not have the fields that the schema declares.
    SchemaMismatch,
}

/// Why a schema is not valid.
#[derive(Clone, Copy, PartialEq, Eq, Structural, Debug)]
pub enum SchemaError {
    /// A name is longer than its place in the table header allows.
    NameTooLong,
    /// There are more references than a table header can list.
    CapacityExceeded,
    /// The number of identity fields is not one.
    OidCount,
}

/// Why an operation on a database or on a table failed.
#[derive(Clone, Copy, PartialEq, Eq, Structural, Debug)]
pub enum StoreError {
    /// A name is longer than its place in the table header allows.
    NameTooLong,
    /// The catalog is full, or a table header cannot hold what it is given.
    CapacityExceeded,
    /// What was to be created is there already.
    AlreadyExists,
    /// What was to be used is not there.
    NotFound,
    /// A file does not have the layout of its kind.
    FormatError,
    /// The storage failed for a reason of its own.
    IoError,
}

impl CodecError {
    /// The text that describes the error.
    pub open spec fn spec_message(self) -> Seq<char> {
        match self {
            CodecError::TruncatedRecord => "The record is truncated"@,
            CodecError::FieldTooLarge => "A field takes more than 255 bytes"@,
            CodecError::FormatError => "The bytes of a field do not encode a value of its type"@,
            CodecError::SchemaMismatch => "The record does not conform to the schema"@,
        }
    }

    /// A text that describes the error to a reader.
    pub fn message(&self) -> (text: String)
        ensures
            text@ == self.spec_message(),
    {
        match self {
            CodecError::TruncatedRecord => String::from_str("The record is truncated"),
            CodecError::FieldTooLarge => String::from_str("A field takes more than 255 bytes"),
            CodecError::FormatError => String::from_str(
                "The bytes of a field do not encode a value of its type",
            ),
            CodecError::SchemaMismatch => String::from_str(
                "The record does not conform to the schema",
            ),
        }
    }
}

impl SchemaError {
    /// The text that describes the error.
    pub open spec fn spec_message(self) -> Seq<char> {
        match self {
            SchemaError::NameTooLong => "A name is too long for its place in the table header"@,
            SchemaError::CapacityExceeded => "A table can refer to 255 tables at most"@,
            SchemaError::OidCount => "A table has exactly one identity field"@,
        }
    }

    /// A text that describes the error to a reader.
    pub fn message(&self) -> (text: String)
        ensures
            text@ == self.spec_message(),
    {
        match self {
            SchemaError::NameTooLong => String::from_str(
                "A name is too long for its place in the table header",
            ),
            SchemaError::CapacityExceeded => String::from_str(
                "A table can refer to 255 tables at most",
            ),
            SchemaError::OidCount => String::from_str("A table has exactly one identity field"),
        }
    }
}

/// The errors of the catalog operations are those of the table store.
pub type CatalogError = StoreError;

impl StoreError {
    /// The text that describes the error.
    pub open spec fn spec_message(self) -> Seq<char> {
        match self {
            StoreError::NameTooLong => "Table name is too long, must be 64 bytes or less"@,
            StoreError::CapacityExceeded => "Maximum number of tables reached (255)"@,
            StoreError::AlreadyExists => "The database already exists"@,
            StoreError::NotFound => "Database does not exist"@,
            StoreError::FormatError => "Invalid database file format"@,
            StoreError::IoError => "Input or output failed"@,
        }
    }

    /// A text that describes the error to a reader.
    pub fn message(&self) -> (text: String)
        ensures
            text@ == self.spec_message(),
    {
        match self {
            StoreError::NameTooLong => String::from_str(
                "Table name is too long, must be 64 bytes or less",
            ),
            StoreError::CapacityExceeded => String::from_str(
                "Maximum number of tables reached (255)",
            ),
            StoreError::AlreadyExists => String::from_str("The database already exists"),
            StoreError::NotFound => String::from_str("Database does not exist"),
            StoreError::FormatError => String::from_str("Invalid database file format"),
            StoreError::IoError => String::from_str("Input or output failed"),
        }
    }
}

} // verus!
