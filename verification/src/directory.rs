//! The tables of a database as the catalog knows them: one entry for each table,
//! in the order in which the tables were registered.

use crate::catalog::{build_catalog_header, catalog_header};
use crate::config::{MAX_TABLES, NAME_WIDTH};
use crate::error::CatalogError;
use crate::field::OID;
use crate::file_manager::{table_file, table_file_name};
use crate::schema::{byte_len, byte_length};
use vstd::prelude::*;

verus! {

/// What a catalog knows of one table.
#[derive(Clone, PartialEq, Eq, Debug)]
pub struct TableDirectoryEntry {
    /// The name of the table, of at most 64 bytes.
    pub name: String,
    /// The name of the table file.
    pub file_path: String,
    /// Reserved for the place of the entry in the catalog file. Zero.
    pub offset: u64,
    /// Reserved. Zero.
    pub checksum: u32,
    /// The last identity that the table gave out. It only ever grows.
    pub last_oid: u64,
}

impl TableDirectoryEntry {
    /// Whether the entry is in order: the name fits, the file is named after the
    /// table, the reserved fields are zero, and the last identity is one that a
    /// record can have.
    pub open spec fn wf(&self) -> bool {
        &&& byte_len(self.name@) <= NAME_WIDTH
        &&& self.file_path@ == table_file(self.name@)
        &&& self.offset == 0
        &&& self.checksum == 0
        &&& self.last_oid <= i64::MAX
    }

    /// The entry of a table that has given out no identity yet.
    ///
    /// Fails with `NameTooLong` exactly where the name takes more than 64 bytes.
    pub fn new(name: String) -> (result: Result<TableDirectoryEntry, CatalogError>)
        ensures
            match result {
                Ok(entry) => byte_len(name@) <= NAME_WIDTH && entry.wf() && entry.name@ == name@
                    && entry.last_oid == 0,
                Err(e) => byte_len(name@) > NAME_WIDTH && e == CatalogError::NameTooLong,
            },
    {
        if byte_length(name.as_str()) > NAME_WIDTH {
            return Err(CatalogError::NameTooLong);
        }
        let file_path: String = table_file_name(name.as_str());
        Ok(TableDirectoryEntry { name, file_path, offset: 0, checksum: 0, last_oid: 0 })
    }

    /// Gives out the next identity of the table: one more than the last. Gives none
    /// where the identities are used up, and then changes nothing.
    pub fn next_oid(&mut self) -> (oid: Option<OID>)
        requires
            old(self).wf(),
        ensures
            final(self).wf(),
            final(self).name == old(self).name,
            final(self).file_path == old(self).file_path,
            match oid {
                Some(id) => final(self).last_oid == old(self).last_oid + 1 && id@
                    == final(self).last_oid,
                None => old(self).last_oid == i64::MAX && final(self).last_oid == old(
                    self,
                ).last_oid,
            },
    {
        if self.last_oid >= 0x7fff_ffff_ffff_ffff {
            return None;
        }
        self.last_oid = self.last_oid + 1;
        Some(OID::new(self.last_oid as i64))
    }
}

/// A database: its name and its tables, in the order in which they were registered.
#[derive(Clone, PartialEq, Eq, Debug)]
pub struct Database {
    /// The name of the database, which is the name of its directory.
    pub name: String,
    /// The entries of the tables. An entry keeps its place for as long as the
    /// database lives.
    pub tables: Vec<TableDirectoryEntry>,
}

impl Database {
    /// Whether the database is in order: it has at most 255 tables, and each entry
    /// is in order.
    pub open spec fn wf(&self) -> bool {
        &&& self.tables@.len() <= MAX_TABLES
        &&& forall|i: int| 0 <= i < self.tables@.len() ==> (#[trigger] self.tables@[i]).wf()
    }

    /// A database without tables.
    pub fn new(name: String) -> (database: Database)
        ensures
            database.wf(),
            database.name@ == name@,
            database.tables@.len() == 0,
    {
        Database { name, tables: Vec::new() }
    }

    /// The number of tables, as the catalog header records it.
    pub fn table_count(&self) -> (count: u8)
        requires
            self.wf(),
        ensures
            count == self.tables@.len(),
    {
        self.tables.len() as u8
    }

    /// The header of the catalog file of the database.
    pub fn header(&self) -> (header: Vec<u8>)
        requires
            self.wf(),
        ensures
            header@ == catalog_header(self.tables@.len() as u8),
    {
        build_catalog_header(self.table_count())
    }

    /// Registers a table: appends its entry and gives the place of the entry.
    ///
    /// Fails with `CapacityExceeded` where the database has 255 tables, else with
    /// `NameTooLong` where the name takes more than 64 bytes. The entries that were
    /// there stay as they are, in their places; on failure nothing changes.
    pub fn register_table(&mut self, table_name: String) -> (result: Result<usize, CatalogError>)
        requires
            old(self).wf(),
        ensures
            final(self).wf(),
            final(self).name == old(self).name,
            match result {
                Ok(place) => {
                    &&& old(self).tables@.len() < MAX_TABLES
                    &&& byte_len(table_name@) <= NAME_WIDTH
                    &&& place == old(self).tables@.len()
                    &&& final(self).tables@.len() == place + 1
                    &&& final(self).tables@.drop_last() == old(self).tables@
                    &&& final(self).tables@.last().name@ == table_name@
                    &&& final(self).tables@.last().last_oid == 0
                },
                Err(e) => {
                    &&& final(self).tables@ == old(self).tables@
                    &&& e == if old(self).tables@.len() == MAX_TABLES {
                        CatalogError::CapacityExceeded
                    } else {
                        CatalogError::NameTooLong
                    }
                    &&& old(self).tables@.len() == MAX_TABLES || byte_len(table_name@)
                        > NAME_WIDTH
                },
            },
    {
        if self.tables.len() >= 255 {
            return Err(CatalogError::CapacityExceeded);
        }
        match TableDirectoryEntry::new(table_name) {
            Err(e) => Err(e),
            Ok(entry) => {
                let place: usize = self.tables.len();
                self.tables.push(entry);
                assert(self.tables@.drop_last() =~= old(self).tables@);
                Ok(place)
            },
        }
    }
}

} // verus!
