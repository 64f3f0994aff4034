//! The operations on databases and tables, as a dialogue with the storage.
//!
//! The library does not touch the file system. An operation is a [`Task`]: it
//! asks for one thing to be done on the storage, a [`Request`], is told how that
//! went, a [`Reply`], and then either asks for the next thing or is finished. The
//! caller performs the requests. Whatever the storage answers, a task ends after
//! a few steps, and where it fails after it changed something, it first asks for
//! the change to be undone.

use crate::catalog::{build_catalog_header, catalog_header, register_table, spec_register_table};
use crate::error::StoreError;
use crate::schema::{fields_view, names_view, Field, FieldView, TableSchema, TableSchemaView};
use crate::table::{build_table_image, layout_defect, table_image};
use vstd::prelude::*;
use vstd::string::StringExecFns;

verus! {

/// The name of the catalog file of the database `db`, inside the directory `db`.
pub open spec fn catalog_file(db: Seq<char>) -> Seq<char> {
    db + ".db"@
}

/// The name of the file of the table `table`, inside the directory of its database.
pub open spec fn table_file(table: Seq<char>) -> Seq<char> {
    table + ".tbl"@
}

/// The name of the bucket file of the table `table`, inside the directory of its database.
pub open spec fn bucket_file(table: Seq<char>) -> Seq<char> {
    table + "_bucket.bin"@
}

/// The name of the catalog file of the database `db`.
pub fn catalog_file_name(db: &str) -> (name: String)
    ensures
        name@ == catalog_file(db@),
{
    String::from_str(db).concat(".db")
}

/// The name of the file of the table `table`.
pub fn table_file_name(table: &str) -> (name: String)
    ensures
        name@ == table_file(table@),
{
    String::from_str(table).concat(".tbl")
}

/// The name of the bucket file of the table `table`.
pub fn bucket_file_name(table: &str) -> (name: String)
    ensures
        name@ == bucket_file(table@),
{
    String::from_str(table).concat("_bucket.bin")
}

/// One thing to be done on the storage. A file is named by its directory and its
/// name in that directory.
#[derive(Clone, PartialEq, Eq, Debug)]
pub enum Request {
    /// Create the directory, which must not be there.
    CreateDir { dir: String },
    /// Remove the directory, which must be empty.
    RemoveDir { dir: String },
    /// Remove the directory and all that is in it.
    RemoveTree { dir: String },
    /// Create the file, which must not be there, with the given contents. Where this
    /// fails, no file is left.
    CreateNew { dir: String, file: String, contents: Vec<u8> },
    /// Replace the contents of the file, which must be there.
    Overwrite { dir: String, file: String, contents: Vec<u8> },
    /// Read the contents of the file.
    Read { dir: String, file: String },
    /// Remove the file.
    RemoveFile { dir: String, file: String },
}

/// What a [`Request`] stands for.
pub enum RequestView {
    CreateDir { dir: Seq<char> },
    RemoveDir { dir: Seq<char> },
    RemoveTree { dir: Seq<char> },
    CreateNew { dir: Seq<char>, file: Seq<char>, contents: Seq<u8> },
    Overwrite { dir: Seq<char>, file: Seq<char>, contents: Seq<u8> },
    Read { dir: Seq<char>, file: Seq<char> },
    RemoveFile { dir: Seq<char>, file: Seq<char> },
}

impl View for Request {
    type V = RequestView;

    open spec fn view(&self) -> RequestView {
        match self {
            Request::CreateDir { dir } => RequestView::CreateDir { dir: dir@ },
            Request::RemoveDir { dir } => RequestView::RemoveDir { dir: dir@ },
            Request::RemoveTree { dir } => RequestView::RemoveTree { dir: dir@ },
            Request::CreateNew { dir, file, contents } => RequestView::CreateNew {
                dir: dir@,
                file: file@,
                contents: contents@,
            },
            Request::Overwrite { dir, file, contents } => RequestView::Overwrite {
                dir: dir@,
                file: file@,
                contents: contents@,
            },
            Request::Read { dir, file } => RequestView::Read { dir: dir@, file: file@ },
            Request::RemoveFile { dir, file } => RequestView::RemoveFile {
                dir: dir@,
                file: file@,
            },
        }
    }
}

/// How the storage answered a [`Request`].
#[derive(Clone, PartialEq, Eq, Debug)]
pub enum Reply {
    /// It was done.
    Done,
    /// The file was read, and these are its contents.
    Contents(Vec<u8>),
    /// Nothing was done: what was to be created is there already.
    AlreadyExists,
    /// Nothing was done: what was to be used is not there.
    NotFound,
    /// Nothing was done, for another reason.
    Failed,
}

/// What a [`Reply`] stands for.
pub enum ReplyView {
    Done,
    Contents(Seq<u8>),
    AlreadyExists,
    NotFound,
    Failed,
}

impl View for Reply {
    type V = ReplyView;

    open spec fn view(&self) -> ReplyView {
        match self {
            Reply::Done => ReplyView::Done,
            Reply::Contents(contents) => ReplyView::Contents(contents@),
            Reply::AlreadyExists => ReplyView::AlreadyExists,
            Reply::NotFound => ReplyView::NotFound,
            Reply::Failed => ReplyView::Failed,
        }
    }
}

/// An operation that waits for the reply to its last request.
#[derive(PartialEq, Eq, Debug)]
pub enum Task {
    /// Creating a database: the directory was asked for.
    MakingDir { db: String },
    /// Creating a database: the catalog file was asked for.
    WritingCatalog { db: String },
    /// Creating a database failed: the directory is being removed again.
    RemovingDir { cause: StoreError },
    /// Creating a table: the catalog is being read. The table file is laid out already,
    /// unless the schema cannot be laid out.
    ReadingCatalog { db: String, table: String, image: Result<Vec<u8>, StoreError> },
    /// Creating a table: the catalog is being written with one more table.
    UpdatingCatalog { db: String, table: String, previous: Vec<u8>, image: Vec<u8> },
    /// Creating a table: the table file was asked for.
    WritingTable { db: String, table: String, previous: Vec<u8> },
    /// Creating a table: the bucket file was asked for.
    WritingBucket { db: String, table: String, previous: Vec<u8> },
    /// Creating a table failed: the table file is being removed again.
    RemovingTable { db: String, previous: Vec<u8>, cause: StoreError },
    /// Creating a table failed: the catalog is being written as it was.
    RestoringCatalog { cause: StoreError },
    /// Deleting a database: the catalog file is being removed.
    RemovingCatalog { db: String },
    /// Deleting a database: the directory is being removed with all that is left in it.
    RemovingTree,
    /// Making a table anew: the table file is being written over.
    RewritingTable { db: String, table: String },
    /// Making a table anew: the bucket file is being emptied.
    RewritingBucket,
}

/// What a [`Task`] stands for.
pub enum TaskView {
    MakingDir { db: Seq<char> },
    WritingCatalog { db: Seq<char> },
    RemovingDir { cause: StoreError },
    ReadingCatalog { db: Seq<char>, table: Seq<char>, image: Result<Seq<u8>, StoreError> },
    UpdatingCatalog { db: Seq<char>, table: Seq<char>, previous: Seq<u8>, image: Seq<u8> },
    WritingTable { db: Seq<char>, table: Seq<char>, previous: Seq<u8> },
    WritingBucket { db: Seq<char>, table: Seq<char>, previous: Seq<u8> },
    RemovingTable { db: Seq<char>, previous: Seq<u8>, cause: StoreError },
    RestoringCatalog { cause: StoreError },
    RemovingCatalog { db: Seq<char> },
    RemovingTree,
    RewritingTable { db: Seq<char>, table: Seq<char> },
    RewritingBucket,
}

/// What a table file that was laid out, or the reason why it was not, stands for.
pub open spec fn image_view(image: Result<Vec<u8>, StoreError>) -> Result<Seq<u8>, StoreError> {
    match image {
        Ok(bytes) => Ok(bytes@),
        Err(e) => Err(e),
    }
}

impl View for Task {
    type V = TaskView;

    open spec fn view(&self) -> TaskView {
        match self {
            Task::MakingDir { db } => TaskView::MakingDir { db: db@ },
            Task::WritingCatalog { db } => TaskView::WritingCatalog { db: db@ },
            Task::RemovingDir { cause } => TaskView::RemovingDir { cause: *cause },
            Task::ReadingCatalog { db, table, image } => TaskView::ReadingCatalog {
                db: db@,
                table: table@,
                image: image_view(*image),
            },
            Task::UpdatingCatalog { db, table, previous, image } => TaskView::UpdatingCatalog {
                db: db@,
                table: table@,
                previous: previous@,
                image: image@,
            },
            Task::WritingTable { db, table, previous } => TaskView::WritingTable {
                db: db@,
                table: table@,
                previous: previous@,
            },
            Task::WritingBucket { db, table, previous } => TaskView::WritingBucket {
                db: db@,
                table: table@,
                previous: previous@,
            },
            Task::RemovingTable { db, previous, cause } => TaskView::RemovingTable {
                db: db@,
                previous: previous@,
                cause: *cause,
            },
            Task::RestoringCatalog { cause } => TaskView::RestoringCatalog { cause: *cause },
            Task::RemovingCatalog { db } => TaskView::RemovingCatalog { db: db@ },
            Task::RemovingTree => TaskView::RemovingTree,
            Task::RewritingTable { db, table } => TaskView::RewritingTable {
                db: db@,
                table: table@,
            },
            Task::RewritingBucket => TaskView::RewritingBucket,
        }
    }
}

/// Where an operation stands: it waits for the reply to a request, or it is finished.
#[derive(PartialEq, Eq, Debug)]
pub enum Step {
    /// The request is to be performed, and the task resumed with the reply.
    Continue(Task, Request),
    /// The operation is finished, with this result.
    Finished(Result<(), StoreError>),
}

/// What a [`Step`] stands for.
pub enum StepView {
    Continue(TaskView, RequestView),
    Finished(Result<(), StoreError>),
}

impl View for Step {
    type V = StepView;

    open spec fn view(&self) -> StepView {
        match self {
            Step::Continue(task, request) => StepView::Continue(task@, request@),
            Step::Finished(result) => StepView::Finished(*result),
        }
    }
}

/// The error that a reply other than the hoped-for one stands for.
pub open spec fn failure(reply: ReplyView) -> StoreError {
    match reply {
        ReplyView::AlreadyExists => StoreError::AlreadyExists,
        ReplyView::NotFound => StoreError::NotFound,
        _ => StoreError::IoError,
    }
}

/// The request to write the catalog of `db` with the given contents.
pub open spec fn write_catalog(db: Seq<char>, contents: Seq<u8>) -> RequestView {
    RequestView::Overwrite { dir: db, file: catalog_file(db), contents }
}

/// The first step of creating the database `db`: its directory is asked for.
pub open spec fn spec_create_db(db: Seq<char>) -> StepView {
    StepView::Continue(TaskView::MakingDir { db }, RequestView::CreateDir { dir: db })
}

/// The table file of `schema` as it is created, or the reason why it cannot be laid out.
pub open spec fn planned_image(schema: TableSchemaView) -> Result<Seq<u8>, StoreError> {
    match layout_defect(schema) {
        Some(e) => Err(e),
        None => Ok(table_image(schema)),
    }
}

/// The first step of creating the table of `schema` in the database `db`: the
/// catalog is asked for.
pub open spec fn spec_create_table(db: Seq<char>, schema: TableSchemaView) -> StepView {
    StepView::Continue(
        TaskView::ReadingCatalog {
            db,
            table: schema.struct_name,
            image: planned_image(schema),
        },
        RequestView::Read { dir: db, file: catalog_file(db) },
    )
}

/// The first step of deleting the database `db`: its catalog file is to be removed.
pub open spec fn spec_delete_db(db: Seq<char>) -> StepView {
    StepView::Continue(
        TaskView::RemovingCatalog { db },
        RequestView::RemoveFile { dir: db, file: catalog_file(db) },
    )
}

/// The first step of making the table of `schema` anew in the database `db`: the
/// table file is to be written over, unless the schema cannot be laid out.
pub open spec fn spec_reinitialize_table(db: Seq<char>, schema: TableSchemaView) -> StepView {
    match planned_image(schema) {
        Err(e) => StepView::Finished(Err(e)),
        Ok(image) => StepView::Continue(
            TaskView::RewritingTable { db, table: schema.struct_name },
            RequestView::Overwrite {
                dir: db,
                file: table_file(schema.struct_name),
                contents: image,
            },
        ),
    }
}

/// How a task goes on when the storage answers its request with `reply`.
///
/// Creating a database: the directory, then the catalog file with no tables; where
/// the file cannot be created, the directory is removed again.
///
/// Creating a table: the catalog is read and checked, then the schema; only then
/// the catalog is written with one more table, the table file is created, and
/// the empty bucket file. Where a step fails after the catalog was written, the
/// table file is removed if it was created, the catalog is written as it was
/// read, and the first failure is reported.
///
/// Deleting a database: the catalog file, then the directory with all that is left.
///
/// Making a table anew: the table file is written over, then the bucket file is
/// emptied.
pub open spec fn spec_resume(task: TaskView, reply: ReplyView) -> StepView {
    match task {
        TaskView::MakingDir { db } => match reply {
            ReplyView::Done => StepView::Continue(
                TaskView::WritingCatalog { db },
                RequestView::CreateNew {
                    dir: db,
                    file: catalog_file(db),
                    contents: catalog_header(0),
                },
            ),
            _ => StepView::Finished(Err(failure(reply))),
        },
        TaskView::WritingCatalog { db } => match reply {
            ReplyView::Done => StepView::Finished(Ok(())),
            _ => StepView::Continue(
                TaskView::RemovingDir { cause: failure(reply) },
                RequestView::RemoveDir { dir: db },
            ),
        },
        TaskView::RemovingDir { cause } => StepView::Finished(Err(cause)),
        TaskView::ReadingCatalog { db, table, image } => match reply {
            ReplyView::Contents(catalog) => match spec_register_table(catalog) {
                Err(e) => StepView::Finished(Err(e)),
                Ok(updated) => match image {
                    Err(e) => StepView::Finished(Err(e)),
                    Ok(image) => StepView::Continue(
                        TaskView::UpdatingCatalog { db, table, previous: catalog, image },
                        write_catalog(db, updated),
                    ),
                },
            },
            _ => StepView::Finished(Err(failure(reply))),
        },
        TaskView::UpdatingCatalog { db, table, previous, image } => match reply {
            ReplyView::Done => StepView::Continue(
                TaskView::WritingTable { db, table, previous },
                RequestView::CreateNew { dir: db, file: table_file(table), contents: image },
            ),
            _ => StepView::Continue(
                TaskView::RestoringCatalog { cause: failure(reply) },
                write_catalog(db, previous),
            ),
        },
        TaskView::WritingTable { db, table, previous } => match reply {
            ReplyView::Done => StepView::Continue(
                TaskView::WritingBucket { db, table, previous },
                RequestView::CreateNew {
                    dir: db,
                    file: bucket_file(table),
                    contents: Seq::empty(),
                },
            ),
            _ => StepView::Continue(
                TaskView::RestoringCatalog { cause: failure(reply) },
                write_catalog(db, previous),
            ),
        },
        TaskView::WritingBucket { db, table, previous } => match reply {
            ReplyView::Done => StepView::Finished(Ok(())),
            _ => StepView::Continue(
                TaskView::RemovingTable { db, previous, cause: failure(reply) },
                RequestView::RemoveFile { dir: db, file: table_file(table) },
            ),
        },
        TaskView::RemovingTable { db, previous, cause } => StepView::Continue(
            TaskView::RestoringCatalog { cause },
            write_catalog(db, previous),
        ),
        TaskView::RestoringCatalog { cause } => StepView::Finished(Err(cause)),
        TaskView::RemovingCatalog { db } => match reply {
            ReplyView::Done => StepView::Continue(
                TaskView::RemovingTree,
                RequestView::RemoveTree { dir: db },
            ),
            _ => StepView::Finished(Err(failure(reply))),
        },
        TaskView::RemovingTree => match reply {
            ReplyView::Done => StepView::Finished(Ok(())),
            _ => StepView::Finished(Err(failure(reply))),
        },
        TaskView::RewritingTable { db, table } => match reply {
            ReplyView::Done => StepView::Continue(
                TaskView::RewritingBucket,
                RequestView::Overwrite {
                    dir: db,
                    file: bucket_file(table),
                    contents: Seq::empty(),
                },
            ),
            _ => StepView::Finished(Err(failure(reply))),
        },
        TaskView::RewritingBucket => match reply {
            ReplyView::Done => StepView::Finished(Ok(())),
            _ => StepView::Finished(Err(failure(reply))),
        },
    }
}

/// The error that a reply other than the hoped-for one stands for.
fn failure_of(reply: &Reply) -> (cause: StoreError)
    ensures
        cause == failure(reply@),
{
    match reply {
        Reply::AlreadyExists => StoreError::AlreadyExists,
        Reply::NotFound => StoreError::NotFound,
        _ => StoreError::IoError,
    }
}

/// The request to write the catalog of `db` with the given contents.
fn catalog_write(db: &String, contents: Vec<u8>) -> (request: Request)
    ensures
        request@ == write_catalog(db@, contents@),
{
    Request::Overwrite { dir: db.clone(), file: catalog_file_name(db.as_str()), contents }
}

/// Starts creating the database `db_name`: a directory of that name, and in it the
/// catalog file with no tables.
pub fn create_db(db_name: String) -> (step: Step)
    ensures
        step@ == spec_create_db(db_name@),
{
    let dir: String = db_name.clone();
    Step::Continue(Task::MakingDir { db: db_name }, Request::CreateDir { dir })
}

/// Starts creating a table in the database `_db_name`: the catalog records one more
/// table, and the table file and its empty bucket file are created.
pub fn create_table(
    _table_name: String,
    _db_name: String,
    _ref: Vec<String>,
    _fields: Vec<Field>,
    _methods_names: Vec<String>,
) -> (step: Step)
    ensures
        step@ == spec_create_table(
            _db_name@,
            TableSchemaView {
                struct_name: _table_name@,
                references: names_view(_ref@),
                fields: fields_view(_fields@),
                methods: names_view(_methods_names@),
            },
        ),
{
    let table: String = _table_name.clone();
    let dir: String = _db_name.clone();
    let file: String = catalog_file_name(_db_name.as_str());
    let schema = TableSchema {
        struct_name: _table_name,
        references: _ref,
        fields: _fields,
        methods: _methods_names,
    };
    let image: Result<Vec<u8>, StoreError> = build_table_image(&schema);
    Step::Continue(Task::ReadingCatalog { db: _db_name, table, image }, Request::Read { dir, file })
}

/// Starts deleting the database `db_name`: its catalog file, then its directory with
/// the table and bucket files in it.
pub fn delete_db(db_name: String) -> (step: Step)
    ensures
        step@ == spec_delete_db(db_name@),
{
    let dir: String = db_name.clone();
    let file: String = catalog_file_name(db_name.as_str());
    Step::Continue(Task::RemovingCatalog { db: db_name }, Request::RemoveFile { dir, file })
}

/// Starts making a table anew: its file is written over with the header of the given
/// schema and an empty data region, and its bucket file is emptied. All records of
/// the table are lost.
pub fn reinitialize_table(
    _table_name: String,
    _db_name: String,
    _ref: Vec<String>,
    _fields: Vec<Field>,
) -> (step: Step)
    ensures
        step@ == spec_reinitialize_table(
            _db_name@,
            TableSchemaView {
                struct_name: _table_name@,
                references: names_view(_ref@),
                fields: fields_view(_fields@),
                methods: Seq::empty(),
            },
        ),
{
    let table: String = _table_name.clone();
    let dir: String = _db_name.clone();
    let file: String = table_file_name(_table_name.as_str());
    let schema = TableSchema {
        struct_name: _table_name,
        references: _ref,
        fields: _fields,
        methods: Vec::new(),
    };
    assert(schema@.methods =~= Seq::empty());
    match build_table_image(&schema) {
        Err(e) => Step::Finished(Err(e)),
        Ok(contents) => Step::Continue(
            Task::RewritingTable { db: _db_name, table },
            Request::Overwrite { dir, file, contents },
        ),
    }
}

impl Task {
    /// Goes on with the task, given the reply to its request.
    pub fn resume(self, reply: Reply) -> (step: Step)
        ensures
            step@ == spec_resume(self@, reply@),
    {
        match self {
            Task::MakingDir { db } => match reply {
                Reply::Done => {
                    let dir: String = db.clone();
                    let file: String = catalog_file_name(db.as_str());
                    Step::Continue(
                        Task::WritingCatalog { db },
                        Request::CreateNew { dir, file, contents: build_catalog_header(0) },
                    )
                },
                _ => Step::Finished(Err(failure_of(&reply))),
            },
            Task::WritingCatalog { db } => match reply {
                Reply::Done => Step::Finished(Ok(())),
                _ => Step::Continue(
                    Task::RemovingDir { cause: failure_of(&reply) },
                    Request::RemoveDir { dir: db },
                ),
            },
            Task::RemovingDir { cause } => Step::Finished(Err(cause)),
            Task::ReadingCatalog { db, table, image } => match reply {
                Reply::Contents(catalog) => match register_table(catalog.as_slice()) {
                    Err(e) => Step::Finished(Err(e)),
                    Ok(updated) => match image {
                        Err(e) => Step::Finished(Err(e)),
                        Ok(image) => {
                            let request: Request = catalog_write(&db, updated);
                            Step::Continue(
                                Task::UpdatingCatalog { db, table, previous: catalog, image },
                                request,
                            )
                        },
                    },
                },
                _ => Step::Finished(Err(failure_of(&reply))),
            },
            Task::UpdatingCatalog { db, table, previous, image } => match reply {
                Reply::Done => {
                    let dir: String = db.clone();
                    let file: String = table_file_name(table.as_str());
                    Step::Continue(
                        Task::WritingTable { db, table, previous },
                        Request::CreateNew { dir, file, contents: image },
                    )
                },
                _ => Step::Continue(
                    Task::RestoringCatalog { cause: failure_of(&reply) },
                    catalog_write(&db, previous),
                ),
            },
            Task::WritingTable { db, table, previous } => match reply {
                Reply::Done => {
                    let dir: String = db.clone();
                    let file: String = bucket_file_name(table.as_str());
                    Step::Continue(
                        Task::WritingBucket { db, table, previous },
                        Request::CreateNew { dir, file, contents: Vec::new() },
                    )
                },
                _ => Step::Continue(
                    Task::RestoringCatalog { cause: failure_of(&reply) },
                    catalog_write(&db, previous),
                ),
            },
            Task::WritingBucket { db, table, previous } => match reply {
                Reply::Done => Step::Finished(Ok(())),
                _ => {
                    let dir: String = db.clone();
                    let file: String = table_file_name(table.as_str());
                    Step::Continue(
                        Task::RemovingTable { db, previous, cause: failure_of(&reply) },
                        Request::RemoveFile { dir, file },
                    )
                },
            },
            Task::RemovingTable { db, previous, cause } => Step::Continue(
                Task::RestoringCatalog { cause },
                catalog_write(&db, previous),
            ),
            Task::RestoringCatalog { cause } => Step::Finished(Err(cause)),
            Task::RemovingCatalog { db } => match reply {
                Reply::Done => Step::Continue(Task::RemovingTree, Request::RemoveTree { dir: db }),
                _ => Step::Finished(Err(failure_of(&reply))),
            },
            Task::RemovingTree => match reply {
                Reply::Done => Step::Finished(Ok(())),
                _ => Step::Finished(Err(failure_of(&reply))),
            },
            Task::RewritingTable { db, table } => match reply {
                Reply::Done => {
                    let file: String = bucket_file_name(table.as_str());
                    Step::Continue(
                        Task::RewritingBucket,
                        Request::Overwrite { dir: db, file, contents: Vec::new() },
                    )
                },
                _ => Step::Finished(Err(failure_of(&reply))),
            },
            Task::RewritingBucket => match reply {
                Reply::Done => Step::Finished(Ok(())),
                _ => Step::Finished(Err(failure_of(&reply))),
            },
        }
    }
}

} // verus!
