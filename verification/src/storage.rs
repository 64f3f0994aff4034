//! A model of the storage, and what the operations do to it.
//!
//! The model is a set of directories and a map from files to their contents. A
//! file is named by its directory and its name in it. Some files can be marked
//! as faulty: the storage refuses to write them. Against this model the tasks
//! of the file manager are run to their end, and the laws below say what is
//! then on the storage.

use crate::catalog::{
    catalog_header, has_magic, lemma_register_table, spec_register_table, table_count,
};
use crate::config::{MAX_TABLES, NAME_WIDTH};
use crate::error::StoreError;
use crate::file_manager::{
    bucket_file, catalog_file, planned_image, spec_create_db, spec_create_table, spec_delete_db,
    spec_reinitialize_table, spec_resume, table_file, ReplyView, RequestView, StepView, TaskView,
};
use crate::schema::{byte_len, TableSchemaView};
use crate::table::{layout_defect, table_image};
use vstd::prelude::*;

verus! {

/// The storage, as the operations see it.
#[verifier::ext_equal]
pub struct Disk {
    /// The directories that exist.
    pub dirs: Set<Seq<char>>,
    /// The files that exist, each by its directory and its name, with their contents.
    pub files: Map<(Seq<char>, Seq<char>), Seq<u8>>,
    /// The files that the storage refuses to write.
    pub faulty: Set<(Seq<char>, Seq<char>)>,
}

impl Disk {
    /// Whether every file is in a directory that exists.
    pub open spec fn wf(self) -> bool {
        forall|key: (Seq<char>, Seq<char>)| #[trigger]
            self.files.dom().contains(key) ==> self.dirs.contains(key.0)
    }

    /// Whether a file exists.
    pub open spec fn has_file(self, dir: Seq<char>, file: Seq<char>) -> bool {
        self.files.dom().contains((dir, file))
    }

    /// Whether a directory holds no file.
    pub open spec fn is_empty_dir(self, dir: Seq<char>) -> bool {
        forall|key: (Seq<char>, Seq<char>)| #[trigger]
            self.files.dom().contains(key) ==> key.0 != dir
    }

    /// The storage with one file written.
    pub open spec fn with_file(self, dir: Seq<char>, file: Seq<char>, contents: Seq<u8>) -> Disk {
        Disk { files: self.files.insert((dir, file), contents), ..self }
    }

    /// The storage without a directory and the files in it.
    pub open spec fn without_tree(self, dir: Seq<char>) -> Disk {
        Disk {
            dirs: self.dirs.remove(dir),
            files: self.files.restrict(
                Set::new(|key: (Seq<char>, Seq<char>)| key.0 != dir),
            ),
            ..self
        }
    }

    /// How the storage answers a request, and what it is afterwards.
    pub open spec fn perform(self, request: RequestView) -> (ReplyView, Disk) {
        match request {
            RequestView::CreateDir { dir } => if self.dirs.contains(dir) {
                (ReplyView::AlreadyExists, self)
            } else {
                (ReplyView::Done, Disk { dirs: self.dirs.insert(dir), ..self })
            },
            RequestView::RemoveDir { dir } => if !self.dirs.contains(dir) {
                (ReplyView::NotFound, self)
            } else if !self.is_empty_dir(dir) {
                (ReplyView::Failed, self)
            } else {
                (ReplyView::Done, Disk { dirs: self.dirs.remove(dir), ..self })
            },
            RequestView::RemoveTree { dir } => if !self.dirs.contains(dir) {
                (ReplyView::NotFound, self)
            } else {
                (ReplyView::Done, self.without_tree(dir))
            },
            RequestView::CreateNew { dir, file, contents } => if !self.dirs.contains(dir) {
                (ReplyView::NotFound, self)
            } else if self.has_file(dir, file) {
                (ReplyView::AlreadyExists, self)
            } else if self.faulty.contains((dir, file)) {
                (ReplyView::Failed, self)
            } else {
                (ReplyView::Done, self.with_file(dir, file, contents))
            },
            RequestView::Overwrite { dir, file, contents } => if !self.has_file(dir, file) {
                (ReplyView::NotFound, self)
            } else if self.faulty.contains((dir, file)) {
                (ReplyView::Failed, self)
            } else {
                (ReplyView::Done, self.with_file(dir, file, contents))
            },
            RequestView::Read { dir, file } => if !self.has_file(dir, file) {
                (ReplyView::NotFound, self)
            } else {
                (ReplyView::Contents(self.files[(dir, file)]), self)
            },
            RequestView::RemoveFile { dir, file } => if !self.has_file(dir, file) {
                (ReplyView::NotFound, self)
            } else {
                (ReplyView::Done, Disk { files: self.files.remove((dir, file)), ..self })
            },
        }
    }
}

/// The number of requests that a task may still make, its pending one included.
pub open spec fn steps_left(task: TaskView) -> nat {
    match task {
        TaskView::MakingDir { .. } => 3,
        TaskView::WritingCatalog { .. } => 2,
        TaskView::RemovingDir { .. } => 1,
        TaskView::ReadingCatalog { .. } => 6,
        TaskView::UpdatingCatalog { .. } => 5,
        TaskView::WritingTable { .. } => 4,
        TaskView::WritingBucket { .. } => 3,
        TaskView::RemovingTable { .. } => 2,
        TaskView::RestoringCatalog { .. } => 1,
        TaskView::RemovingCatalog { .. } => 2,
        TaskView::RemovingTree => 1,
        TaskView::RewritingTable { .. } => 2,
        TaskView::RewritingBucket => 1,
    }
}

/// The number of requests that an operation may still make.
pub open spec fn requests_left(step: StepView) -> nat {
    match step {
        StepView::Continue(task, _) => steps_left(task),
        StepView::Finished(_) => 0,
    }
}

/// Every task comes to its end: with each reply, whatever it is, fewer requests are left.
pub proof fn lemma_resume_descends(task: TaskView, reply: ReplyView)
    ensures
        requests_left(spec_resume(task, reply)) < steps_left(task),
{
}

/// The result of an operation that is run to its end on a storage, and the storage
/// as the operation leaves it.
pub open spec fn run(step: StepView, disk: Disk) -> (Result<(), StoreError>, Disk)
    decreases requests_left(step),
{
    match step {
        StepView::Finished(result) => (result, disk),
        StepView::Continue(task, request) => {
            let (reply, next) = disk.perform(request);
            proof {
                lemma_resume_descends(task, reply);
            }
            run(spec_resume(task, reply), next)
        },
    }
}

/// The catalog, the table file and the bucket file of a table have three different names.
pub proof fn lemma_file_names_differ(db: Seq<char>, table: Seq<char>)
    ensures
        catalog_file(db) != table_file(table),
        catalog_file(db) != bucket_file(table),
        table_file(table) != bucket_file(table),
{
    reveal_strlit(".db");
    reveal_strlit(".tbl");
    reveal_strlit("_bucket.bin");
    assert(catalog_file(db).last() == 'b');
    assert(table_file(table).last() == 'l');
    assert(bucket_file(table).last() == 'n');
}

/// Creating a database that is not there gives its directory and its catalog file,
/// which holds the header of a catalog without tables, and nothing else changes.
pub proof fn lemma_create_db_creates(disk: Disk, db: Seq<char>)
    requires
        disk.wf(),
        !disk.dirs.contains(db),
        !disk.faulty.contains((db, catalog_file(db))),
    ensures
        run(spec_create_db(db), disk) == (
            Ok::<(), StoreError>(()),
            Disk { dirs: disk.dirs.insert(db), ..disk }.with_file(
                db,
                catalog_file(db),
                catalog_header(0),
            ),
        ),
{
    reveal_with_fuel(run, 4);
}

/// Idempotent rejection: after a database was created, creating it once more fails
/// with `AlreadyExists` and leaves the storage as the first call left it.
pub proof fn lemma_create_db_twice(disk: Disk, db: Seq<char>)
    requires
        disk.wf(),
        run(spec_create_db(db), disk).0 is Ok,
    ensures
        run(spec_create_db(db), run(spec_create_db(db), disk).1) == (
            Err::<(), StoreError>(StoreError::AlreadyExists),
            run(spec_create_db(db), disk).1,
        ),
{
    reveal_with_fuel(run, 4);
}

/// Creating a database that cannot be created leaves the storage as it was: a
/// directory that was made is removed again.
pub proof fn lemma_create_db_all_or_nothing(disk: Disk, db: Seq<char>)
    requires
        disk.wf(),
        run(spec_create_db(db), disk).0 is Err,
    ensures
        run(spec_create_db(db), disk).1 == disk,
{
    reveal_with_fuel(run, 4);
    if !disk.dirs.contains(db) {
        let made = Disk { dirs: disk.dirs.insert(db), ..disk };
        assert(made.is_empty_dir(db));
        assert(made.dirs.remove(db) =~= disk.dirs);
    }
}

/// Creating a table where nothing stands in the way: the catalog records one more
/// table, the table file holds the header of the schema and an empty data region,
/// the bucket file is empty, and nothing else changes.
pub proof fn lemma_create_table_creates(disk: Disk, db: Seq<char>, schema: TableSchemaView)
    requires
        disk.wf(),
        disk.has_file(db, catalog_file(db)),
        has_magic(disk.files[(db, catalog_file(db))]),
        table_count(disk.files[(db, catalog_file(db))]) < MAX_TABLES,
        layout_defect(schema) is None,
        !disk.has_file(db, table_file(schema.struct_name)),
        !disk.has_file(db, bucket_file(schema.struct_name)),
        !disk.faulty.contains((db, catalog_file(db))),
        !disk.faulty.contains((db, table_file(schema.struct_name))),
        !disk.faulty.contains((db, bucket_file(schema.struct_name))),
    ensures
        run(spec_create_table(db, schema), disk) == (
            Ok::<(), StoreError>(()),
            disk.with_file(
                db,
                catalog_file(db),
                spec_register_table(disk.files[(db, catalog_file(db))])->Ok_0,
            ).with_file(db, table_file(schema.struct_name), table_image(schema)).with_file(
                db,
                bucket_file(schema.struct_name),
                Seq::empty(),
            ),
        ),
        table_count(spec_register_table(disk.files[(db, catalog_file(db))])->Ok_0) == table_count(
            disk.files[(db, catalog_file(db))],
        ) + 1,
{
    reveal_with_fuel(run, 7);
    lemma_file_names_differ(db, schema.struct_name);
    lemma_register_table(disk.files[(db, catalog_file(db))]);
}

/// Capacity boundary: a catalog that records 255 tables takes no more. Creating a
/// table fails with `CapacityExceeded` and the storage stays as it was.
pub proof fn lemma_create_table_full(disk: Disk, db: Seq<char>, schema: TableSchemaView)
    requires
        disk.has_file(db, catalog_file(db)),
        has_magic(disk.files[(db, catalog_file(db))]),
        table_count(disk.files[(db, catalog_file(db))]) == MAX_TABLES,
    ensures
        run(spec_create_table(db, schema), disk) == (
            Err::<(), StoreError>(StoreError::CapacityExceeded),
            disk,
        ),
{
    reveal_with_fuel(run, 7);
}

/// Name boundary: a table whose name takes more than 64 bytes is refused with
/// `NameTooLong` before anything is written, where the catalog itself is in order.
pub proof fn lemma_create_table_name_too_long(disk: Disk, db: Seq<char>, schema: TableSchemaView)
    requires
        disk.has_file(db, catalog_file(db)),
        has_magic(disk.files[(db, catalog_file(db))]),
        table_count(disk.files[(db, catalog_file(db))]) < MAX_TABLES,
        byte_len(schema.struct_name) > NAME_WIDTH,
    ensures
        run(spec_create_table(db, schema), disk) == (
            Err::<(), StoreError>(StoreError::NameTooLong),
            disk,
        ),
{
    reveal_with_fuel(run, 7);
}

/// Atomicity: creating a table either succeeds or leaves the storage as it was. Where
/// the table file or the bucket file cannot be created after the catalog was
/// written with one more table, the catalog is written back as it was read, and
/// a table file that was created is removed.
pub proof fn lemma_create_table_all_or_nothing(disk: Disk, db: Seq<char>, schema: TableSchemaView)
    requires
        disk.wf(),
        run(spec_create_table(db, schema), disk).0 is Err,
    ensures
        run(spec_create_table(db, schema), disk).1 == disk,
{
    reveal_with_fuel(run, 7);
    lemma_file_names_differ(db, schema.struct_name);
    let table = schema.struct_name;
    let catalog_key = (db, catalog_file(db));
    if disk.has_file(db, catalog_file(db)) {
        let previous = disk.files[catalog_key];
        if spec_register_table(previous) is Ok && planned_image(schema) is Ok {
            let updated = spec_register_table(previous)->Ok_0;
            let image = planned_image(schema)->Ok_0;
            if !disk.faulty.contains(catalog_key) {
                let counted = disk.with_file(db, catalog_file(db), updated);
                assert(counted.with_file(db, catalog_file(db), previous) =~= disk);
                if !disk.has_file(db, table_file(table)) && !disk.faulty.contains(
                    (db, table_file(table)),
                ) {
                    let tabled = counted.with_file(db, table_file(table), image);
                    let untabled = Disk {
                        files: tabled.files.remove((db, table_file(table))),
                        ..tabled
                    };
                    assert(untabled =~= counted);
                }
            }
        }
    }
}

/// Deleting a database that is there removes its directory and every file in it, and
/// nothing else.
pub proof fn lemma_delete_db_deletes(disk: Disk, db: Seq<char>)
    requires
        disk.wf(),
        disk.has_file(db, catalog_file(db)),
    ensures
        run(spec_delete_db(db), disk) == (Ok::<(), StoreError>(()), disk.without_tree(db)),
        !disk.without_tree(db).dirs.contains(db),
        disk.without_tree(db).is_empty_dir(db),
{
    reveal_with_fuel(run, 3);
    let key = (db, catalog_file(db));
    assert(disk.files.dom().contains(key));
    let removed = Disk { files: disk.files.remove(key), ..disk };
    assert(removed.without_tree(db) =~= disk.without_tree(db));
}

/// Deleting a database whose catalog file is not there fails with `NotFound` and
/// changes nothing.
pub proof fn lemma_delete_db_missing(disk: Disk, db: Seq<char>)
    requires
        !disk.has_file(db, catalog_file(db)),
    ensures
        run(spec_delete_db(db), disk) == (Err::<(), StoreError>(StoreError::NotFound), disk),
{
    reveal_with_fuel(run, 3);
}

/// Making a table anew, where its files are there and can be written: the table
/// file holds the header of the new schema and an empty data region, the bucket
/// file is empty, and nothing else changes.
pub proof fn lemma_reinitialize_table_rewrites(disk: Disk, db: Seq<char>, schema: TableSchemaView)
    requires
        layout_defect(schema) is None,
        disk.has_file(db, table_file(schema.struct_name)),
        disk.has_file(db, bucket_file(schema.struct_name)),
        !disk.faulty.contains((db, table_file(schema.struct_name))),
        !disk.faulty.contains((db, bucket_file(schema.struct_name))),
    ensures
        run(spec_reinitialize_table(db, schema), disk) == (
            Ok::<(), StoreError>(()),
            disk.with_file(db, table_file(schema.struct_name), table_image(schema)).with_file(
                db,
                bucket_file(schema.struct_name),
                Seq::empty(),
            ),
        ),
{
    reveal_with_fuel(run, 3);
    lemma_file_names_differ(db, schema.struct_name);
}

/// Every operation keeps the storage in order: no file is ever left in a directory
/// that does not exist.
pub proof fn lemma_run_keeps_wf(step: StepView, disk: Disk)
    requires
        disk.wf(),
    ensures
        run(step, disk).1.wf(),
    decreases requests_left(step),
{
    match step {
        StepView::Finished(_) => {},
        StepView::Continue(task, request) => {
            let (reply, next) = disk.perform(request);
            lemma_resume_descends(task, reply);
            assert(next.wf());
            lemma_run_keeps_wf(spec_resume(task, reply), next);
        },
    }
}

} // verus!
