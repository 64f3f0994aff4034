use objektdb_core::{
    build_catalog_header, build_table_image, create_db, create_table, delete_db, open,
    reinitialize_table, Field, PrimitiveType, Reply, Request, Step, StoreError, TableSchema, Task,
};
use std::collections::{BTreeMap, BTreeSet};

/// A storage in memory that answers requests as a file system would.
#[derive(Clone, Debug, PartialEq, Default)]
struct Storage {
    dirs: BTreeSet<String>,
    files: BTreeMap<(String, String), Vec<u8>>,
    faulty: BTreeSet<(String, String)>,
    log: Vec<String>,
}

impl Storage {
    fn perform(&mut self, request: Request) -> Reply {
        match request {
            Request::CreateDir { dir } => {
                self.log.push(format!("mkdir {}", dir));
                if self.dirs.contains(&dir) {
                    return Reply::AlreadyExists;
                }
                self.dirs.insert(dir);
                Reply::Done
            }
            Request::RemoveDir { dir } => {
                self.log.push(format!("rmdir {}", dir));
                if !self.dirs.contains(&dir) {
                    return Reply::NotFound;
                }
                if self.files.keys().any(|key| key.0 == dir) {
                    return Reply::Failed;
                }
                self.dirs.remove(&dir);
                Reply::Done
            }
            Request::RemoveTree { dir } => {
                self.log.push(format!("rmtree {}", dir));
                if !self.dirs.contains(&dir) {
                    return Reply::NotFound;
                }
                self.dirs.remove(&dir);
                self.files.retain(|key, _| key.0 != dir);
                Reply::Done
            }
            Request::CreateNew { dir, file, contents } => {
                self.log.push(format!("create {}/{}", dir, file));
                let key = (dir, file);
                if !self.dirs.contains(&key.0) {
                    return Reply::NotFound;
                }
                if self.files.contains_key(&key) {
                    return Reply::AlreadyExists;
                }
                if self.faulty.contains(&key) {
                    return Reply::Failed;
                }
                self.files.insert(key, contents);
                Reply::Done
            }
            Request::Overwrite { dir, file, contents } => {
                self.log.push(format!("write {}/{}", dir, file));
                let key = (dir, file);
                if !self.files.contains_key(&key) {
                    return Reply::NotFound;
                }
                if self.faulty.contains(&key) {
                    return Reply::Failed;
                }
                self.files.insert(key, contents);
                Reply::Done
            }
            Request::Read { dir, file } => {
                self.log.push(format!("read {}/{}", dir, file));
                match self.files.get(&(dir, file)) {
                    Some(contents) => Reply::Contents(contents.clone()),
                    None => Reply::NotFound,
                }
            }
            Request::RemoveFile { dir, file } => {
                self.log.push(format!("remove {}/{}", dir, file));
                match self.files.remove(&(dir, file)) {
                    Some(_) => Reply::Done,
                    None => Reply::NotFound,
                }
            }
        }
    }

    fn run(&mut self, mut step: Step) -> Result<(), StoreError> {
        let mut requests = 0;
        loop {
            match step {
                Step::Finished(result) => return result,
                Step::Continue(task, request) => {
                    requests += 1;
                    assert!(requests <= 6, "a task makes at most six requests");
                    let reply = self.perform(request);
                    step = task.resume(reply);
                }
            }
        }
    }

    fn file(&self, dir: &str, file: &str) -> Option<&Vec<u8>> {
        self.files.get(&(dir.to_string(), file.to_string()))
    }

    fn without_log(&self) -> Storage {
        Storage { log: Vec::new(), ..self.clone() }
    }
}

fn key(dir: &str, file: &str) -> (String, String) {
    (dir.to_string(), file.to_string())
}

fn make_table(storage: &mut Storage, table: &str, db: &str) -> Result<(), StoreError> {
    storage.run(create_table(table.to_string(), db.to_string(), vec![], vec![], vec![]))
}

#[test]
fn test_create_db_success() {
    let db_name = "test_db_create";
    let mut storage = Storage::default();

    let result = storage.run(create_db(db_name.to_string()));
    assert!(result.is_ok(), "Database creation should succeed");

    assert!(
        storage.file(db_name, &format!("{}.db", db_name)).is_some(),
        "Database file was not created"
    );
}

#[test]
fn test_create_db_already_exists() {
    let db_name = "test_db_exists";
    let mut storage = Storage::default();

    assert!(storage.run(create_db(db_name.to_string())).is_ok());
    let after_first = storage.without_log();

    let result = storage.run(create_db(db_name.to_string()));
    assert!(result.is_err(), "Second database creation should fail");
    assert_eq!(result, Err(StoreError::AlreadyExists));
    assert_eq!(storage.without_log(), after_first);
}

#[test]
fn test_create_table_success() {
    let db_name = "testdb";
    let table_name = "users";
    let mut storage = Storage::default();

    storage.run(create_db(db_name.to_string())).expect("Failed to create database");

    let refs = vec!["roles".to_string()];
    let fields = vec![
        Field {
            name: "id".to_string(),
            is_OID: true,
            is_FK: false,
            type_: PrimitiveType::I32,
        },
        Field {
            name: "role_id".to_string(),
            is_OID: false,
            is_FK: true,
            type_: PrimitiveType::I32,
        },
    ];
    let methods = vec!["find_all".to_string()];

    let result = storage.run(create_table(
        table_name.to_string(),
        db_name.to_string(),
        refs,
        fields,
        methods,
    ));

    assert!(result.is_ok());

    assert!(storage.file(db_name, &format!("{}.tbl", table_name)).is_some());
    assert!(storage.file(db_name, &format!("{}_bucket.bin", table_name)).is_some());
    assert_eq!(storage.file(db_name, &format!("{}.db", db_name)).unwrap()[5], 1);
}

#[test]
fn test_create_table_missing_db() {
    let mut storage = Storage::default();
    let result = make_table(&mut storage, "some_table", "nonexistent");

    assert!(result.is_err());
    assert_eq!(result, Err(StoreError::NotFound));
    assert!(result.unwrap_err().message().contains("does not exist"));
    assert_eq!(storage.without_log(), Storage::default());
}

#[test]
fn test_create_table_too_many_tables() {
    let db_name = "overflowdb";
    let table_name = "too_many";
    let mut storage = Storage::default();

    storage.run(create_db(db_name.to_string())).unwrap();

    let catalog = key(db_name, &format!("{}.db", db_name));
    storage.files.get_mut(&catalog).unwrap()[5] = 255; // simulate max tables reached
    let before = storage.without_log();

    let result = make_table(&mut storage, table_name, db_name);

    assert!(result.is_err());
    assert_eq!(result, Err(StoreError::CapacityExceeded));
    assert_eq!(result.unwrap_err().message(), "Maximum number of tables reached (255)");
    assert_eq!(storage.without_log(), before);
}

#[test]
fn test_table_name_too_long() {
    let db_name = "longdb";
    let table_name = "a".repeat(65); // >64
    let mut storage = Storage::default();

    storage.run(create_db(db_name.to_string())).unwrap();
    let before = storage.without_log();

    let result = make_table(&mut storage, &table_name, db_name);

    assert!(result.is_err());
    assert_eq!(result, Err(StoreError::NameTooLong));
    assert!(result.unwrap_err().message().contains("too long"));
    // nothing was written: the catalog was read, and that is all
    assert_eq!(storage.without_log(), before);
    assert_eq!(storage.log.last().unwrap(), "read longdb/longdb.db");
}

#[test]
fn table_name_of_64_bytes_is_accepted() {
    let mut storage = Storage::default();
    storage.run(create_db("d".to_string())).unwrap();
    let name = "a".repeat(64);
    assert_eq!(make_table(&mut storage, &name, "d"), Ok(()));
    let file = storage.file("d", &format!("{}.tbl", name)).unwrap();
    assert_eq!(&file[..64], name.as_bytes());
}

#[test]
fn create_db_writes_the_header() {
    let mut storage = Storage::default();
    assert_eq!(storage.run(create_db("d".to_string())), Ok(()));
    assert!(storage.dirs.contains("d"));
    assert_eq!(storage.files.len(), 1);
    assert_eq!(
        storage.file("d", "d.db").unwrap(),
        &vec![0x42, 0x44, 0x59, 0x4D, 1, 0, 0, 0, 0, 0]
    );
    assert_eq!(storage.log, vec!["mkdir d", "create d/d.db"]);
}

#[test]
fn create_db_asks_for_the_directory_first() {
    match create_db("d".to_string()) {
        Step::Continue(task, request) => {
            assert_eq!(task, Task::MakingDir { db: "d".to_string() });
            assert_eq!(request, Request::CreateDir { dir: "d".to_string() });
            match task.resume(Reply::Done) {
                Step::Continue(task, request) => {
                    assert_eq!(task, Task::WritingCatalog { db: "d".to_string() });
                    assert_eq!(
                        request,
                        Request::CreateNew {
                            dir: "d".to_string(),
                            file: "d.db".to_string(),
                            contents: build_catalog_header(0),
                        }
                    );
                    assert_eq!(task.resume(Reply::Done), Step::Finished(Ok(())));
                }
                other => panic!("the catalog file is next, not {:?}", other),
            }
        }
        other => panic!("the directory is first, not {:?}", other),
    }
}

#[test]
fn create_db_removes_the_directory_when_the_file_cannot_be_created() {
    let mut storage = Storage::default();
    storage.faulty.insert(key("d", "d.db"));
    let before = storage.without_log();
    assert_eq!(storage.run(create_db("d".to_string())), Err(StoreError::IoError));
    assert_eq!(storage.without_log(), before);
    assert_eq!(storage.log, vec!["mkdir d", "create d/d.db", "rmdir d"]);
}

#[test]
fn create_db_reports_the_first_failure_whatever_the_cleanup_does() {
    let task = Task::WritingCatalog { db: "d".to_string() };
    match task.resume(Reply::AlreadyExists) {
        Step::Continue(task, request) => {
            assert_eq!(request, Request::RemoveDir { dir: "d".to_string() });
            assert_eq!(
                task.resume(Reply::Failed),
                Step::Finished(Err(StoreError::AlreadyExists))
            );
        }
        other => panic!("the directory is to be removed, not {:?}", other),
    }
    let task = Task::MakingDir { db: "d".to_string() };
    assert_eq!(task.resume(Reply::Failed), Step::Finished(Err(StoreError::IoError)));
    let task = Task::MakingDir { db: "d".to_string() };
    assert_eq!(
        task.resume(Reply::Contents(vec![1])),
        Step::Finished(Err(StoreError::IoError))
    );
}

#[test]
fn shop_scenario() {
    let mut storage = Storage::default();
    assert_eq!(storage.run(create_db("shop".to_string())), Ok(()));
    assert!(storage.dirs.contains("shop"));
    let catalog = storage.file("shop", "shop.db").unwrap();
    assert_eq!(catalog.len(), 10);
    assert_eq!(&catalog[..4], &0x4D594442u32.to_le_bytes());

    let fields = vec![
        Field {
            name: "id".to_string(),
            is_OID: true,
            is_FK: false,
            type_: PrimitiveType::I64,
        },
        Field {
            name: "customer".to_string(),
            is_OID: false,
            is_FK: true,
            type_: PrimitiveType::I64,
        },
    ];
    let result = storage.run(create_table(
        "orders".to_string(),
        "shop".to_string(),
        vec!["customers".to_string()],
        fields,
        vec![],
    ));
    assert_eq!(result, Ok(()));

    let table = storage.file("shop", "orders.tbl").unwrap();
    let mut name = b"orders".to_vec();
    name.resize(64, 0);
    assert_eq!(&table[..64], &name[..]);
    assert_eq!(table[71], 1);
    assert_eq!(table.len(), 158 + 262144);
    assert_eq!(storage.file("shop", "orders_bucket.bin").unwrap(), &Vec::<u8>::new());
    assert_eq!(storage.file("shop", "shop.db").unwrap()[5], 1);
    assert_eq!(storage.file("shop", "shop.db").unwrap().len(), 10);

    let handle = open(table).unwrap();
    assert_eq!(handle.name, b"orders".to_vec());
    assert_eq!(handle.references, vec![b"customers".to_vec()]);
    assert_eq!(handle.data_offset, 158);
}

#[test]
fn create_table_goes_step_by_step() {
    let mut storage = Storage::default();
    storage.run(create_db("d".to_string())).unwrap();
    storage.log.clear();
    assert_eq!(make_table(&mut storage, "t", "d"), Ok(()));
    assert_eq!(
        storage.log,
        vec!["read d/d.db", "write d/d.db", "create d/t.tbl", "create d/t_bucket.bin"]
    );
    let image = build_table_image(&TableSchema::new("t".to_string())).unwrap();
    assert_eq!(storage.file("d", "t.tbl").unwrap(), &image);
}

#[test]
fn catalog_with_254_tables_takes_one_more() {
    let mut storage = Storage::default();
    storage.run(create_db("d".to_string())).unwrap();
    storage.files.get_mut(&key("d", "d.db")).unwrap()[5] = 254;
    assert_eq!(make_table(&mut storage, "last", "d"), Ok(()));
    assert_eq!(storage.file("d", "d.db").unwrap()[5], 255);
    assert_eq!(make_table(&mut storage, "none", "d"), Err(StoreError::CapacityExceeded));
    assert_eq!(storage.file("d", "d.db").unwrap()[5], 255);
    assert!(storage.file("d", "none.tbl").is_none());
}

#[test]
fn create_table_refuses_a_catalog_without_the_magic_number() {
    let mut storage = Storage::default();
    storage.run(create_db("d".to_string())).unwrap();
    storage.files.get_mut(&key("d", "d.db")).unwrap()[0] = 0;
    let before = storage.without_log();
    assert_eq!(make_table(&mut storage, "t", "d"), Err(StoreError::FormatError));
    assert_eq!(storage.without_log(), before);
}

#[test]
fn catalog_is_rolled_back_when_the_table_file_cannot_be_created() {
    let mut storage = Storage::default();
    storage.run(create_db("d".to_string())).unwrap();
    make_table(&mut storage, "first", "d").unwrap();
    storage.faulty.insert(key("d", "t.tbl"));
    let before = storage.without_log();
    storage.log.clear();
    assert_eq!(make_table(&mut storage, "t", "d"), Err(StoreError::IoError));
    assert_eq!(storage.file("d", "d.db").unwrap()[5], 1);
    assert_eq!(storage.without_log(), before);
    assert_eq!(
        storage.log,
        vec!["read d/d.db", "write d/d.db", "create d/t.tbl", "write d/d.db"]
    );
}

#[test]
fn catalog_is_rolled_back_when_the_table_is_there_already() {
    let mut storage = Storage::default();
    storage.run(create_db("d".to_string())).unwrap();
    make_table(&mut storage, "t", "d").unwrap();
    let before = storage.without_log();
    assert_eq!(make_table(&mut storage, "t", "d"), Err(StoreError::AlreadyExists));
    assert_eq!(storage.file("d", "d.db").unwrap()[5], 1);
    assert_eq!(storage.without_log(), before);
}

#[test]
fn table_file_is_removed_when_the_bucket_file_cannot_be_created() {
    let mut storage = Storage::default();
    storage.run(create_db("d".to_string())).unwrap();
    storage.faulty.insert(key("d", "t_bucket.bin"));
    let before = storage.without_log();
    storage.log.clear();
    assert_eq!(make_table(&mut storage, "t", "d"), Err(StoreError::IoError));
    assert!(storage.file("d", "t.tbl").is_none());
    assert_eq!(storage.file("d", "d.db").unwrap()[5], 0);
    assert_eq!(storage.without_log(), before);
    assert_eq!(
        storage.log,
        vec![
            "read d/d.db",
            "write d/d.db",
            "create d/t.tbl",
            "create d/t_bucket.bin",
            "remove d/t.tbl",
            "write d/d.db",
        ]
    );
}

#[test]
fn rollback_writes_the_catalog_as_it_was_read() {
    let previous = vec![0x42, 0x44, 0x59, 0x4D, 1, 9, 0, 0, 0, 0, 5, 5];
    let task = Task::WritingTable {
        db: "d".to_string(),
        table: "t".to_string(),
        previous: previous.clone(),
    };
    match task.resume(Reply::Failed) {
        Step::Continue(task, request) => {
            assert_eq!(task, Task::RestoringCatalog { cause: StoreError::IoError });
            assert_eq!(
                request,
                Request::Overwrite {
                    dir: "d".to_string(),
                    file: "d.db".to_string(),
                    contents: previous,
                }
            );
            assert_eq!(task.resume(Reply::Done), Step::Finished(Err(StoreError::IoError)));
        }
        other => panic!("the catalog is to be restored, not {:?}", other),
    }
}

#[test]
fn delete_db_removes_all_of_it() {
    let mut storage = Storage::default();
    storage.run(create_db("d".to_string())).unwrap();
    storage.run(create_db("other".to_string())).unwrap();
    make_table(&mut storage, "t", "d").unwrap();
    make_table(&mut storage, "t", "other").unwrap();
    assert_eq!(storage.run(delete_db("d".to_string())), Ok(()));
    assert!(!storage.dirs.contains("d"));
    assert!(storage.files.keys().all(|key| key.0 != "d"));
    assert!(storage.dirs.contains("other"));
    assert!(storage.file("other", "other.db").is_some());
    assert!(storage.file("other", "t.tbl").is_some());
    assert!(storage.file("other", "t_bucket.bin").is_some());
}

#[test]
fn delete_db_of_a_missing_database_is_not_found() {
    let mut storage = Storage::default();
    assert_eq!(storage.run(delete_db("d".to_string())), Err(StoreError::NotFound));
    assert_eq!(storage.without_log(), Storage::default());
    assert_eq!(storage.log, vec!["remove d/d.db"]);
}

#[test]
fn reinitialize_table_writes_the_table_anew() {
    let mut storage = Storage::default();
    storage.run(create_db("d".to_string())).unwrap();
    make_table(&mut storage, "t", "d").unwrap();
    storage.files.get_mut(&key("d", "t.tbl")).unwrap()[100] = 7;
    storage.files.insert(key("d", "t_bucket.bin"), vec![1, 2, 3]);
    let fields = vec![Field {
        name: "id".to_string(),
        is_OID: true,
        is_FK: false,
        type_: PrimitiveType::U64,
    }];
    let step = reinitialize_table(
        "t".to_string(),
        "d".to_string(),
        vec!["r".to_string()],
        fields.clone(),
    );
    assert_eq!(storage.run(step), Ok(()));
    let schema = TableSchema::new("t".to_string()).reference("r".to_string()).field(fields[0].clone());
    assert_eq!(storage.file("d", "t.tbl").unwrap(), &build_table_image(&schema).unwrap());
    assert_eq!(storage.file("d", "t_bucket.bin").unwrap(), &Vec::<u8>::new());
    assert_eq!(storage.file("d", "d.db").unwrap()[5], 1);
}

#[test]
fn reinitialize_table_of_a_missing_table_is_not_found() {
    let mut storage = Storage::default();
    storage.run(create_db("d".to_string())).unwrap();
    let before = storage.without_log();
    let step = reinitialize_table("t".to_string(), "d".to_string(), vec![], vec![]);
    assert_eq!(storage.run(step), Err(StoreError::NotFound));
    assert_eq!(storage.without_log(), before);
}

#[test]
fn reinitialize_table_refuses_a_name_too_long_at_once() {
    let step = reinitialize_table("a".repeat(65), "d".to_string(), vec![], vec![]);
    assert_eq!(step, Step::Finished(Err(StoreError::NameTooLong)));
}
