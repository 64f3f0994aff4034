use objektdb_core::{
    build_catalog_header, build_table_header, build_table_image, open, register_table,
    string_padding, Database, Field, PrimitiveType, StoreError, TableDirectoryEntry, TableSchema,
    MAGIC_NUMBER, OID,
};

fn orders() -> TableSchema {
    TableSchema::new("orders".to_string())
        .reference("customers".to_string())
        .field(Field {
            name: "id".to_string(),
            is_OID: true,
            is_FK: false,
            type_: PrimitiveType::I64,
        })
        .field(Field {
            name: "customer".to_string(),
            is_OID: false,
            is_FK: true,
            type_: PrimitiveType::I64,
        })
}

fn padded(name: &str, width: usize) -> Vec<u8> {
    let mut bytes = name.as_bytes().to_vec();
    bytes.resize(width, 0);
    bytes
}

#[test]
fn string_padding_puts_the_text_first() {
    let mut out = vec![9u8];
    assert_eq!(string_padding(&mut out, "ab".to_string(), 5), Ok(()));
    assert_eq!(out, vec![9, b'a', b'b', 0, 0, 0]);
}

#[test]
fn string_padding_of_the_full_width_adds_no_zero() {
    let mut out = Vec::new();
    assert_eq!(string_padding(&mut out, "abc".to_string(), 3), Ok(()));
    assert_eq!(out, vec![b'a', b'b', b'c']);
    let mut none = Vec::new();
    assert_eq!(string_padding(&mut none, String::new(), 0), Ok(()));
    assert_eq!(none, Vec::<u8>::new());
}

#[test]
fn string_padding_refuses_a_text_that_is_too_long() {
    let mut out = vec![1u8, 2];
    assert_eq!(
        string_padding(&mut out, "abcd".to_string(), 3),
        Err("string too long".to_string())
    );
    assert_eq!(out, vec![1, 2]);
    // the length is counted in bytes
    let mut wide = Vec::new();
    assert!(string_padding(&mut wide, "éé".to_string(), 3).is_err());
    assert_eq!(string_padding(&mut wide, "éé".to_string(), 4), Ok(()));
    assert_eq!(wide, "éé".as_bytes().to_vec());
}

#[test]
fn table_header_has_the_layout() {
    let header = build_table_header(&orders()).unwrap();
    let mut expected = padded("orders", 64);
    expected.extend_from_slice(&158u32.to_le_bytes());
    expected.extend_from_slice(&[0, 0, 0]);
    expected.push(1);
    expected.extend_from_slice(&padded("customers", 64));
    expected.extend_from_slice(&[2, b'i', b'd', 0, 3, b'i', b'6', b'4']);
    expected.push(8);
    expected.extend_from_slice(b"customer");
    expected.extend_from_slice(&[1, 3, b'i', b'6', b'4']);
    assert_eq!(expected.len(), 158);
    assert_eq!(header, expected);
}

#[test]
fn table_header_lists_the_methods_last() {
    let schema = TableSchema::new("t".to_string())
        .field(Field {
            name: "s".to_string(),
            is_OID: true,
            is_FK: false,
            type_: PrimitiveType::Str,
        })
        .method("find_all".to_string())
        .method("x".to_string());
    let header = build_table_header(&schema).unwrap();
    let mut expected = padded("t", 64);
    let offset: u32 = 71 + 1 + (1 + 1 + 1 + 1 + 6) + (1 + 8) + (1 + 1);
    expected.extend_from_slice(&offset.to_le_bytes());
    expected.extend_from_slice(&[0, 0, 0]);
    expected.push(0);
    expected.extend_from_slice(&[1, b's', 0, 6]);
    expected.extend_from_slice(b"String");
    expected.push(8);
    expected.extend_from_slice(b"find_all");
    expected.extend_from_slice(&[1, b'x']);
    assert_eq!(header, expected);
    assert_eq!(header.len(), offset as usize);
}

#[test]
fn table_header_of_an_empty_schema_is_the_fixed_part_and_a_zero() {
    let header = build_table_header(&TableSchema::new(String::new())).unwrap();
    let mut expected = vec![0u8; 64];
    expected.extend_from_slice(&72u32.to_le_bytes());
    expected.extend_from_slice(&[0, 0, 0, 0]);
    assert_eq!(header, expected);
}

#[test]
fn table_image_is_the_header_and_the_zeroed_region() {
    let schema = orders();
    let header = build_table_header(&schema).unwrap();
    let image = build_table_image(&schema).unwrap();
    assert_eq!(image.len(), header.len() + 262144);
    assert_eq!(&image[..header.len()], &header[..]);
    assert!(image[header.len()..].iter().all(|b| *b == 0));
}

#[test]
fn table_header_refuses_names_that_do_not_fit() {
    assert!(build_table_header(&TableSchema::new("a".repeat(64))).is_ok());
    assert_eq!(
        build_table_header(&TableSchema::new("a".repeat(65))),
        Err(StoreError::NameTooLong)
    );
    assert_eq!(
        build_table_image(&TableSchema::new("a".repeat(65))),
        Err(StoreError::NameTooLong)
    );
    let long_reference = TableSchema::new("t".to_string()).reference("r".repeat(65));
    assert_eq!(build_table_header(&long_reference), Err(StoreError::NameTooLong));
    let long_field = TableSchema::new("t".to_string()).field(Field {
        name: "f".repeat(256),
        is_OID: true,
        is_FK: false,
        type_: PrimitiveType::U8,
    });
    assert_eq!(build_table_header(&long_field), Err(StoreError::NameTooLong));
    let long_method = TableSchema::new("t".to_string()).method("m".repeat(256));
    assert_eq!(build_table_header(&long_method), Err(StoreError::NameTooLong));
}

#[test]
fn table_header_refuses_more_than_255_references() {
    let mut schema = TableSchema::new("t".to_string());
    for i in 0..255 {
        schema = schema.reference(format!("r{}", i));
    }
    let header = build_table_header(&schema).unwrap();
    assert_eq!(header[71], 255);
    assert_eq!(header.len(), 72 + 64 * 255);
    schema = schema.reference("one_more".to_string());
    assert_eq!(build_table_header(&schema), Err(StoreError::CapacityExceeded));
}

#[test]
fn catalog_header_is_ten_bytes() {
    assert_eq!(MAGIC_NUMBER, 0x4D594442);
    assert_eq!(build_catalog_header(0), vec![0x42, 0x44, 0x59, 0x4D, 1, 0, 0, 0, 0, 0]);
    assert_eq!(build_catalog_header(7), vec![0x42, 0x44, 0x59, 0x4D, 1, 7, 0, 0, 0, 0]);
}

#[test]
fn register_table_raises_the_count() {
    let catalog = build_catalog_header(0);
    let once = register_table(&catalog).unwrap();
    assert_eq!(once, build_catalog_header(1));
    let twice = register_table(&once).unwrap();
    assert_eq!(twice, build_catalog_header(2));
}

#[test]
fn register_table_stops_at_255() {
    let almost = register_table(&build_catalog_header(254)).unwrap();
    assert_eq!(almost[5], 255);
    assert_eq!(register_table(&almost), Err(StoreError::CapacityExceeded));
    assert_eq!(register_table(&build_catalog_header(255)), Err(StoreError::CapacityExceeded));
}

#[test]
fn register_table_refuses_what_is_no_catalog() {
    assert_eq!(register_table(&[]), Err(StoreError::FormatError));
    assert_eq!(
        register_table(&[0x42, 0x44, 0x59, 0x4D, 1, 0, 0, 0, 0]),
        Err(StoreError::FormatError)
    );
    assert_eq!(
        register_table(&[0x4D, 0x59, 0x44, 0x42, 1, 0, 0, 0, 0, 0]),
        Err(StoreError::FormatError)
    );
    // a bad magic number is reported before a full catalog
    assert_eq!(
        register_table(&[0, 0, 0, 0, 1, 255, 0, 0, 0, 0]),
        Err(StoreError::FormatError)
    );
}

#[test]
fn register_table_keeps_what_follows_the_header() {
    let mut catalog = build_catalog_header(3);
    catalog.extend_from_slice(&[9, 8, 7]);
    let updated = register_table(&catalog).unwrap();
    assert_eq!(updated, vec![0x42, 0x44, 0x59, 0x4D, 1, 4, 0, 0, 0, 0, 9, 8, 7]);
}

#[test]
fn created_table_can_be_opened() {
    let image = build_table_image(&orders()).unwrap();
    let handle = open(&image).unwrap();
    assert_eq!(handle.name, b"orders".to_vec());
    assert_eq!(handle.references, vec![b"customers".to_vec()]);
    assert_eq!(handle.data_offset, 158);
    assert_eq!(handle.data_len, 262144);
}

#[test]
fn open_refuses_a_file_shorter_than_a_header() {
    assert_eq!(open(&[]), Err(StoreError::FormatError));
    assert_eq!(open(&vec![0u8; 71]), Err(StoreError::FormatError));
}

#[test]
fn open_refuses_offsets_that_do_not_agree() {
    let header = build_table_header(&orders()).unwrap();
    // the least header: no references, no data
    let mut least = vec![0u8; 72];
    least[64] = 72;
    let handle = open(&least).unwrap();
    assert_eq!(handle.name, Vec::<u8>::new());
    assert_eq!(handle.references, Vec::<Vec<u8>>::new());
    assert_eq!(handle.data_offset, 72);
    assert_eq!(handle.data_len, 0);
    // the data region begins inside the fixed part
    let mut early = least.clone();
    early[64] = 71;
    assert_eq!(open(&early), Err(StoreError::FormatError));
    // the data region begins before the references end
    let mut inside = header.clone();
    inside[64] = 135;
    assert_eq!(open(&inside), Err(StoreError::FormatError));
    let mut at_the_end = header.clone();
    at_the_end[64] = 136;
    assert_eq!(open(&at_the_end).unwrap().data_len, 158 - 136);
    // the data region begins behind the end of the file
    let mut behind = header.clone();
    behind[64] = 159;
    assert_eq!(open(&behind), Err(StoreError::FormatError));
    let mut far = header.clone();
    far[67] = 1;
    assert_eq!(open(&far), Err(StoreError::FormatError));
    assert_eq!(open(&header).unwrap().data_len, 0);
}

#[test]
fn store_error_has_a_message() {
    assert_eq!(
        StoreError::CapacityExceeded.message(),
        "Maximum number of tables reached (255)"
    );
    assert!(StoreError::NameTooLong.message().contains("too long"));
    assert!(StoreError::NotFound.message().contains("does not exist"));
    assert_eq!(StoreError::FormatError.message(), "Invalid database file format");
    assert_eq!(StoreError::AlreadyExists.message(), "The database already exists");
    assert!(!StoreError::IoError.message().is_empty());
}

#[test]
fn type_names_are_parsed_back() {
    let types = [
        PrimitiveType::I8,
        PrimitiveType::I16,
        PrimitiveType::I32,
        PrimitiveType::I64,
        PrimitiveType::I128,
        PrimitiveType::Isize,
        PrimitiveType::U8,
        PrimitiveType::U16,
        PrimitiveType::U32,
        PrimitiveType::U64,
        PrimitiveType::U128,
        PrimitiveType::Usize,
        PrimitiveType::F32,
        PrimitiveType::F64,
        PrimitiveType::Bool,
        PrimitiveType::Char,
        PrimitiveType::Str,
    ];
    for ty in types {
        assert_eq!(PrimitiveType::from_name(ty.name()), Some(ty));
    }
    assert_eq!(PrimitiveType::from_name("i64"), Some(PrimitiveType::I64));
    assert_eq!(PrimitiveType::from_name("String"), Some(PrimitiveType::Str));
    assert_eq!(PrimitiveType::from_name("string"), None);
    assert_eq!(PrimitiveType::from_name("i6"), None);
    assert_eq!(PrimitiveType::from_name("i644"), None);
    assert_eq!(PrimitiveType::from_name(""), None);
}

#[test]
fn table_gives_out_identities_in_order() {
    let mut entry = TableDirectoryEntry::new("orders".to_string()).unwrap();
    assert_eq!(entry.name, "orders");
    assert_eq!(entry.file_path, "orders.tbl");
    assert_eq!(entry.offset, 0);
    assert_eq!(entry.checksum, 0);
    assert_eq!(entry.last_oid, 0);
    assert_eq!(entry.next_oid(), Some(OID::new(1)));
    assert_eq!(entry.next_oid(), Some(OID::new(2)));
    assert_eq!(entry.last_oid, 2);
    entry.last_oid = i64::MAX as u64 - 1;
    assert_eq!(entry.next_oid(), Some(OID::new(i64::MAX)));
    assert_eq!(entry.next_oid(), None);
    assert_eq!(entry.last_oid, i64::MAX as u64);
}

#[test]
fn directory_entry_refuses_a_name_of_65_bytes() {
    assert!(TableDirectoryEntry::new("a".repeat(64)).is_ok());
    assert_eq!(TableDirectoryEntry::new("a".repeat(65)), Err(StoreError::NameTooLong));
}

#[test]
fn database_takes_255_tables_in_order() {
    let mut database = Database::new("shop".to_string());
    assert_eq!(database.table_count(), 0);
    assert_eq!(database.header(), build_catalog_header(0));
    for i in 0..255usize {
        assert_eq!(database.register_table(format!("t{}", i)), Ok(i));
    }
    assert_eq!(database.table_count(), 255);
    assert_eq!(database.header(), build_catalog_header(255));
    assert_eq!(database.tables[0].name, "t0");
    assert_eq!(database.tables[254].name, "t254");
    let before = database.clone();
    assert_eq!(database.register_table("one_more".to_string()), Err(StoreError::CapacityExceeded));
    assert_eq!(database.register_table("a".repeat(65)), Err(StoreError::CapacityExceeded));
    assert_eq!(database, before);
}

#[test]
fn database_refuses_a_table_name_of_65_bytes() {
    let mut database = Database::new("shop".to_string());
    assert_eq!(database.register_table("a".repeat(65)), Err(StoreError::NameTooLong));
    assert_eq!(database.tables.len(), 0);
    assert_eq!(database.register_table("a".repeat(64)), Ok(0));
    assert_eq!(database.header(), register_table(&build_catalog_header(0)).unwrap());
}
