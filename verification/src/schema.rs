//! The description of a table: its name, the tables it refers to, its fields and its methods.

use crate::config::{MAX_PREFIXED_LEN, MAX_REFERENCES, NAME_WIDTH};
use crate::error::SchemaError;
use crate::value::PrimitiveType;
use vstd::prelude::*;
use vstd::utf8::encode_utf8;

verus! {

/// One field of a table.
#[allow(non_snake_case)]
#[derive(Clone, PartialEq, Eq, Debug)]
pub struct Field {
    /// The name of the field.
    pub name: String,
    /// Whether the field is the identity of the record. A valid schema has one such field.
    pub is_OID: bool,
    /// Whether the field holds the identity of a record of a referenced table.
    pub is_FK: bool,
    /// The type that the field declares.
    pub type_: PrimitiveType,
}

/// What a [`Field`] stands for.
pub struct FieldView {
    pub name: Seq<char>,
    pub is_oid: bool,
    pub is_fk: bool,
    pub ty: PrimitiveType,
}

impl View for Field {
    type V = FieldView;

    open spec fn view(&self) -> FieldView {
        FieldView { name: self.name@, is_oid: self.is_OID, is_fk: self.is_FK, ty: self.type_ }
    }
}

/// The schema of a table.
#[derive(Clone, PartialEq, Eq, Debug)]
pub struct TableSchema {
    /// The name of the table, which is the name of the record type.
    pub struct_name: String,
    /// The names of the tables that a foreign key of this table may point to.
    pub references: Vec<String>,
    /// The fields, in the order in which a record holds their values.
    pub fields: Vec<Field>,
    /// The names of the methods of the record type. They are recorded, never called.
    pub methods: Vec<String>,
}

/// What a [`TableSchema`] stands for.
pub struct TableSchemaView {
    pub struct_name: Seq<char>,
    pub references: Seq<Seq<char>>,
    pub fields: Seq<FieldView>,
    pub methods: Seq<Seq<char>>,
}

/// What a list of names stands for.
pub open spec fn names_view(names: Seq<String>) -> Seq<Seq<char>> {
    Seq::new(names.len(), |i: int| names[i]@)
}

/// What a list of fields stands for.
pub open spec fn fields_view(fields: Seq<Field>) -> Seq<FieldView> {
    Seq::new(fields.len(), |i: int| fields[i]@)
}

impl View for TableSchema {
    type V = TableSchemaView;

    open spec fn view(&self) -> TableSchemaView {
        TableSchemaView {
            struct_name: self.struct_name@,
            references: names_view(self.references@),
            fields: fields_view(self.fields@),
            methods: names_view(self.methods@),
        }
    }
}

/// The number of bytes that `text` takes in UTF-8.
pub open spec fn byte_len(text: Seq<char>) -> nat {
    encode_utf8(text).len()
}

/// Whether each name of `names` takes at most `limit` bytes.
pub open spec fn names_within(names: Seq<Seq<char>>, limit: nat) -> bool {
    forall|i: int| 0 <= i < names.len() ==> byte_len(#[trigger] names[i]) <= limit
}

/// Whether the name of each field takes at most `limit` bytes.
pub open spec fn field_names_within(fields: Seq<FieldView>, limit: nat) -> bool {
    forall|i: int| 0 <= i < fields.len() ==> byte_len((#[trigger] fields[i]).name) <= limit
}

/// The number of fields that are marked as the identity of the record.
pub open spec fn oid_count(fields: Seq<FieldView>) -> nat
    decreases fields.len(),
{
    if fields.len() == 0 {
        0
    } else {
        oid_count(fields.drop_last()) + if fields.last().is_oid {
            1nat
        } else {
            0nat
        }
    }
}

impl TableSchemaView {
    /// Whether every name fits its place in a table header: the table name and the
    /// reference names their fixed width, the field and method names a one-byte
    /// length prefix.
    pub open spec fn names_fit(self) -> bool {
        &&& byte_len(self.struct_name) <= NAME_WIDTH
        &&& names_within(self.references, NAME_WIDTH as nat)
        &&& field_names_within(self.fields, MAX_PREFIXED_LEN as nat)
        &&& names_within(self.methods, MAX_PREFIXED_LEN as nat)
    }

    /// Whether the schema is valid: the names fit, the references can be counted in
    /// one byte, and exactly one field is the identity of the record.
    pub open spec fn valid(self) -> bool {
        &&& self.names_fit()
        &&& self.references.len() <= MAX_REFERENCES
        &&& oid_count(self.fields) == 1
    }

    /// What keeps the schema from being valid, if anything does.
    pub open spec fn defect(self) -> Option<SchemaError> {
        if !self.names_fit() {
            Some(SchemaError::NameTooLong)
        } else if self.references.len() > MAX_REFERENCES {
            Some(SchemaError::CapacityExceeded)
        } else if oid_count(self.fields) != 1 {
            Some(SchemaError::OidCount)
        } else {
            None
        }
    }
}

/// The number of bytes that `text` takes in UTF-8.
pub fn byte_length(text: &str) -> (len: usize)
    ensures
        len == byte_len(text@),
{
    text.as_bytes().len()
}

/// Whether each of `names` takes at most `limit` bytes.
pub fn names_fit_within(names: &Vec<String>, limit: usize) -> (fit: bool)
    ensures
        fit == names_within(names_view(names@), limit as nat),
{
    let mut at: usize = 0;
    while at < names.len()
        invariant
            at <= names@.len(),
            names_within(names_view(names@).take(at as int), limit as nat),
        decreases names@.len() - at,
    {
        if byte_length(names[at].as_str()) > limit {
            assert(byte_len(names_view(names@)[at as int]) > limit);
            return false;
        }
        proof {
            let all = names_view(names@);
            assert forall|i: int| 0 <= i < at + 1 implies byte_len(
                #[trigger] all.take(at + 1)[i],
            ) <= limit by {
                if i < at {
                    assert(all.take(at + 1)[i] == all.take(at as int)[i]);
                }
            }
        }
        at = at + 1;
    }
    assert(names_view(names@).take(at as int) =~= names_view(names@));
    true
}

/// Whether the name of each of `fields` takes at most `limit` bytes.
pub fn field_names_fit_within(fields: &Vec<Field>, limit: usize) -> (fit: bool)
    ensures
        fit == field_names_within(fields_view(fields@), limit as nat),
{
    let mut at: usize = 0;
    while at < fields.len()
        invariant
            at <= fields@.len(),
            field_names_within(fields_view(fields@).take(at as int), limit as nat),
        decreases fields@.len() - at,
    {
        if byte_length(fields[at].name.as_str()) > limit {
            assert(byte_len(fields_view(fields@)[at as int].name) > limit);
            return false;
        }
        proof {
            let all = fields_view(fields@);
            assert forall|i: int| 0 <= i < at + 1 implies byte_len(
                (#[trigger] all.take(at + 1)[i]).name,
            ) <= limit by {
                if i < at {
                    assert(all.take(at + 1)[i] == all.take(at as int)[i]);
                }
            }
        }
        at = at + 1;
    }
    assert(fields_view(fields@).take(at as int) =~= fields_view(fields@));
    true
}

/// Whether exactly one of `fields` is marked as the identity of the record.
pub fn has_one_oid(fields: &Vec<Field>) -> (one: bool)
    ensures
        one == (oid_count(fields_view(fields@)) == 1),
{
    let mut seen: usize = 0;
    let mut at: usize = 0;
    while at < fields.len()
        invariant
            at <= fields@.len(),
            seen <= at,
            seen == oid_count(fields_view(fields@).take(at as int)),
        decreases fields@.len() - at,
    {
        proof {
            let all = fields_view(fields@);
            assert(all.take(at + 1).drop_last() =~= all.take(at as int));
        }
        if fields[at].is_OID {
            seen = seen + 1;
        }
        at = at + 1;
    }
    assert(fields_view(fields@).take(at as int) =~= fields_view(fields@));
    seen == 1
}

impl TableSchema {
    /// A schema with the given table name and nothing else.
    pub fn new(struct_name: String) -> (schema: TableSchema)
        ensures
            schema@ == (TableSchemaView {
                struct_name: struct_name@,
                references: Seq::empty(),
                fields: Seq::empty(),
                methods: Seq::empty(),
            }),
    {
        let schema = TableSchema {
            struct_name,
            references: Vec::new(),
            fields: Vec::new(),
            methods: Vec::new(),
        };
        assert(schema@.references =~= Seq::empty());
        assert(schema@.fields =~= Seq::empty());
        assert(schema@.methods =~= Seq::empty());
        schema
    }

    /// The schema with one more field, after those it has.
    pub fn field(self, field: Field) -> (schema: TableSchema)
        ensures
            schema@ == (TableSchemaView { fields: self@.fields.push(field@), ..self@ }),
    {
        let mut schema = self;
        schema.fields.push(field);
        assert(schema@.fields =~= self@.fields.push(field@));
        schema
    }

    /// The schema with one more referenced table, after those it has.
    pub fn reference(self, table: String) -> (schema: TableSchema)
        ensures
            schema@ == (TableSchemaView { references: self@.references.push(table@), ..self@ }),
    {
        let mut schema = self;
        schema.references.push(table);
        assert(schema@.references =~= self@.references.push(table@));
        schema
    }

    /// The schema with one more method name, after those it has.
    pub fn method(self, name: String) -> (schema: TableSchema)
        ensures
            schema@ == (TableSchemaView { methods: self@.methods.push(name@), ..self@ }),
    {
        let mut schema = self;
        schema.methods.push(name);
        assert(schema@.methods =~= self@.methods.push(name@));
        schema
    }
}

/// Whether every name of a schema fits its place in a table header.
pub fn names_fit(schema: &TableSchema) -> (fit: bool)
    ensures
        fit == schema@.names_fit(),
{
    byte_length(schema.struct_name.as_str()) <= NAME_WIDTH && names_fit_within(
        &schema.references,
        NAME_WIDTH,
    ) && field_names_fit_within(&schema.fields, MAX_PREFIXED_LEN) && names_fit_within(
        &schema.methods,
        MAX_PREFIXED_LEN,
    )
}

/// Checks that a schema is valid.
///
/// Fails with `NameTooLong` where a name does not fit its place, else with
/// `CapacityExceeded` where there are more than 255 references, else with
/// `OidCount` where the number of identity fields is not one.
pub fn validate(schema: &TableSchema) -> (result: Result<(), SchemaError>)
    ensures
        result is Ok <==> schema@.valid(),
        result matches Err(e) ==> schema@.defect() == Some(e),
{
    if !names_fit(schema) {
        Err(SchemaError::NameTooLong)
    } else if schema.references.len() > MAX_REFERENCES {
        Err(SchemaError::CapacityExceeded)
    } else if !has_one_oid(&schema.fields) {
        Err(SchemaError::OidCount)
    } else {
        Ok(())
    }
}

} // verus!
