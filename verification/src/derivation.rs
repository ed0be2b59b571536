//! Schema derivation: turning an entity's field descriptors into a
//! [`Table`] value.

use vstd::prelude::*;
use vstd::string::StringExecFns;

use crate::grammar::{
    default_type_for, error_matches, parse_declared_type, spec_default_type, spec_parse_declared,
    TypeGrammarError,
};
use crate::model::{Column, DataType, Table};
use crate::text::{ascii_lower, spec_ascii_lower, str_eq};

verus! {

/// One field of an entity: its name, its native type name, an optional
/// declared-type override, and an optional primary-key flag (a string that
/// is parsed leniently: only `"true"` marks the column as primary key).
#[derive(Clone, Debug)]
pub struct FieldDescriptor {
    pub name: String,
    pub native_type: String,
    pub declared_type: Option<String>,
    pub primary_key: Option<String>,
}

/// An entity to derive a table for: its name, an optional explicit table
/// name, and its fields in declaration order.
#[derive(Clone, Debug)]
pub struct EntityDescriptor {
    pub name: String,
    pub table_name: Option<String>,
    pub fields: Vec<FieldDescriptor>,
}

/// A failure to derive a table: a field carried a malformed declared type.
#[derive(Clone, Debug, PartialEq, Eq)]
pub enum DerivationError {
    InvalidFieldType { field: String, error: TypeGrammarError },
}

/// Whether the field's primary-key flag reads as true.  Lenient: exactly the
/// text `"true"` counts, anything else (or no flag) defaults to false.
pub open spec fn spec_is_primary(flag: Option<String>) -> bool {
    match flag {
        Some(s) => s@ == "true"@,
        None => false,
    }
}

/// The data type a field gets: its declared type if one is given (`None`
/// when that text is malformed), else the default for its native type.
pub open spec fn spec_field_type(f: FieldDescriptor) -> Option<DataType> {
    match f.declared_type {
        Some(t) => spec_parse_declared(t@),
        None => Some(spec_default_type(f.native_type@)),
    }
}

/// Whether every field of the list carries a well-formed type.
pub open spec fn fields_ok(fields: Seq<FieldDescriptor>) -> bool {
    forall|i: int| 0 <= i < fields.len() ==> (#[trigger] spec_field_type(fields[i])) is Some
}

/// The name the derived table gets: the explicit override if one is given,
/// else the entity's name lower-cased.
pub open spec fn spec_table_name(e: EntityDescriptor) -> Seq<char> {
    match e.table_name {
        Some(t) => t@,
        None => spec_ascii_lower(e.name@),
    }
}

/// Whether `c` is the column that field `f` derives to.
pub open spec fn column_matches_field(c: Column, f: FieldDescriptor) -> bool {
    &&& c.name@ == f.name@
    &&& Some(c.data_type) == spec_field_type(f)
    &&& c.is_primary_key == spec_is_primary(f.primary_key)
}

/// Derives a [`Table`] from an entity descriptor.
///
/// Each field, in declaration order, becomes one column: its type comes from
/// its declared-type string when present (propagating the grammar error of
/// the first malformed one), else from the default mapping, which never
/// fails.  The primary-key flag is parsed leniently and defaults to false.
pub fn derive_table(entity: &EntityDescriptor) -> (r: Result<Table, DerivationError>)
    ensures
        match r {
            Ok(t) => {
                &&& fields_ok(entity.fields@)
                &&& t.name@ == spec_table_name(*entity)
                &&& t.columns@.len() == entity.fields@.len()
                &&& forall|i: int|
                    0 <= i < entity.fields@.len() ==> column_matches_field(
                        #[trigger] t.columns@[i],
                        entity.fields@[i],
                    )
            },
            Err(e) => {
                &&& !fields_ok(entity.fields@)
                &&& match e {
                    DerivationError::InvalidFieldType { field, error } => exists|i: int|
                        {
                            &&& 0 <= i < entity.fields@.len()
                            &&& (forall|j: int|
                                0 <= j < i ==> (#[trigger] spec_field_type(
                                    entity.fields@[j],
                                )) is Some)
                            &&& spec_field_type(#[trigger] entity.fields@[i]) is None
                            &&& field@ == entity.fields@[i].name@
                            &&& entity.fields@[i].declared_type is Some
                            &&& match entity.fields@[i].declared_type {
                                Some(t) => error_matches(error, t@),
                                None => false,
                            }
                        },
                }
            },
        },
{
    let name: String = match &entity.table_name {
        Some(t) => t.clone(),
        None => ascii_lower(entity.name.as_str()),
    };
    let mut columns: Vec<Column> = Vec::new();
    let mut i: usize = 0;
    while i < entity.fields.len()
        invariant
            i <= entity.fields@.len(),
            columns@.len() == i,
            forall|j: int| 0 <= j < i ==> (#[trigger] spec_field_type(entity.fields@[j])) is Some,
            forall|j: int|
                0 <= j < i ==> column_matches_field(
                    #[trigger] columns@[j],
                    entity.fields@[j],
                ),
        decreases entity.fields@.len() - i,
    {
        let f = &entity.fields[i];
        let data_type: DataType = match &f.declared_type {
            Some(txt) => match parse_declared_type(txt.as_str()) {
                Ok(dt) => dt,
                Err(error) => {
                    proof {
                        assert(spec_field_type(entity.fields@[i as int]) is None);
                        assert(!fields_ok(entity.fields@));
                    }
                    return Err(
                        DerivationError::InvalidFieldType { field: f.name.clone(), error },
                    );
                },
            },
            None => default_type_for(f.native_type.as_str()),
        };
        let is_primary_key: bool = match &f.primary_key {
            Some(flag) => str_eq(flag.as_str(), "true"),
            None => false,
        };
        columns.push(Column { name: f.name.clone(), data_type, is_primary_key });
        i = i + 1;
    }
    Ok(Table { name, columns })
}

/// A table derived from well-formed inputs is well formed: when the chosen
/// table name is non-empty (the explicit override, or the entity name that
/// lower-casing keeps the length of) and every field name is non-empty, the
/// derived table and all its columns have non-empty names.
pub proof fn lemma_derived_table_wf(entity: EntityDescriptor, t: Table)
    requires
        t.name@ == spec_table_name(entity),
        t.columns@.len() == entity.fields@.len(),
        forall|i: int|
            0 <= i < entity.fields@.len() ==> column_matches_field(
                #[trigger] t.columns@[i],
                entity.fields@[i],
            ),
        match entity.table_name {
            Some(n) => n@.len() > 0,
            None => entity.name@.len() > 0,
        },
        forall|i: int| 0 <= i < entity.fields@.len() ==> (#[trigger] entity.fields@[i]).name@.len()
            > 0,
    ensures
        t.wf(),
{
    match entity.table_name {
        Some(n) => {},
        None => {
            assert(spec_ascii_lower(entity.name@).len() == entity.name@.len());
        },
    }
    assert forall|i: int| 0 <= i < t.columns@.len() implies (#[trigger] t.columns@[i]).wf() by {
        assert(column_matches_field(t.columns@[i], entity.fields@[i]));
        assert(entity.fields@[i].name@.len() > 0);
    }
}

} // verus!
