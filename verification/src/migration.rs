//! The migration generator: a CREATE/DROP statement pair derived from a
//! table descriptor.  Persisting a migration is left to the caller; nothing
//! here performs I/O.

use vstd::prelude::*;
use vstd::string::StringExecFns;

use crate::model::{Column, DataType, Table};
use crate::text::{join_strings, spec_dec_digits, spec_join, usize_to_string, views};

verus! {

/// A migration: one forward and one backward SQL statement.  Each generated
/// value is independent; there is no versioning and no diffing.
#[derive(Debug)]
pub struct Migration {
    pub up: String,
    pub down: String,
}

/// Generates [`Migration`] values from table descriptors.
#[derive(Debug)]
pub struct MigrationGenerator;

/// The SQL type name for a data type: `INTEGER`, `VARCHAR(<size>)`,
/// `BOOLEAN` or `FLOAT`.
pub open spec fn spec_sql_type(dt: DataType) -> Seq<char> {
    match dt {
        DataType::Integer => "INTEGER"@,
        DataType::Varchar(size) => "VARCHAR("@ + spec_dec_digits(size as nat) + ")"@,
        DataType::Boolean => "BOOLEAN"@,
        DataType::Float => "FLOAT"@,
    }
}

/// One column definition of a CREATE statement:
/// `<name> <SQL type>[ PRIMARY KEY]`.
pub open spec fn spec_column_def(c: Column) -> Seq<char> {
    c.name@ + " "@ + spec_sql_type(c.data_type) + (if c.is_primary_key {
        " PRIMARY KEY"@
    } else {
        Seq::empty()
    })
}

/// The column definitions of a table, in column order.
pub open spec fn column_defs(cs: Seq<Column>) -> Seq<Seq<char>> {
    cs.map_values(|c: Column| spec_column_def(c))
}

/// The forward statement: `CREATE TABLE <name> (<column defs>);`.
pub open spec fn spec_up(t: Table) -> Seq<char> {
    "CREATE TABLE "@ + t.name@ + " ("@ + spec_join(column_defs(t.columns@), ", "@) + ");"@
}

/// The backward statement: `DROP TABLE IF EXISTS <name>;`.
pub open spec fn spec_down(t: Table) -> Seq<char> {
    "DROP TABLE IF EXISTS "@ + t.name@ + ";"@
}

/// Maps a [`DataType`] to its SQL type name.
pub fn map_data_type_to_sql(data_type: &DataType) -> (r: String)
    ensures
        r@ == spec_sql_type(*data_type),
{
    match data_type {
        DataType::Integer => String::from_str("INTEGER"),
        DataType::Varchar(size) => {
            let mut r = String::from_str("VARCHAR(");
            let digits = usize_to_string(*size);
            r.append(digits.as_str());
            r.append(")");
            r
        },
        DataType::Boolean => String::from_str("BOOLEAN"),
        DataType::Float => String::from_str("FLOAT"),
    }
}

impl MigrationGenerator {
    /// Generates the CREATE/DROP pair for a table: the full create statement
    /// from the current schema, and an unconditional guarded drop.
    pub fn generate(table: &Table) -> (m: Migration)
        ensures
            m.up@ == spec_up(*table),
            m.down@ == spec_down(*table),
    {
        let mut defs: Vec<String> = Vec::new();
        let mut i: usize = 0;
        while i < table.columns.len()
            invariant
                i <= table.columns@.len(),
                defs@.len() == i,
                forall|j: int|
                    0 <= j < i ==> (#[trigger] defs@[j])@ == spec_column_def(table.columns@[j]),
            decreases table.columns@.len() - i,
        {
            let c = &table.columns[i];
            let mut def = c.name.clone();
            def.append(" ");
            let sql_type = map_data_type_to_sql(&c.data_type);
            def.append(sql_type.as_str());
            if c.is_primary_key {
                def.append(" PRIMARY KEY");
            }
            proof {
                assert(def@ =~= spec_column_def(table.columns@[i as int]));
            }
            defs.push(def);
            i = i + 1;
        }
        proof {
            assert(views(defs@) =~= column_defs(table.columns@));
        }
        let mut up = String::from_str("CREATE TABLE ");
        up.append(table.name.as_str());
        up.append(" (");
        let def_list = join_strings(&defs, ", ");
        up.append(def_list.as_str());
        up.append(");");
        let mut down = String::from_str("DROP TABLE IF EXISTS ");
        down.append(table.name.as_str());
        down.append(";");
        proof {
            assert(up@ =~= spec_up(*table));
            assert(down@ =~= spec_down(*table));
        }
        Migration { up, down }
    }
}

} // verus!
