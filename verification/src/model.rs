//! The schema model: columns, data types and tables.

use vstd::prelude::*;

verus! {

/// A SQL data type for a column.  `Varchar` carries its declared size.
#[derive(Clone, Copy, Debug, PartialEq, Eq, Structural)]
pub enum DataType {
    Integer,
    Varchar(usize),
    Boolean,
    Float,
}

/// A column of a database table.
#[derive(Clone, Debug)]
pub struct Column {
    pub name: String,
    pub data_type: DataType,
    pub is_primary_key: bool,
}

/// A database table: a name and an ordered sequence of columns.
#[derive(Clone, Debug)]
pub struct Table {
    pub name: String,
    pub columns: Vec<Column>,
}

impl Column {
    /// A column is well formed when its name is non-empty.
    pub open spec fn wf(self) -> bool {
        self.name@.len() > 0
    }
}

impl Table {
    /// A table is well formed when its name and all column names are non-empty.
    pub open spec fn wf(self) -> bool {
        &&& self.name@.len() > 0
        &&& forall|i: int| 0 <= i < self.columns@.len() ==> (#[trigger] self.columns@[i]).wf()
    }
}

impl Default for Table {
    /// An empty table with an empty name.
    fn default() -> (r: Self)
        ensures
            r.name@.len() == 0,
            r.columns@.len() == 0,
    {
        Table { name: String::new(), columns: Vec::new() }
    }
}

/// An entity that can describe its own table schema.
pub trait Model {
    fn table() -> Table;
}

} // verus!
