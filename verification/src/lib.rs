//! A small schema mapper and SQL statement builder.
//!
//! An entity's field list is turned into a [`Table`] descriptor by
//! [`derive_table`]; four fluent builders ([`SelectQuery`], [`InsertQuery`],
//! [`UpdateQuery`], [`DeleteQuery`]) render SQL text from such a descriptor,
//! an [`EagerLoader`] appends inner-join clauses to a select, and
//! [`MigrationGenerator`] emits a CREATE/DROP statement pair.  Every rendering
//! and parsing function carries a contract that pins its output down exactly.

pub mod derivation;
pub mod eager_loading;
pub mod grammar;
pub mod migration;
pub mod model;
pub mod query_builder;
pub mod text;

pub use derivation::{derive_table, DerivationError, EntityDescriptor, FieldDescriptor};
pub use eager_loading::{EagerLoader, Relationship};
pub use grammar::{default_type_for, parse_declared_type, TypeGrammarError};
pub use migration::{map_data_type_to_sql, Migration, MigrationGenerator};
pub use model::{Column, DataType, Model, Table};
pub use query_builder::{DeleteQuery, InsertQuery, SelectQuery, UpdateQuery};
