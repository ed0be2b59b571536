//! Eager loading: appending inner-join clauses for declared relationships
//! onto a SELECT builder.

use vstd::prelude::*;
use vstd::string::StringExecFns;

use crate::model::Table;
use crate::query_builder::SelectQuery;
use crate::text::views;

verus! {

/// The join clause appended for one relationship:
/// `INNER JOIN <related> ON <base>.<foreign key> = <related>.<related key>`.
pub open spec fn spec_join_clause(
    base: Seq<char>,
    related: Seq<char>,
    foreign_key: Seq<char>,
    related_key: Seq<char>,
) -> Seq<char> {
    "INNER JOIN "@ + related + " ON "@ + base + "."@ + foreign_key + " = "@ + related + "."@
        + related_key
}

/// A relationship from a base entity to one related entity: the related
/// entity's table, the foreign-key column on the base table, and the key
/// column on the related table.  Implemented by library users; what the
/// eager loader proves about a relationship holds for an implementation
/// insofar as its methods meet their contracts.
pub trait Relationship {
    /// The related entity's table, at the specification level.
    spec fn spec_related_table() -> Table;

    /// The foreign-key column name, at the specification level.
    spec fn spec_foreign_key() -> Seq<char>;

    /// The related-key column name, at the specification level.
    spec fn spec_related_key() -> Seq<char>;

    /// The related entity's table.
    fn related_table() -> (t: Table)
        ensures
            t == Self::spec_related_table(),
    ;

    /// The foreign-key column on the base table.
    fn foreign_key() -> (k: String)
        ensures
            k@ == Self::spec_foreign_key(),
    ;

    /// The key column on the related table.
    fn related_key() -> (k: String)
        ensures
            k@ == Self::spec_related_key(),
    ;
}

/// Wraps a SELECT builder and appends one inner-join clause per declared
/// relationship, in call order.
#[derive(Debug)]
pub struct EagerLoader {
    pub base_query: SelectQuery,
}

impl EagerLoader {
    /// Wraps the given SELECT builder.
    pub fn new(base_query: SelectQuery) -> (r: Self)
        ensures
            r.base_query == base_query,
    {
        EagerLoader { base_query }
    }

    /// Appends the inner-join clause for one relationship given as plain
    /// values: the related table, the foreign-key column on the base table,
    /// and the key column on the related table.
    pub fn with_join(self, related_table: &Table, foreign_key: &str, related_key: &str) -> (r: Self)
        ensures
            views(r.base_query.joins@) == views(self.base_query.joins@).push(
                spec_join_clause(
                    self.base_query.table.name@,
                    related_table.name@,
                    foreign_key@,
                    related_key@,
                ),
            ),
            r.base_query == (SelectQuery { joins: r.base_query.joins, ..self.base_query }),
    {
        let mut q = self.base_query;
        let mut clause = String::from_str("INNER JOIN ");
        clause.append(related_table.name.as_str());
        clause.append(" ON ");
        clause.append(q.table.name.as_str());
        clause.append(".");
        clause.append(foreign_key);
        clause.append(" = ");
        clause.append(related_table.name.as_str());
        clause.append(".");
        clause.append(related_key);
        let ghost prev = q.joins@;
        q.joins.push(clause);
        proof {
            assert(views(q.joins@) =~= views(prev).push(
                spec_join_clause(
                    self.base_query.table.name@,
                    related_table.name@,
                    foreign_key@,
                    related_key@,
                ),
            ));
        }
        EagerLoader { base_query: q }
    }

    /// Appends the inner-join clause for the declared relationship `R`.
    pub fn with<R: Relationship>(self) -> (r: Self)
        ensures
            views(r.base_query.joins@) == views(self.base_query.joins@).push(
                spec_join_clause(
                    self.base_query.table.name@,
                    R::spec_related_table().name@,
                    R::spec_foreign_key(),
                    R::spec_related_key(),
                ),
            ),
            r.base_query == (SelectQuery { joins: r.base_query.joins, ..self.base_query }),
    {
        let related = R::related_table();
        let foreign_key = R::foreign_key();
        let related_key = R::related_key();
        self.with_join(&related, foreign_key.as_str(), related_key.as_str())
    }

    /// Renders the wrapped SELECT builder, joins included.
    pub fn build(self) -> (r: String)
        ensures
            r@ == self.base_query.spec_build(),
    {
        self.base_query.build()
    }
}

} // verus!
