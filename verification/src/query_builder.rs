//! The four fluent statement builders: SELECT, INSERT, UPDATE and DELETE.
//!
//! Each builder is constructed from a [`Table`], accumulates clause
//! fragments through chained calls, and renders its final SQL text exactly
//! once with `build`, which consumes it.  `build`'s contract equates the
//! rendered text with a spec-level rendering of the accumulated state, so
//! the output is a pure function of that state.

use vstd::prelude::*;
use vstd::string::StringExecFns;

use crate::model::Table;
use crate::text::{
    join_strings, spec_dec_digits, spec_join, str_views, strs_to_strings, usize_to_string, views,
};

verus! {

/// The view of an optional accumulated clause.
pub open spec fn opt_view(w: Option<String>) -> Option<Seq<char>> {
    match w {
        Some(c) => Some(c@),
        None => None,
    }
}

/// `prefix` followed by the clause, or nothing when no clause was set.
pub open spec fn spec_opt_clause(prefix: Seq<char>, w: Option<String>) -> Seq<char> {
    match w {
        Some(c) => prefix + c@,
        None => Seq::empty(),
    }
}

/// `prefix` followed by the number in decimal, or nothing when it was not
/// set.
pub open spec fn spec_opt_number(prefix: Seq<char>, n: Option<usize>) -> Seq<char> {
    match n {
        Some(v) => prefix + spec_dec_digits(v as nat),
        None => Seq::empty(),
    }
}

/// The join clauses, each preceded by a single space, in order.
pub open spec fn spec_joins_part(js: Seq<Seq<char>>) -> Seq<char>
    decreases js.len(),
{
    if js.len() == 0 {
        Seq::empty()
    } else {
        spec_joins_part(js.drop_last()) + " "@ + js.last()
    }
}

/// A SQL SELECT statement under construction.
#[derive(Debug)]
pub struct SelectQuery {
    pub table: Table,
    pub selected_columns: Vec<String>,
    pub where_clause: Option<String>,
    pub joins: Vec<String>,
    pub order_by: Vec<String>,
    pub limit: Option<usize>,
    pub offset: Option<usize>,
}

impl SelectQuery {
    /// The column list of the rendering: `*` when no columns were selected.
    pub open spec fn spec_columns_part(self) -> Seq<char> {
        if self.selected_columns@.len() == 0 {
            "*"@
        } else {
            spec_join(views(self.selected_columns@), ", "@)
        }
    }

    /// The ORDER BY section, or nothing when no ordering was set.
    pub open spec fn spec_order_part(self) -> Seq<char> {
        if self.order_by@.len() == 0 {
            Seq::empty()
        } else {
            " ORDER BY "@ + spec_join(views(self.order_by@), ", "@)
        }
    }

    /// The full rendering of the accumulated state:
    /// `SELECT <cols> FROM <table> [<joins>] [WHERE …] [ORDER BY …]
    /// [LIMIT n] [OFFSET n]`.
    pub open spec fn spec_build(self) -> Seq<char> {
        "SELECT "@ + self.spec_columns_part() + " FROM "@ + self.table.name@ + spec_joins_part(
            views(self.joins@),
        ) + spec_opt_clause(" WHERE "@, self.where_clause) + self.spec_order_part()
            + spec_opt_number(" LIMIT "@, self.limit) + spec_opt_number(" OFFSET "@, self.offset)
    }

    /// Starts an empty SELECT for the given table.
    pub fn new(table: Table) -> (r: Self)
        ensures
            r.table == table,
            r.selected_columns@.len() == 0,
            r.where_clause is None,
            r.joins@.len() == 0,
            r.order_by@.len() == 0,
            r.limit is None,
            r.offset is None,
    {
        SelectQuery {
            table,
            selected_columns: Vec::new(),
            where_clause: None,
            joins: Vec::new(),
            order_by: Vec::new(),
            limit: None,
            offset: None,
        }
    }

    /// Sets the columns to select, replacing any earlier selection.
    pub fn select(self, columns: &[&str]) -> (r: Self)
        ensures
            views(r.selected_columns@) == str_views(columns@),
            r == (SelectQuery { selected_columns: r.selected_columns, ..self }),
    {
        SelectQuery { selected_columns: strs_to_strings(columns), ..self }
    }

    /// Sets the WHERE condition; a later call replaces an earlier one.
    pub fn filter(self, condition: &str) -> (r: Self)
        ensures
            opt_view(r.where_clause) == Some(condition@),
            r == (SelectQuery { where_clause: r.where_clause, ..self }),
    {
        SelectQuery { where_clause: Some(String::from_str(condition)), ..self }
    }

    /// Sets the ORDER BY columns, replacing any earlier ordering.
    pub fn order_by(self, columns: &[&str]) -> (r: Self)
        ensures
            views(r.order_by@) == str_views(columns@),
            r == (SelectQuery { order_by: r.order_by, ..self }),
    {
        SelectQuery { order_by: strs_to_strings(columns), ..self }
    }

    /// Sets the LIMIT count.
    pub fn limit(self, limit: usize) -> (r: Self)
        ensures
            r == (SelectQuery { limit: Some(limit), ..self }),
    {
        SelectQuery { limit: Some(limit), ..self }
    }

    /// Sets the OFFSET count.
    pub fn offset(self, offset: usize) -> (r: Self)
        ensures
            r == (SelectQuery { offset: Some(offset), ..self }),
    {
        SelectQuery { offset: Some(offset), ..self }
    }

    /// Renders the final SQL text and consumes the builder.
    pub fn build(self) -> (r: String)
        ensures
            r@ == self.spec_build(),
    {
        let mut query = String::new();
        query.append("SELECT ");
        if self.selected_columns.len() == 0 {
            query.append("*");
        } else {
            let cols = join_strings(&self.selected_columns, ", ");
            query.append(cols.as_str());
        }
        query.append(" FROM ");
        query.append(self.table.name.as_str());
        let ghost pre_joins = query@;
        let mut k: usize = 0;
        while k < self.joins.len()
            invariant
                k <= self.joins@.len(),
                query@ == pre_joins + spec_joins_part(views(self.joins@).take(k as int)),
            decreases self.joins@.len() - k,
        {
            query.append(" ");
            query.append(self.joins[k].as_str());
            proof {
                let js = views(self.joins@);
                assert(js.take(k as int + 1).drop_last() =~= js.take(k as int));
                assert(query@ =~= pre_joins + spec_joins_part(js.take(k as int + 1)));
            }
            k = k + 1;
        }
        proof {
            assert(views(self.joins@).take(self.joins@.len() as int) =~= views(self.joins@));
        }
        match &self.where_clause {
            Some(condition) => {
                query.append(" WHERE ");
                query.append(condition.as_str());
            },
            None => {},
        }
        if self.order_by.len() > 0 {
            query.append(" ORDER BY ");
            let cols = join_strings(&self.order_by, ", ");
            query.append(cols.as_str());
        }
        match self.limit {
            Some(n) => {
                query.append(" LIMIT ");
                let t = usize_to_string(n);
                query.append(t.as_str());
            },
            None => {},
        }
        match self.offset {
            Some(n) => {
                query.append(" OFFSET ");
                let t = usize_to_string(n);
                query.append(t.as_str());
            },
            None => {},
        }
        proof {
            assert(query@ =~= self.spec_build());
        }
        query
    }
}

/// The views of a sequence of string pairs.
pub open spec fn pair_views(ps: Seq<(String, String)>) -> Seq<(Seq<char>, Seq<char>)> {
    ps.map_values(|p: (String, String)| (p.0@, p.1@))
}

/// The first components of a sequence of string pairs, as views.
pub open spec fn pair_firsts(ps: Seq<(String, String)>) -> Seq<Seq<char>> {
    ps.map_values(|p: (String, String)| p.0@)
}

/// The second components of a sequence of string pairs, each wrapped in
/// single quotes.
pub open spec fn quoted_seconds(ps: Seq<(String, String)>) -> Seq<Seq<char>> {
    ps.map_values(|p: (String, String)| "'"@ + p.1@ + "'"@)
}

/// The `column = 'value'` fragments of a sequence of string pairs.
pub open spec fn set_fragments(ps: Seq<(String, String)>) -> Seq<Seq<char>> {
    ps.map_values(|p: (String, String)| p.0@ + " = '"@ + p.1@ + "'"@)
}

/// A SQL INSERT statement under construction.
#[derive(Debug)]
pub struct InsertQuery {
    pub table: Table,
    pub values: Vec<(String, String)>,
}

impl InsertQuery {
    /// The full rendering of the accumulated state:
    /// `INSERT INTO <table> (<cols>) VALUES (<quoted values>)`.  Every value
    /// is wrapped in single quotes, with no escaping and no type awareness.
    pub open spec fn spec_build(self) -> Seq<char> {
        "INSERT INTO "@ + self.table.name@ + " ("@ + spec_join(pair_firsts(self.values@), ", "@)
            + ") VALUES ("@ + spec_join(quoted_seconds(self.values@), ", "@) + ")"@
    }

    /// Starts an empty INSERT for the given table.
    pub fn new(table: Table) -> (r: Self)
        ensures
            r.table == table,
            r.values@.len() == 0,
    {
        InsertQuery { table, values: Vec::new() }
    }

    /// Appends one column/value pair.  Pairs are kept in call order and are
    /// not deduplicated: a repeated column appears twice in the rendering.
    pub fn value(self, column: &str, value: &str) -> (r: Self)
        ensures
            r.table == self.table,
            r.values@.len() == self.values@.len() + 1,
            forall|j: int| 0 <= j < self.values@.len() ==> r.values@[j] == self.values@[j],
            r.values@.last().0@ == column@,
            r.values@.last().1@ == value@,
    {
        let mut r = self;
        r.values.push((String::from_str(column), String::from_str(value)));
        r
    }

    /// Renders the final SQL text and consumes the builder.
    pub fn build(self) -> (r: String)
        ensures
            r@ == self.spec_build(),
    {
        let mut cols: Vec<String> = Vec::new();
        let mut vals: Vec<String> = Vec::new();
        let mut i: usize = 0;
        while i < self.values.len()
            invariant
                i <= self.values@.len(),
                cols@.len() == i,
                vals@.len() == i,
                forall|j: int| 0 <= j < i ==> (#[trigger] cols@[j])@ == self.values@[j].0@,
                forall|j: int|
                    0 <= j < i ==> (#[trigger] vals@[j])@ == "'"@ + self.values@[j].1@ + "'"@,
            decreases self.values@.len() - i,
        {
            cols.push(self.values[i].0.clone());
            let mut quoted = String::from_str("'");
            quoted.append(self.values[i].1.as_str());
            quoted.append("'");
            vals.push(quoted);
            i = i + 1;
        }
        proof {
            assert(views(cols@) =~= pair_firsts(self.values@));
            assert(views(vals@) =~= quoted_seconds(self.values@));
        }
        let mut query = String::from_str("INSERT INTO ");
        query.append(self.table.name.as_str());
        query.append(" (");
        let col_list = join_strings(&cols, ", ");
        query.append(col_list.as_str());
        query.append(") VALUES (");
        let val_list = join_strings(&vals, ", ");
        query.append(val_list.as_str());
        query.append(")");
        proof {
            assert(query@ =~= self.spec_build());
        }
        query
    }
}

/// Equal accumulated state renders equal INSERT text.
pub proof fn lemma_insert_build_deterministic(a: InsertQuery, b: InsertQuery)
    requires
        a.table.name@ == b.table.name@,
        pair_views(a.values@) == pair_views(b.values@),
    ensures
        a.spec_build() == b.spec_build(),
{
    assert(a.values@.len() == pair_views(a.values@).len());
    assert(b.values@.len() == pair_views(b.values@).len());
    assert forall|j: int| 0 <= j < a.values@.len() implies a.values@[j].0@ == b.values@[j].0@
        && a.values@[j].1@ == b.values@[j].1@ by {
        assert(pair_views(a.values@)[j] == pair_views(b.values@)[j]);
        assert(pair_views(a.values@)[j].0 == a.values@[j].0@);
        assert(pair_views(b.values@)[j].0 == b.values@[j].0@);
        assert(pair_views(a.values@)[j].1 == a.values@[j].1@);
        assert(pair_views(b.values@)[j].1 == b.values@[j].1@);
    }
    assert(pair_firsts(a.values@) =~= pair_firsts(b.values@));
    assert(quoted_seconds(a.values@) =~= quoted_seconds(b.values@));
}

/// A SQL UPDATE statement under construction.
#[derive(Debug)]
pub struct UpdateQuery {
    pub table: Table,
    pub set_clauses: Vec<(String, String)>,
    pub where_clause: Option<String>,
}

impl UpdateQuery {
    /// The full rendering of the accumulated state:
    /// `UPDATE <table> SET <col> = '<val>', … [WHERE …]`.
    pub open spec fn spec_build(self) -> Seq<char> {
        "UPDATE "@ + self.table.name@ + " SET "@ + spec_join(
            set_fragments(self.set_clauses@),
            ", "@,
        ) + spec_opt_clause(" WHERE "@, self.where_clause)
    }

    /// Starts an empty UPDATE for the given table.
    pub fn new(table: Table) -> (r: Self)
        ensures
            r.table == table,
            r.set_clauses@.len() == 0,
            r.where_clause is None,
    {
        UpdateQuery { table, set_clauses: Vec::new(), where_clause: None }
    }

    /// Appends one SET pair, kept in call order.
    pub fn set(self, column: &str, value: &str) -> (r: Self)
        ensures
            r.table == self.table,
            r.where_clause == self.where_clause,
            r.set_clauses@.len() == self.set_clauses@.len() + 1,
            forall|j: int|
                0 <= j < self.set_clauses@.len() ==> r.set_clauses@[j] == self.set_clauses@[j],
            r.set_clauses@.last().0@ == column@,
            r.set_clauses@.last().1@ == value@,
    {
        let mut r = self;
        r.set_clauses.push((String::from_str(column), String::from_str(value)));
        r
    }

    /// Sets the WHERE condition; a later call replaces an earlier one.
    pub fn filter(self, condition: &str) -> (r: Self)
        ensures
            opt_view(r.where_clause) == Some(condition@),
            r == (UpdateQuery { where_clause: r.where_clause, ..self }),
    {
        UpdateQuery { where_clause: Some(String::from_str(condition)), ..self }
    }

    /// Renders the final SQL text and consumes the builder.
    pub fn build(self) -> (r: String)
        ensures
            r@ == self.spec_build(),
    {
        let mut frags: Vec<String> = Vec::new();
        let mut i: usize = 0;
        while i < self.set_clauses.len()
            invariant
                i <= self.set_clauses@.len(),
                frags@.len() == i,
                forall|j: int|
                    0 <= j < i ==> (#[trigger] frags@[j])@ == self.set_clauses@[j].0@ + " = '"@
                        + self.set_clauses@[j].1@ + "'"@,
            decreases self.set_clauses@.len() - i,
        {
            let mut frag = self.set_clauses[i].0.clone();
            frag.append(" = '");
            frag.append(self.set_clauses[i].1.as_str());
            frag.append("'");
            frags.push(frag);
            i = i + 1;
        }
        proof {
            assert(views(frags@) =~= set_fragments(self.set_clauses@));
        }
        let mut query = String::from_str("UPDATE ");
        query.append(self.table.name.as_str());
        query.append(" SET ");
        let set_list = join_strings(&frags, ", ");
        query.append(set_list.as_str());
        match &self.where_clause {
            Some(condition) => {
                query.append(" WHERE ");
                query.append(condition.as_str());
            },
            None => {},
        }
        proof {
            assert(query@ =~= self.spec_build());
        }
        query
    }
}

/// Equal accumulated state renders equal UPDATE text.
pub proof fn lemma_update_build_deterministic(a: UpdateQuery, b: UpdateQuery)
    requires
        a.table.name@ == b.table.name@,
        pair_views(a.set_clauses@) == pair_views(b.set_clauses@),
        opt_view(a.where_clause) == opt_view(b.where_clause),
    ensures
        a.spec_build() == b.spec_build(),
{
    assert(a.set_clauses@.len() == pair_views(a.set_clauses@).len());
    assert(b.set_clauses@.len() == pair_views(b.set_clauses@).len());
    assert forall|j: int| 0 <= j < a.set_clauses@.len() implies a.set_clauses@[j].0@
        == b.set_clauses@[j].0@ && a.set_clauses@[j].1@ == b.set_clauses@[j].1@ by {
        assert(pair_views(a.set_clauses@)[j] == pair_views(b.set_clauses@)[j]);
        assert(pair_views(a.set_clauses@)[j].0 == a.set_clauses@[j].0@);
        assert(pair_views(b.set_clauses@)[j].0 == b.set_clauses@[j].0@);
        assert(pair_views(a.set_clauses@)[j].1 == a.set_clauses@[j].1@);
        assert(pair_views(b.set_clauses@)[j].1 == b.set_clauses@[j].1@);
    }
    assert(set_fragments(a.set_clauses@) =~= set_fragments(b.set_clauses@));
    assert(spec_opt_clause(" WHERE "@, a.where_clause) == spec_opt_clause(
        " WHERE "@,
        b.where_clause,
    ));
}

/// A SQL DELETE statement under construction.
#[derive(Debug)]
pub struct DeleteQuery {
    pub table: Table,
    pub where_clause: Option<String>,
}

impl DeleteQuery {
    /// The full rendering of the accumulated state:
    /// `DELETE FROM <table> [WHERE …]`.
    pub open spec fn spec_build(self) -> Seq<char> {
        "DELETE FROM "@ + self.table.name@ + spec_opt_clause(" WHERE "@, self.where_clause)
    }

    /// Starts an empty DELETE for the given table.
    pub fn new(table: Table) -> (r: Self)
        ensures
            r.table == table,
            r.where_clause is None,
    {
        DeleteQuery { table, where_clause: None }
    }

    /// Sets the WHERE condition; a later call replaces an earlier one.
    pub fn filter(self, condition: &str) -> (r: Self)
        ensures
            opt_view(r.where_clause) == Some(condition@),
            r == (DeleteQuery { where_clause: r.where_clause, ..self }),
    {
        DeleteQuery { where_clause: Some(String::from_str(condition)), ..self }
    }

    /// Renders the final SQL text and consumes the builder.
    pub fn build(self) -> (r: String)
        ensures
            r@ == self.spec_build(),
    {
        let mut query = String::from_str("DELETE FROM ");
        query.append(self.table.name.as_str());
        match &self.where_clause {
            Some(condition) => {
                query.append(" WHERE ");
                query.append(condition.as_str());
            },
            None => {},
        }
        proof {
            assert(query@ =~= self.spec_build());
        }
        query
    }
}

/// Equal accumulated state renders equal DELETE text.
pub proof fn lemma_delete_build_deterministic(a: DeleteQuery, b: DeleteQuery)
    requires
        a.table.name@ == b.table.name@,
        opt_view(a.where_clause) == opt_view(b.where_clause),
    ensures
        a.spec_build() == b.spec_build(),
{
    assert(spec_opt_clause(" WHERE "@, a.where_clause) == spec_opt_clause(
        " WHERE "@,
        b.where_clause,
    ));
}

/// Equal accumulated state renders equal SELECT text: the rendering depends
/// on nothing but the views of the builder's fields.
pub proof fn lemma_select_build_deterministic(a: SelectQuery, b: SelectQuery)
    requires
        a.table.name@ == b.table.name@,
        views(a.selected_columns@) == views(b.selected_columns@),
        opt_view(a.where_clause) == opt_view(b.where_clause),
        views(a.joins@) == views(b.joins@),
        views(a.order_by@) == views(b.order_by@),
        a.limit == b.limit,
        a.offset == b.offset,
    ensures
        a.spec_build() == b.spec_build(),
{
    assert(a.selected_columns@.len() == views(a.selected_columns@).len());
    assert(a.order_by@.len() == views(a.order_by@).len());
    assert(spec_opt_clause(" WHERE "@, a.where_clause) == spec_opt_clause(
        " WHERE "@,
        b.where_clause,
    ));
}

} // verus!
