use vstd::prelude::*;

use crate::column::Column;
use crate::function::Order;
use crate::table::Table;
use crate::tree::ConditionTree;
use crate::values::DatabaseValue;

verus! {

/// A `SELECT` statement: a source table, a projection list (the whole table
/// when empty), an optional filter tree, an ordering, and optional limit and
/// offset. Every builder method consumes the receiver and returns the
/// extended copy; nothing is mutated in place after construction.
#[derive(Debug, PartialEq)]
pub struct Select {
    pub table: Table,
    pub columns: Vec<DatabaseValue>,
    pub conditions: Option<ConditionTree>,
    pub ordering: Vec<(DatabaseValue, Option<Order>)>,
    pub limit: Option<u32>,
    pub offset: Option<u32>,
}

impl Select {
    /// Create a `SELECT` from the given table, projecting the whole table
    /// until columns are added.
    pub fn from_table(table: Table) -> (r: Select)
        ensures
            r.table == table,
            r.columns@ == Seq::<DatabaseValue>::empty(),
            r.conditions is None,
            r.ordering@ == Seq::<(DatabaseValue, Option<Order>)>::empty(),
            r.limit is None,
            r.offset is None,
    {
        Select {
            table,
            columns: Vec::new(),
            conditions: None,
            ordering: Vec::new(),
            limit: None,
            offset: None,
        }
    }

    /// Add a column to the projection list.
    pub fn column(self, column: Column) -> (r: Select)
        ensures
            r.columns@ == self.columns@.push(DatabaseValue::Column(column)),
            r.table == self.table,
            r.conditions == self.conditions,
            r.ordering == self.ordering,
            r.limit == self.limit,
            r.offset == self.offset,
    {
        let mut s = self;
        s.columns.push(DatabaseValue::Column(column));
        s
    }

    /// Add any value to the projection list.
    pub fn value(self, value: DatabaseValue) -> (r: Select)
        ensures
            r.columns@ == self.columns@.push(value),
            r.table == self.table,
            r.conditions == self.conditions,
            r.ordering == self.ordering,
            r.limit == self.limit,
            r.offset == self.offset,
    {
        let mut s = self;
        s.columns.push(value);
        s
    }

    /// Set the filter tree of the `WHERE` clause, replacing an earlier one.
    pub fn so_that(self, conditions: ConditionTree) -> (r: Select)
        ensures
            r.conditions == Some(conditions),
            r.table == self.table,
            r.columns == self.columns,
            r.ordering == self.ordering,
            r.limit == self.limit,
            r.offset == self.offset,
    {
        Select { conditions: Some(conditions), ..self }
    }

    /// Add an ordering term, with `None` for the engine's default direction.
    pub fn order_by(self, value: DatabaseValue, direction: Option<Order>) -> (r: Select)
        ensures
            r.ordering@ == self.ordering@.push((value, direction)),
            r.table == self.table,
            r.columns == self.columns,
            r.conditions == self.conditions,
            r.limit == self.limit,
            r.offset == self.offset,
    {
        let mut s = self;
        s.ordering.push((value, direction));
        s
    }

    /// Limit the number of returned rows.
    pub fn limit(self, limit: u32) -> (r: Select)
        ensures
            r.limit == Some(limit),
            r.table == self.table,
            r.columns == self.columns,
            r.conditions == self.conditions,
            r.ordering == self.ordering,
            r.offset == self.offset,
    {
        Select { limit: Some(limit), ..self }
    }

    /// Skip the given number of rows.
    pub fn offset(self, offset: u32) -> (r: Select)
        ensures
            r.offset == Some(offset),
            r.table == self.table,
            r.columns == self.columns,
            r.conditions == self.conditions,
            r.ordering == self.ordering,
            r.limit == self.limit,
    {
        Select { offset: Some(offset), ..self }
    }
}

} // verus!
