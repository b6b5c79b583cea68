use vstd::prelude::*;

use crate::column::Column;
use crate::values::DatabaseValue;

verus! {

/// The direction of one ordering term.
#[derive(Clone, Debug, PartialEq)]
pub enum Order {
    Ascending,
    Descending,
}

/// The window of a window function: how the rows are partitioned and how
/// each partition is ordered. Both lists may be empty; an empty window still
/// renders as `OVER()`.
#[derive(Clone, Debug, PartialEq)]
pub struct Over {
    pub partitioning: Vec<Column>,
    pub ordering: Vec<(Column, Option<Order>)>,
}

/// A number from 1 to n for every row, in the specified order.
#[derive(Clone, Debug, PartialEq)]
pub struct RowNumber {
    pub over: Over,
}

impl RowNumber {
    /// Define the order of the row number. Is the row order if not set.
    pub fn order_by(self, value: Column) -> (r: RowNumber)
        ensures
            r.over.partitioning == self.over.partitioning,
            r.over.ordering@ == self.over.ordering@.push((value, None::<Order>)),
    {
        let mut rn = self;
        rn.over.ordering.push((value, None));
        rn
    }

    /// Define the partitioning of the row number.
    pub fn partition_by(self, partition: Column) -> (r: RowNumber)
        ensures
            r.over.ordering == self.over.ordering,
            r.over.partitioning@ == self.over.partitioning@.push(partition),
    {
        let mut rn = self;
        rn.over.partitioning.push(partition);
        rn
    }
}

/// Create a row number window function with an empty window.
pub fn row_number() -> (r: RowNumber)
    ensures
        r.over.partitioning@ == Seq::<Column>::empty(),
        r.over.ordering@ == Seq::<(Column, Option<Order>)>::empty(),
{
    RowNumber { over: Over { partitioning: Vec::new(), ordering: Vec::new() } }
}

/// The catalog of functions the renderer knows.
#[derive(Debug, PartialEq)]
pub enum FunctionType {
    /// `ROW_NUMBER() OVER(...)`
    RowNumber(RowNumber),
    /// `COUNT(...)`
    Count(Vec<DatabaseValue>),
}

/// A function call, optionally aliased in the projection list.
#[derive(Debug, PartialEq)]
pub struct Function {
    pub typ: FunctionType,
    pub alias: Option<String>,
}

impl Function {
    /// Wrap a row number window function into a function call.
    pub fn row_number(row_number: RowNumber) -> (r: Function)
        ensures
            r.typ == FunctionType::RowNumber(row_number),
            r.alias is None,
    {
        Function { typ: FunctionType::RowNumber(row_number), alias: None }
    }

    /// A `COUNT` over the given arguments.
    pub fn count(args: Vec<DatabaseValue>) -> (r: Function)
        ensures
            r.typ == FunctionType::Count(args),
            r.alias is None,
    {
        Function { typ: FunctionType::Count(args), alias: None }
    }

    /// Give the function call an alias in the projection list.
    pub fn alias(self, alias: &str) -> (r: Function)
        ensures
            r.typ == self.typ,
            r.alias matches Some(a) && a@ == alias@,
    {
        Function { alias: Some(alias.to_owned()), ..self }
    }
}

} // verus!
