use vstd::prelude::*;

use crate::table::Table;

verus! {

/// A column definition: a name, optionally qualified by a table and
/// optionally carrying an alias for the projection list.
#[derive(Clone, Debug, PartialEq)]
pub struct Column {
    pub name: String,
    pub table: Option<Table>,
    pub alias: Option<String>,
}

impl Column {
    /// Create a column definition from its name alone.
    pub fn new(name: &str) -> (r: Column)
        ensures
            r.name@ == name@,
            r.table is None,
            r.alias is None,
    {
        Column { name: name.to_owned(), table: None, alias: None }
    }

    /// Include the table in the column expression.
    pub fn table(self, table: Table) -> (r: Column)
        ensures
            r.name == self.name,
            r.alias == self.alias,
            r.table == Some(table),
    {
        Column { table: Some(table), ..self }
    }

    /// Include the table in the column expression, if one is given.
    pub fn opt_table(self, table: Option<Table>) -> (r: Column)
        ensures
            r.name == self.name,
            r.alias == self.alias,
            table matches Some(t) ==> r.table == Some(t),
            table is None ==> r.table == self.table,
    {
        match table {
            Some(table) => Column { table: Some(table), ..self },
            None => self,
        }
    }

    /// Give the column an alias in the query.
    pub fn alias(self, alias: &str) -> (r: Column)
        ensures
            r.name == self.name,
            r.table == self.table,
            r.alias matches Some(a) && a@ == alias@,
    {
        Column { alias: Some(alias.to_owned()), ..self }
    }
}

impl From<String> for Column {
    fn from(name: String) -> (r: Column) {
        Column { name, table: None, alias: None }
    }
}

impl vstd::std_specs::convert::FromSpecImpl<String> for Column {
    open spec fn obeys_from_spec() -> bool {
        true
    }

    open spec fn from_spec(name: String) -> Column {
        Column { name, table: None, alias: None }
    }
}

impl From<(Table, Column)> for Column {
    fn from(pair: (Table, Column)) -> (r: Column) {
        let (table, column) = pair;
        Column { table: Some(table), ..column }
    }
}

impl vstd::std_specs::convert::FromSpecImpl<(Table, Column)> for Column {
    open spec fn obeys_from_spec() -> bool {
        true
    }

    open spec fn from_spec(pair: (Table, Column)) -> Column {
        Column { name: pair.1.name, table: Some(pair.0), alias: pair.1.alias }
    }
}

} // verus!
