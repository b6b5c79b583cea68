use vstd::prelude::*;

verus! {

/// A table reference: a name, optionally qualified by a database and
/// optionally carrying an alias for the query.
#[derive(Clone, Debug, PartialEq)]
pub struct Table {
    pub name: String,
    pub database: Option<String>,
    pub alias: Option<String>,
}

impl Table {
    /// Create a table reference from its name alone.
    pub fn new(name: &str) -> (r: Table)
        ensures
            r.name@ == name@,
            r.database is None,
            r.alias is None,
    {
        Table { name: name.to_owned(), database: None, alias: None }
    }

    /// Qualify the table with the database it lives in.
    pub fn database(self, database: &str) -> (r: Table)
        ensures
            r.name == self.name,
            r.alias == self.alias,
            r.database matches Some(d) && d@ == database@,
    {
        Table { database: Some(database.to_owned()), ..self }
    }

    /// Give the table an alias in the query.
    pub fn alias(self, alias: &str) -> (r: Table)
        ensures
            r.name == self.name,
            r.database == self.database,
            r.alias matches Some(a) && a@ == alias@,
    {
        Table { alias: Some(alias.to_owned()), ..self }
    }
}

} // verus!
