//! A typed intermediate representation for SQL queries, together with a
//! dialect renderer that compiles a query tree into parameterized SQL text
//! paired with an ordered list of bound values.
//!
//! Application code composes [`column::Column`], [`compare::Compare`] and
//! [`tree::ConditionTree`] values into a [`select::Select`] builder and hands
//! it to [`visitor::Sqlite`], which returns `(text, parameters)`. Identifiers
//! are quoted, never parameterized; values always go through placeholders.

pub mod column;
pub mod compare;
pub mod error;
pub mod function;
pub mod id;
pub mod laws;
pub mod select;
pub mod strutil;
pub mod table;
pub mod tree;
pub mod values;
pub mod visitor;
