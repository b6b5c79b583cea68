use vstd::prelude::*;

use crate::column::Column;
use crate::function::Function;
use crate::select::Select;

verus! {

/// A literal value bound into the query at execution time. Every
/// `ParameterizedValue` the renderer meets becomes one placeholder token in
/// the SQL text and one entry of the returned parameter list.
#[derive(Clone, Debug, PartialEq)]
pub enum ParameterizedValue {
    Null,
    Integer(i64),
    Text(String),
    Boolean(bool),
}

/// The mathematical model of a bound parameter: what the value is, with the
/// text as a sequence of characters and the integer unbounded.
pub enum ParamModel {
    Null,
    Integer(int),
    Text(Seq<char>),
    Boolean(bool),
}

/// The model of one parameter.
pub open spec fn param_model(p: ParameterizedValue) -> ParamModel {
    match p {
        ParameterizedValue::Null => ParamModel::Null,
        ParameterizedValue::Integer(i) => ParamModel::Integer(i as int),
        ParameterizedValue::Text(s) => ParamModel::Text(s@),
        ParameterizedValue::Boolean(b) => ParamModel::Boolean(b),
    }
}

/// The model of a parameter list, in order.
pub open spec fn params_model(s: Seq<ParameterizedValue>) -> Seq<ParamModel> {
    s.map_values(|p: ParameterizedValue| param_model(p))
}

/// Any node that can stand where the grammar expects a value: a bound
/// literal, a column reference, a parenthesized list of values, a nested
/// query, or a function call.
#[derive(Debug, PartialEq)]
pub enum DatabaseValue {
    /// A literal, rendered as a placeholder and appended to the parameters.
    Parameterized(ParameterizedValue),
    /// A column reference, rendered as a quoted identifier.
    Column(Column),
    /// A parenthesized, comma-separated list of values.
    Row(Vec<DatabaseValue>),
    /// A nested query, rendered in parentheses with its parameters spliced
    /// in place.
    Select(Box<Select>),
    /// A function call.
    Function(Function),
}

impl From<Column> for DatabaseValue {
    fn from(col: Column) -> (r: DatabaseValue) {
        DatabaseValue::Column(col)
    }
}

impl vstd::std_specs::convert::FromSpecImpl<Column> for DatabaseValue {
    open spec fn obeys_from_spec() -> bool {
        true
    }

    open spec fn from_spec(col: Column) -> DatabaseValue {
        DatabaseValue::Column(col)
    }
}

} // verus!
