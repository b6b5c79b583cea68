use vstd::prelude::*;

use crate::compare::Compare;
use crate::values::DatabaseValue;

verus! {

/// A recursive boolean structure combining expressions into a filter.
///
/// An empty `And` is the universally true condition and an empty `Or` the
/// universally false one; both render without emitting a placeholder.
#[derive(Debug, PartialEq)]
pub enum ConditionTree {
    And(Vec<ConditionTree>),
    Or(Vec<ConditionTree>),
    Not(Box<ConditionTree>),
    Single(Expression),
}

/// The union of everything that can stand where a general expression is
/// expected: a comparison, a value, or a nested boolean tree.
#[derive(Debug, PartialEq)]
pub enum Expression {
    Compare(Compare),
    Value(DatabaseValue),
    ConditionTree(Box<ConditionTree>),
}

/// The operand list a tree contributes to an `And` combination: its own
/// children if it is an `And`, itself alone otherwise.
pub open spec fn and_operands(t: ConditionTree) -> Seq<ConditionTree> {
    match t {
        ConditionTree::And(cs) => cs@,
        _ => seq![t],
    }
}

/// The operand list a tree contributes to an `Or` combination: its own
/// children if it is an `Or`, itself alone otherwise.
pub open spec fn or_operands(t: ConditionTree) -> Seq<ConditionTree> {
    match t {
        ConditionTree::Or(cs) => cs@,
        _ => seq![t],
    }
}

impl ConditionTree {
    /// Wrap a single expression into a tree.
    pub fn single(expression: Expression) -> (r: ConditionTree)
        ensures
            r == ConditionTree::Single(expression),
    {
        ConditionTree::Single(expression)
    }

    /// The conjunction of `self` and `other`. Same-operator nesting is
    /// flattened: combining two `And` trees concatenates their children
    /// instead of nesting them.
    pub fn and(self, other: ConditionTree) -> (r: ConditionTree)
        ensures
            r matches ConditionTree::And(cs) && cs@ == and_operands(self) + and_operands(other),
    {
        let mut children: Vec<ConditionTree> = match self {
            ConditionTree::And(cs) => cs,
            t => {
                let mut v: Vec<ConditionTree> = Vec::new();
                v.push(t);
                v
            },
        };
        match other {
            ConditionTree::And(mut cs) => {
                children.append(&mut cs);
            },
            t => {
                children.push(t);
            },
        }
        ConditionTree::And(children)
    }

    /// The disjunction of `self` and `other`. Same-operator nesting is
    /// flattened: combining two `Or` trees concatenates their children
    /// instead of nesting them.
    pub fn or(self, other: ConditionTree) -> (r: ConditionTree)
        ensures
            r matches ConditionTree::Or(cs) && cs@ == or_operands(self) + or_operands(other),
    {
        let mut children: Vec<ConditionTree> = match self {
            ConditionTree::Or(cs) => cs,
            t => {
                let mut v: Vec<ConditionTree> = Vec::new();
                v.push(t);
                v
            },
        };
        match other {
            ConditionTree::Or(mut cs) => {
                children.append(&mut cs);
            },
            t => {
                children.push(t);
            },
        }
        ConditionTree::Or(children)
    }

    /// The negation of `self`.
    pub fn not(self) -> (r: ConditionTree)
        ensures
            r matches ConditionTree::Not(c) && *c == self,
    {
        ConditionTree::Not(Box::new(self))
    }
}

impl From<Compare> for ConditionTree {
    fn from(cmp: Compare) -> (r: ConditionTree) {
        ConditionTree::Single(Expression::Compare(cmp))
    }
}

impl vstd::std_specs::convert::FromSpecImpl<Compare> for ConditionTree {
    open spec fn obeys_from_spec() -> bool {
        true
    }

    open spec fn from_spec(cmp: Compare) -> ConditionTree {
        ConditionTree::Single(Expression::Compare(cmp))
    }
}

impl From<Compare> for Expression {
    fn from(cmp: Compare) -> (r: Expression) {
        Expression::Compare(cmp)
    }
}

impl vstd::std_specs::convert::FromSpecImpl<Compare> for Expression {
    open spec fn obeys_from_spec() -> bool {
        true
    }

    open spec fn from_spec(cmp: Compare) -> Expression {
        Expression::Compare(cmp)
    }
}

} // verus!
