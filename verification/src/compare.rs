use vstd::prelude::*;

use crate::column::Column;
use crate::values::DatabaseValue;

verus! {

/// A comparison expression. The right operand of the `Like` family is raw
/// pattern text, not a value: the renderer wraps it with `%` wildcards as
/// the variant demands and only then binds it as a parameter.
#[derive(Debug, PartialEq)]
pub enum Compare {
    /// `left = right`
    Equals(DatabaseValue, DatabaseValue),
    /// `left <> right`
    NotEquals(DatabaseValue, DatabaseValue),
    /// `left < right`
    LessThan(DatabaseValue, DatabaseValue),
    /// `left <= right`
    LessThanOrEquals(DatabaseValue, DatabaseValue),
    /// `left > right`
    GreaterThan(DatabaseValue, DatabaseValue),
    /// `left >= right`
    GreaterThanOrEquals(DatabaseValue, DatabaseValue),
    /// `left IN (..)`
    In(DatabaseValue, DatabaseValue),
    /// `left NOT IN (..)`
    NotIn(DatabaseValue, DatabaseValue),
    /// `left LIKE %..%`
    Like(DatabaseValue, String),
    /// `left NOT LIKE %..%`
    NotLike(DatabaseValue, String),
    /// `left LIKE ..%`
    BeginsWith(DatabaseValue, String),
    /// `left NOT LIKE ..%`
    NotBeginsWith(DatabaseValue, String),
    /// `left LIKE %..`
    EndsInto(DatabaseValue, String),
    /// `left NOT LIKE %..`
    NotEndsInto(DatabaseValue, String),
    /// `value IS NULL`
    Null(DatabaseValue),
    /// `value IS NOT NULL`
    NotNull(DatabaseValue),
    /// `value BETWEEN left AND right`
    Between(DatabaseValue, DatabaseValue, DatabaseValue),
    /// `value NOT BETWEEN left AND right`
    NotBetween(DatabaseValue, DatabaseValue, DatabaseValue),
}

/// An item that can be compared against other values in the database.
///
/// Every operation is pure and total: it only builds the comparison node,
/// normalizing the receiver to a [`DatabaseValue`] first. The tree preserves
/// left/right order, since the emitted SQL must match operand order for the
/// non-symmetric operators.
pub trait Comparable: Sized {
    /// The value the receiver normalizes to when it becomes an operand.
    spec fn comparable_value(self) -> DatabaseValue;

    /// Tests if both sides are the same value.
    fn equals(self, comparison: DatabaseValue) -> (r: Compare)
        ensures
            r == Compare::Equals(self.comparable_value(), comparison),
    ;

    /// Tests if both sides are not the same value.
    fn not_equals(self, comparison: DatabaseValue) -> (r: Compare)
        ensures
            r == Compare::NotEquals(self.comparable_value(), comparison),
    ;

    /// Tests if the left side is smaller than the right side.
    fn less_than(self, comparison: DatabaseValue) -> (r: Compare)
        ensures
            r == Compare::LessThan(self.comparable_value(), comparison),
    ;

    /// Tests if the left side is smaller than the right side or the same.
    fn less_than_or_equals(self, comparison: DatabaseValue) -> (r: Compare)
        ensures
            r == Compare::LessThanOrEquals(self.comparable_value(), comparison),
    ;

    /// Tests if the left side is bigger than the right side.
    fn greater_than(self, comparison: DatabaseValue) -> (r: Compare)
        ensures
            r == Compare::GreaterThan(self.comparable_value(), comparison),
    ;

    /// Tests if the left side is bigger than the right side or the same.
    fn greater_than_or_equals(self, comparison: DatabaseValue) -> (r: Compare)
        ensures
            r == Compare::GreaterThanOrEquals(self.comparable_value(), comparison),
    ;

    /// Tests if the left side is included in the right side collection.
    fn in_selection(self, selection: DatabaseValue) -> (r: Compare)
        ensures
            r == Compare::In(self.comparable_value(), selection),
    ;

    /// Tests if the left side is not included in the right side collection.
    fn not_in_selection(self, selection: DatabaseValue) -> (r: Compare)
        ensures
            r == Compare::NotIn(self.comparable_value(), selection),
    ;

    /// Tests if the left side includes the pattern: the renderer wraps the
    /// pattern to `%pattern%`.
    fn like(self, pattern: &str) -> (r: Compare)
        ensures
            r matches Compare::Like(v, p) && v == self.comparable_value() && p@ == pattern@,
    ;

    /// Tests if the left side does not include the pattern.
    fn not_like(self, pattern: &str) -> (r: Compare)
        ensures
            r matches Compare::NotLike(v, p) && v == self.comparable_value() && p@ == pattern@,
    ;

    /// Tests if the left side starts with the pattern: the renderer wraps
    /// the pattern to `pattern%`.
    fn begins_with(self, pattern: &str) -> (r: Compare)
        ensures
            r matches Compare::BeginsWith(v, p) && v == self.comparable_value() && p@ == pattern@,
    ;

    /// Tests if the left side does not start with the pattern.
    fn not_begins_with(self, pattern: &str) -> (r: Compare)
        ensures
            r matches Compare::NotBeginsWith(v, p) && v == self.comparable_value() && p@
                == pattern@,
    ;

    /// Tests if the left side ends into the pattern: the renderer wraps the
    /// pattern to `%pattern`.
    fn ends_into(self, pattern: &str) -> (r: Compare)
        ensures
            r matches Compare::EndsInto(v, p) && v == self.comparable_value() && p@ == pattern@,
    ;

    /// Tests if the left side does not end into the pattern.
    fn not_ends_into(self, pattern: &str) -> (r: Compare)
        ensures
            r matches Compare::NotEndsInto(v, p) && v == self.comparable_value() && p@
                == pattern@,
    ;

    /// Tests if the left side is `NULL`.
    fn is_null(self) -> (r: Compare)
        ensures
            r == Compare::Null(self.comparable_value()),
    ;

    /// Tests if the left side is not `NULL`.
    fn is_not_null(self) -> (r: Compare)
        ensures
            r == Compare::NotNull(self.comparable_value()),
    ;

    /// Tests if the value is between two given values.
    fn between(self, left: DatabaseValue, right: DatabaseValue) -> (r: Compare)
        ensures
            r == Compare::Between(self.comparable_value(), left, right),
    ;

    /// Tests if the value is not between two given values.
    fn not_between(self, left: DatabaseValue, right: DatabaseValue) -> (r: Compare)
        ensures
            r == Compare::NotBetween(self.comparable_value(), left, right),
    ;
}

impl Comparable for DatabaseValue {
    open spec fn comparable_value(self) -> DatabaseValue {
        self
    }

    fn equals(self, comparison: DatabaseValue) -> (r: Compare) {
        Compare::Equals(self, comparison)
    }

    fn not_equals(self, comparison: DatabaseValue) -> (r: Compare) {
        Compare::NotEquals(self, comparison)
    }

    fn less_than(self, comparison: DatabaseValue) -> (r: Compare) {
        Compare::LessThan(self, comparison)
    }

    fn less_than_or_equals(self, comparison: DatabaseValue) -> (r: Compare) {
        Compare::LessThanOrEquals(self, comparison)
    }

    fn greater_than(self, comparison: DatabaseValue) -> (r: Compare) {
        Compare::GreaterThan(self, comparison)
    }

    fn greater_than_or_equals(self, comparison: DatabaseValue) -> (r: Compare) {
        Compare::GreaterThanOrEquals(self, comparison)
    }

    fn in_selection(self, selection: DatabaseValue) -> (r: Compare) {
        Compare::In(self, selection)
    }

    fn not_in_selection(self, selection: DatabaseValue) -> (r: Compare) {
        Compare::NotIn(self, selection)
    }

    fn like(self, pattern: &str) -> (r: Compare) {
        Compare::Like(self, pattern.to_owned())
    }

    fn not_like(self, pattern: &str) -> (r: Compare) {
        Compare::NotLike(self, pattern.to_owned())
    }

    fn begins_with(self, pattern: &str) -> (r: Compare) {
        Compare::BeginsWith(self, pattern.to_owned())
    }

    fn not_begins_with(self, pattern: &str) -> (r: Compare) {
        Compare::NotBeginsWith(self, pattern.to_owned())
    }

    fn ends_into(self, pattern: &str) -> (r: Compare) {
        Compare::EndsInto(self, pattern.to_owned())
    }

    fn not_ends_into(self, pattern: &str) -> (r: Compare) {
        Compare::NotEndsInto(self, pattern.to_owned())
    }

    fn is_null(self) -> (r: Compare) {
        Compare::Null(self)
    }

    fn is_not_null(self) -> (r: Compare) {
        Compare::NotNull(self)
    }

    fn between(self, left: DatabaseValue, right: DatabaseValue) -> (r: Compare) {
        Compare::Between(self, left, right)
    }

    fn not_between(self, left: DatabaseValue, right: DatabaseValue) -> (r: Compare) {
        Compare::NotBetween(self, left, right)
    }
}

impl Comparable for Column {
    open spec fn comparable_value(self) -> DatabaseValue {
        DatabaseValue::Column(self)
    }

    fn equals(self, comparison: DatabaseValue) -> (r: Compare) {
        Compare::Equals(DatabaseValue::Column(self), comparison)
    }

    fn not_equals(self, comparison: DatabaseValue) -> (r: Compare) {
        Compare::NotEquals(DatabaseValue::Column(self), comparison)
    }

    fn less_than(self, comparison: DatabaseValue) -> (r: Compare) {
        Compare::LessThan(DatabaseValue::Column(self), comparison)
    }

    fn less_than_or_equals(self, comparison: DatabaseValue) -> (r: Compare) {
        Compare::LessThanOrEquals(DatabaseValue::Column(self), comparison)
    }

    fn greater_than(self, comparison: DatabaseValue) -> (r: Compare) {
        Compare::GreaterThan(DatabaseValue::Column(self), comparison)
    }

    fn greater_than_or_equals(self, comparison: DatabaseValue) -> (r: Compare) {
        Compare::GreaterThanOrEquals(DatabaseValue::Column(self), comparison)
    }

    fn in_selection(self, selection: DatabaseValue) -> (r: Compare) {
        Compare::In(DatabaseValue::Column(self), selection)
    }

    fn not_in_selection(self, selection: DatabaseValue) -> (r: Compare) {
        Compare::NotIn(DatabaseValue::Column(self), selection)
    }

    fn like(self, pattern: &str) -> (r: Compare) {
        Compare::Like(DatabaseValue::Column(self), pattern.to_owned())
    }

    fn not_like(self, pattern: &str) -> (r: Compare) {
        Compare::NotLike(DatabaseValue::Column(self), pattern.to_owned())
    }

    fn begins_with(self, pattern: &str) -> (r: Compare) {
        Compare::BeginsWith(DatabaseValue::Column(self), pattern.to_owned())
    }

    fn not_begins_with(self, pattern: &str) -> (r: Compare) {
        Compare::NotBeginsWith(DatabaseValue::Column(self), pattern.to_owned())
    }

    fn ends_into(self, pattern: &str) -> (r: Compare) {
        Compare::EndsInto(DatabaseValue::Column(self), pattern.to_owned())
    }

    fn not_ends_into(self, pattern: &str) -> (r: Compare) {
        Compare::NotEndsInto(DatabaseValue::Column(self), pattern.to_owned())
    }

    fn is_null(self) -> (r: Compare) {
        Compare::Null(DatabaseValue::Column(self))
    }

    fn is_not_null(self) -> (r: Compare) {
        Compare::NotNull(DatabaseValue::Column(self))
    }

    fn between(self, left: DatabaseValue, right: DatabaseValue) -> (r: Compare) {
        Compare::Between(DatabaseValue::Column(self), left, right)
    }

    fn not_between(self, left: DatabaseValue, right: DatabaseValue) -> (r: Compare) {
        Compare::NotBetween(DatabaseValue::Column(self), left, right)
    }
}

} // verus!
