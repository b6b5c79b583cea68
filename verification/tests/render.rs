use prisma_query::column::Column;
use prisma_query::compare::Comparable;
use prisma_query::function::{row_number, Function, Order};
use prisma_query::select::Select;
use prisma_query::table::Table;
use prisma_query::tree::{ConditionTree, Expression};
use prisma_query::values::{DatabaseValue, ParameterizedValue};
use prisma_query::visitor::Sqlite;

fn text(s: &str) -> DatabaseValue {
    DatabaseValue::Parameterized(ParameterizedValue::Text(s.to_string()))
}

fn integer(i: i64) -> DatabaseValue {
    DatabaseValue::Parameterized(ParameterizedValue::Integer(i))
}

fn where_single(cmp: prisma_query::compare::Compare) -> Select {
    Select::from_table(Table::new("users")).so_that(ConditionTree::Single(Expression::Compare(
        cmp,
    )))
}

#[test]
fn equals_renders_placeholder_and_parameter() {
    let (sql, params) = Sqlite::build(where_single(Column::new("foo").equals(text("bar"))));
    assert_eq!("SELECT `users`.* FROM `users` WHERE `foo` = ?", sql);
    assert_eq!(vec![ParameterizedValue::Text("bar".to_string())], params);
}

#[test]
fn not_equals_renders() {
    let (sql, params) = Sqlite::build(where_single(Column::new("foo").not_equals(text("bar"))));
    assert_eq!("SELECT `users`.* FROM `users` WHERE `foo` <> ?", sql);
    assert_eq!(vec![ParameterizedValue::Text("bar".to_string())], params);
}

#[test]
fn less_than_renders() {
    let (sql, params) = Sqlite::build(where_single(Column::new("foo").less_than(integer(10))));
    assert_eq!("SELECT `users`.* FROM `users` WHERE `foo` < ?", sql);
    assert_eq!(vec![ParameterizedValue::Integer(10)], params);
}

#[test]
fn less_than_or_equals_renders() {
    let (sql, params) =
        Sqlite::build(where_single(Column::new("foo").less_than_or_equals(integer(10))));
    assert_eq!("SELECT `users`.* FROM `users` WHERE `foo` <= ?", sql);
    assert_eq!(vec![ParameterizedValue::Integer(10)], params);
}

#[test]
fn greater_than_renders() {
    let (sql, params) = Sqlite::build(where_single(Column::new("foo").greater_than(integer(10))));
    assert_eq!("SELECT `users`.* FROM `users` WHERE `foo` > ?", sql);
    assert_eq!(vec![ParameterizedValue::Integer(10)], params);
}

#[test]
fn greater_than_or_equals_renders() {
    let (sql, params) =
        Sqlite::build(where_single(Column::new("foo").greater_than_or_equals(integer(10))));
    assert_eq!("SELECT `users`.* FROM `users` WHERE `foo` >= ?", sql);
    assert_eq!(vec![ParameterizedValue::Integer(10)], params);
}

#[test]
fn between_renders_parameters_in_order() {
    let (sql, params) =
        Sqlite::build(where_single(Column::new("foo").between(integer(420), integer(666))));
    assert_eq!("SELECT `users`.* FROM `users` WHERE `foo` BETWEEN ? AND ?", sql);
    assert_eq!(
        vec![ParameterizedValue::Integer(420), ParameterizedValue::Integer(666)],
        params
    );
}

#[test]
fn not_between_renders() {
    let (sql, params) =
        Sqlite::build(where_single(Column::new("foo").not_between(integer(420), integer(666))));
    assert_eq!("SELECT `users`.* FROM `users` WHERE `foo` NOT BETWEEN ? AND ?", sql);
    assert_eq!(
        vec![ParameterizedValue::Integer(420), ParameterizedValue::Integer(666)],
        params
    );
}

#[test]
fn in_selection_renders_placeholder_list() {
    let row = DatabaseValue::Row(vec![integer(1), integer(2)]);
    let (sql, params) = Sqlite::build(where_single(Column::new("foo").in_selection(row)));
    assert_eq!("SELECT `users`.* FROM `users` WHERE `foo` IN (?, ?)", sql);
    assert_eq!(
        vec![ParameterizedValue::Integer(1), ParameterizedValue::Integer(2)],
        params
    );
}

#[test]
fn not_in_selection_renders() {
    let row = DatabaseValue::Row(vec![integer(1), integer(2)]);
    let (sql, params) = Sqlite::build(where_single(Column::new("foo").not_in_selection(row)));
    assert_eq!("SELECT `users`.* FROM `users` WHERE `foo` NOT IN (?, ?)", sql);
    assert_eq!(
        vec![ParameterizedValue::Integer(1), ParameterizedValue::Integer(2)],
        params
    );
}

#[test]
fn empty_in_renders_always_false_without_parameters() {
    let row = DatabaseValue::Row(Vec::new());
    let (sql, params) = Sqlite::build(where_single(Column::new("foo").in_selection(row)));
    assert_eq!("SELECT `users`.* FROM `users` WHERE 1=0", sql);
    assert!(params.is_empty());
}

#[test]
fn empty_not_in_renders_always_true_without_parameters() {
    let row = DatabaseValue::Row(Vec::new());
    let (sql, params) = Sqlite::build(where_single(Column::new("foo").not_in_selection(row)));
    assert_eq!("SELECT `users`.* FROM `users` WHERE 1=1", sql);
    assert!(params.is_empty());
}

#[test]
fn like_wraps_both_sides() {
    let (sql, params) = Sqlite::build(where_single(Column::new("foo").like("bar")));
    assert_eq!("SELECT `users`.* FROM `users` WHERE `foo` LIKE ?", sql);
    assert_eq!(vec![ParameterizedValue::Text("%bar%".to_string())], params);
}

#[test]
fn not_like_wraps_both_sides() {
    let (sql, params) = Sqlite::build(where_single(Column::new("foo").not_like("bar")));
    assert_eq!("SELECT `users`.* FROM `users` WHERE `foo` NOT LIKE ?", sql);
    assert_eq!(vec![ParameterizedValue::Text("%bar%".to_string())], params);
}

#[test]
fn begins_with_wraps_end_only() {
    let (sql, params) = Sqlite::build(where_single(Column::new("foo").begins_with("bar")));
    assert_eq!("SELECT `users`.* FROM `users` WHERE `foo` LIKE ?", sql);
    assert_eq!(vec![ParameterizedValue::Text("bar%".to_string())], params);
}

#[test]
fn not_begins_with_wraps_end_only() {
    let (sql, params) = Sqlite::build(where_single(Column::new("foo").not_begins_with("bar")));
    assert_eq!("SELECT `users`.* FROM `users` WHERE `foo` NOT LIKE ?", sql);
    assert_eq!(vec![ParameterizedValue::Text("bar%".to_string())], params);
}

#[test]
fn ends_into_wraps_start_only() {
    let (sql, params) = Sqlite::build(where_single(Column::new("foo").ends_into("bar")));
    assert_eq!("SELECT `users`.* FROM `users` WHERE `foo` LIKE ?", sql);
    assert_eq!(vec![ParameterizedValue::Text("%bar".to_string())], params);
}

#[test]
fn not_ends_into_wraps_start_only() {
    let (sql, params) = Sqlite::build(where_single(Column::new("foo").not_ends_into("bar")));
    assert_eq!("SELECT `users`.* FROM `users` WHERE `foo` NOT LIKE ?", sql);
    assert_eq!(vec![ParameterizedValue::Text("%bar".to_string())], params);
}

#[test]
fn is_null_renders_without_parameters() {
    let (sql, params) = Sqlite::build(where_single(Column::new("foo").is_null()));
    assert_eq!("SELECT `users`.* FROM `users` WHERE `foo` IS NULL", sql);
    assert!(params.is_empty());
}

#[test]
fn is_not_null_renders_without_parameters() {
    let (sql, params) = Sqlite::build(where_single(Column::new("foo").is_not_null()));
    assert_eq!("SELECT `users`.* FROM `users` WHERE `foo` IS NOT NULL", sql);
    assert!(params.is_empty());
}

#[test]
fn row_number_window_renders_in_projection() {
    let fun = Function::row_number(
        row_number().order_by(Column::new("created_at")).partition_by(Column::new("name")),
    )
    .alias("num");
    let query = Select::from_table(Table::new("users"))
        .column(Column::new("id"))
        .value(DatabaseValue::Function(fun));
    let (sql, params) = Sqlite::build(query);
    assert_eq!(
        "SELECT `id`, ROW_NUMBER() OVER(PARTITION BY `name` ORDER BY `created_at`) AS `num` FROM `users`",
        sql
    );
    assert!(params.is_empty());
}

#[test]
fn empty_window_still_renders_over() {
    let fun = Function::row_number(row_number());
    let query = Select::from_table(Table::new("users")).value(DatabaseValue::Function(fun));
    let (sql, _) = Sqlite::build(query);
    assert_eq!("SELECT ROW_NUMBER() OVER() FROM `users`", sql);
}

#[test]
fn count_renders_arguments() {
    let fun = Function::count(vec![DatabaseValue::Column(Column::new("id"))]).alias("n");
    let query = Select::from_table(Table::new("users")).value(DatabaseValue::Function(fun));
    let (sql, _) = Sqlite::build(query);
    assert_eq!("SELECT COUNT(`id`) AS `n` FROM `users`", sql);
}

#[test]
fn empty_and_renders_always_true() {
    let query =
        Select::from_table(Table::new("users")).so_that(ConditionTree::And(Vec::new()));
    let (sql, params) = Sqlite::build(query);
    assert_eq!("SELECT `users`.* FROM `users` WHERE 1=1", sql);
    assert!(params.is_empty());
}

#[test]
fn empty_or_renders_always_false() {
    let query = Select::from_table(Table::new("users")).so_that(ConditionTree::Or(Vec::new()));
    let (sql, params) = Sqlite::build(query);
    assert_eq!("SELECT `users`.* FROM `users` WHERE 1=0", sql);
    assert!(params.is_empty());
}

#[test]
fn mixed_and_or_children_are_parenthesized() {
    let a = ConditionTree::Single(Expression::Compare(Column::new("a").equals(integer(1))));
    let b = ConditionTree::Single(Expression::Compare(Column::new("b").equals(integer(2))));
    let c = ConditionTree::Single(Expression::Compare(Column::new("c").equals(integer(3))));
    let tree = ConditionTree::Or(vec![ConditionTree::And(vec![a, b]), c]);
    let query = Select::from_table(Table::new("t")).so_that(tree);
    let (sql, params) = Sqlite::build(query);
    assert_eq!("SELECT `t`.* FROM `t` WHERE (`a` = ? AND `b` = ?) OR `c` = ?", sql);
    assert_eq!(params.len(), 3);
}

#[test]
fn and_flattens_same_operator_nesting() {
    let a = ConditionTree::Single(Expression::Compare(Column::new("a").equals(integer(1))));
    let b = ConditionTree::Single(Expression::Compare(Column::new("b").equals(integer(2))));
    let c = ConditionTree::Single(Expression::Compare(Column::new("c").equals(integer(3))));
    let ab = a.and(b);
    let abc = ab.and(c);
    match &abc {
        ConditionTree::And(children) => assert_eq!(children.len(), 3),
        _ => panic!("expected a flattened conjunction"),
    }
    let query = Select::from_table(Table::new("t")).so_that(abc);
    let (sql, _) = Sqlite::build(query);
    assert_eq!("SELECT `t`.* FROM `t` WHERE `a` = ? AND `b` = ? AND `c` = ?", sql);
}

#[test]
fn or_flattens_same_operator_nesting() {
    let a = ConditionTree::Single(Expression::Compare(Column::new("a").equals(integer(1))));
    let b = ConditionTree::Single(Expression::Compare(Column::new("b").equals(integer(2))));
    let c = ConditionTree::Single(Expression::Compare(Column::new("c").equals(integer(3))));
    let abc = a.or(b).or(c);
    let query = Select::from_table(Table::new("t")).so_that(abc);
    let (sql, _) = Sqlite::build(query);
    assert_eq!("SELECT `t`.* FROM `t` WHERE `a` = ? OR `b` = ? OR `c` = ?", sql);
}

#[test]
fn not_is_parenthesized() {
    let a = ConditionTree::Single(Expression::Compare(Column::new("a").equals(integer(1))));
    let query = Select::from_table(Table::new("t")).so_that(a.not());
    let (sql, _) = Sqlite::build(query);
    assert_eq!("SELECT `t`.* FROM `t` WHERE (NOT `a` = ?)", sql);
}

#[test]
fn qualified_column_and_database_render() {
    let col = Column::new("foo").table(Table::new("users").database("crm"));
    let query = Select::from_table(Table::new("users").database("crm"))
        .so_that(ConditionTree::Single(Expression::Compare(col.is_null())));
    let (sql, _) = Sqlite::build(query);
    assert_eq!(
        "SELECT `crm`.`users`.* FROM `crm`.`users` WHERE `crm`.`users`.`foo` IS NULL",
        sql
    );
}

#[test]
fn table_alias_renders_in_from() {
    let query = Select::from_table(Table::new("users").alias("u"));
    let (sql, _) = Sqlite::build(query);
    assert_eq!("SELECT `users`.* FROM `users` AS `u`", sql);
}

#[test]
fn column_alias_renders_in_projection() {
    let query =
        Select::from_table(Table::new("users")).column(Column::new("id").alias("identifier"));
    let (sql, _) = Sqlite::build(query);
    assert_eq!("SELECT `id` AS `identifier` FROM `users`", sql);
}

#[test]
fn opt_table_qualifies_only_when_present() {
    let with = Column::new("a").opt_table(Some(Table::new("t")));
    let without = Column::new("a").opt_table(None);
    assert_eq!(with, Column::new("a").table(Table::new("t")));
    assert_eq!(without, Column::new("a"));
}

#[test]
fn ordering_limit_and_offset_render_in_clause_order() {
    let query = Select::from_table(Table::new("users"))
        .order_by(DatabaseValue::Column(Column::new("name")), Some(Order::Ascending))
        .order_by(DatabaseValue::Column(Column::new("age")), Some(Order::Descending))
        .limit(10)
        .offset(5);
    let (sql, params) = Sqlite::build(query);
    assert_eq!(
        "SELECT `users`.* FROM `users` ORDER BY `name` ASC, `age` DESC LIMIT ? OFFSET ?",
        sql
    );
    assert_eq!(
        vec![ParameterizedValue::Integer(10), ParameterizedValue::Integer(5)],
        params
    );
}

#[test]
fn nested_select_splices_parameters_in_place() {
    let inner = Select::from_table(Table::new("posts"))
        .column(Column::new("user_id"))
        .so_that(ConditionTree::Single(Expression::Compare(
            Column::new("title").equals(text("hello")),
        )));
    let outer_cmp =
        Column::new("id").in_selection(DatabaseValue::Select(Box::new(inner)));
    let outer = Select::from_table(Table::new("users"))
        .so_that(
            ConditionTree::Single(Expression::Compare(outer_cmp)).and(
                ConditionTree::Single(Expression::Compare(
                    Column::new("active").equals(integer(1)),
                )),
            ),
        )
        .limit(3);
    let (sql, params) = Sqlite::build(outer);
    assert_eq!(
        "SELECT `users`.* FROM `users` WHERE `id` IN (SELECT `user_id` FROM `posts` WHERE `title` = ?) AND `active` = ? LIMIT ?",
        sql
    );
    assert_eq!(
        vec![
            ParameterizedValue::Text("hello".to_string()),
            ParameterizedValue::Integer(1),
            ParameterizedValue::Integer(3),
        ],
        params
    );
}

#[test]
fn placeholder_count_matches_parameter_count() {
    let inner = Select::from_table(Table::new("posts"))
        .column(Column::new("user_id"))
        .so_that(ConditionTree::Single(Expression::Compare(
            Column::new("title").like("abc"),
        )));
    let tree = ConditionTree::Single(Expression::Compare(
        Column::new("id").in_selection(DatabaseValue::Select(Box::new(inner))),
    ))
    .or(ConditionTree::Single(Expression::Compare(
        Column::new("age").between(integer(1), integer(99)),
    )))
    .not();
    let query = Select::from_table(Table::new("users")).so_that(tree).limit(7).offset(9);
    let (sql, params) = Sqlite::build(query);
    let placeholders = sql.chars().filter(|c| *c == '?').count();
    assert_eq!(placeholders, params.len());
}

#[test]
fn rendering_twice_is_identical() {
    let make = || {
        Select::from_table(Table::new("users"))
            .column(Column::new("id"))
            .so_that(ConditionTree::Single(Expression::Compare(
                Column::new("foo").like("bar"),
            )))
            .limit(2)
    };
    let first = Sqlite::build(make());
    let second = Sqlite::build(make());
    assert_eq!(first.0, second.0);
    assert_eq!(first.1, second.1);
}

#[test]
fn compare_converts_into_condition_tree() {
    let tree: ConditionTree = Column::new("foo").equals(text("bar")).into();
    let (sql, _) = Sqlite::build(Select::from_table(Table::new("users")).so_that(tree));
    assert_eq!("SELECT `users`.* FROM `users` WHERE `foo` = ?", sql);
}

#[test]
fn column_converts_from_name_and_qualified_pair() {
    let plain: Column = Column::from("foo".to_string());
    assert_eq!(plain, Column::new("foo"));
    let qualified: Column = Column::from((Table::new("users"), Column::new("foo")));
    assert_eq!(qualified, Column::new("foo").table(Table::new("users")));
    let value: DatabaseValue = Column::new("foo").into();
    assert_eq!(value, DatabaseValue::Column(Column::new("foo")));
}

#[test]
fn boolean_and_null_values_become_parameters() {
    let row = DatabaseValue::Row(vec![
        DatabaseValue::Parameterized(ParameterizedValue::Boolean(true)),
        DatabaseValue::Parameterized(ParameterizedValue::Null),
    ]);
    let (sql, params) = Sqlite::build(where_single(Column::new("foo").in_selection(row)));
    assert_eq!("SELECT `users`.* FROM `users` WHERE `foo` IN (?, ?)", sql);
    assert_eq!(
        vec![ParameterizedValue::Boolean(true), ParameterizedValue::Null],
        params
    );
}
