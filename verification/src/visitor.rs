use vstd::prelude::*;

use crate::column::Column;
use crate::compare::Compare;
use crate::function::{Function, FunctionType, Order, Over};
use crate::select::Select;
use crate::table::Table;
use crate::tree::{ConditionTree, Expression};
use crate::values::{DatabaseValue, ParamModel, ParameterizedValue};

verus! {

// ---------------------------------------------------------------------------
// The rendering, as mathematics: one spec function per node kind says exactly
// which characters the dialect emits and which parameters it binds, in order.
// The executable visitor below is proved equal to these functions.
// ---------------------------------------------------------------------------

/// An identifier between the dialect's quote characters.
pub open spec fn quoted(name: Seq<char>) -> Seq<char> {
    "`"@ + name + "`"@
}

/// A table reference: the quoted name, qualified by the quoted database
/// when one is set.
pub open spec fn render_table(t: Table) -> Seq<char> {
    match t.database {
        Some(db) => quoted(db@) + "."@ + quoted(t.name@),
        None => quoted(t.name@),
    }
}

/// A table reference in the `FROM` clause: aliased when an alias is set.
pub open spec fn render_table_from(t: Table) -> Seq<char> {
    match t.alias {
        Some(a) => render_table(t) + " AS "@ + quoted(a@),
        None => render_table(t),
    }
}

/// A column reference: the quoted name, qualified by its table when one is
/// set. The alias plays no part here; it is rendered only in the projection
/// list.
pub open spec fn render_column(c: Column) -> Seq<char> {
    match c.table {
        Some(t) => render_table(t) + "."@ + quoted(c.name@),
        None => quoted(c.name@),
    }
}

/// A comma-separated list of column references.
pub open spec fn render_column_list(cs: Seq<Column>) -> Seq<char>
    decreases cs.len(),
{
    if cs.len() == 0 {
        Seq::empty()
    } else if cs.len() == 1 {
        render_column(cs[0])
    } else {
        render_column(cs[0]) + ", "@ + render_column_list(cs.drop_first())
    }
}

/// The direction suffix of one ordering term.
pub open spec fn order_suffix(o: Option<Order>) -> Seq<char> {
    match o {
        Some(Order::Ascending) => " ASC"@,
        Some(Order::Descending) => " DESC"@,
        None => Seq::empty(),
    }
}

/// The ordering terms of a window, comma-separated.
pub open spec fn render_over_ordering(os: Seq<(Column, Option<Order>)>) -> Seq<char>
    decreases os.len(),
{
    if os.len() == 0 {
        Seq::empty()
    } else if os.len() == 1 {
        render_column(os[0].0) + order_suffix(os[0].1)
    } else {
        render_column(os[0].0) + order_suffix(os[0].1) + ", "@ + render_over_ordering(
            os.drop_first(),
        )
    }
}

/// The inside of an `OVER(...)` clause. `PARTITION BY` and `ORDER BY` are
/// each omitted when their list is empty; an entirely empty window renders
/// as nothing, leaving `OVER()`.
pub open spec fn render_over(o: Over) -> Seq<char> {
    if o.partitioning@.len() == 0 && o.ordering@.len() == 0 {
        Seq::empty()
    } else if o.ordering@.len() == 0 {
        "PARTITION BY "@ + render_column_list(o.partitioning@)
    } else if o.partitioning@.len() == 0 {
        "ORDER BY "@ + render_over_ordering(o.ordering@)
    } else {
        "PARTITION BY "@ + render_column_list(o.partitioning@) + " ORDER BY "@
            + render_over_ordering(o.ordering@)
    }
}

/// Whether a value is a list without elements: the one shape the `IN`
/// family must not render literally, since `IN ()` is not valid SQL.
pub open spec fn is_empty_row(v: DatabaseValue) -> bool {
    v matches DatabaseValue::Row(vs) && vs@.len() == 0
}

/// The text of one value node. A literal is always a placeholder; only
/// identifiers appear in the text.
pub open spec fn render_value(v: DatabaseValue) -> Seq<char>
    decreases v, 0nat,
{
    match v {
        DatabaseValue::Parameterized(_) => "?"@,
        DatabaseValue::Column(c) => render_column(c),
        DatabaseValue::Row(vs) => "("@ + render_value_list(vs@) + ")"@,
        DatabaseValue::Select(s) => "("@ + render_select(*s) + ")"@,
        DatabaseValue::Function(f) => render_function_type(f.typ),
    }
}

/// The parameters of one value node, in text order.
pub open spec fn params_value(v: DatabaseValue) -> Seq<ParamModel>
    decreases v, 0nat,
{
    match v {
        DatabaseValue::Parameterized(p) => seq![crate::values::param_model(p)],
        DatabaseValue::Column(_) => Seq::empty(),
        DatabaseValue::Row(vs) => params_value_list(vs@),
        DatabaseValue::Select(s) => params_select(*s),
        DatabaseValue::Function(f) => params_function_type(f.typ),
    }
}

/// The text of a comma-separated list of values.
pub open spec fn render_value_list(vs: Seq<DatabaseValue>) -> Seq<char>
    decreases vs, 0nat,
{
    if vs.len() == 0 {
        Seq::empty()
    } else if vs.len() == 1 {
        render_value(vs[0])
    } else {
        render_value(vs[0]) + ", "@ + render_value_list(vs.drop_first())
    }
}

/// The parameters of a list of values, in list order.
pub open spec fn params_value_list(vs: Seq<DatabaseValue>) -> Seq<ParamModel>
    decreases vs, 0nat,
{
    if vs.len() == 0 {
        Seq::empty()
    } else {
        params_value(vs[0]) + params_value_list(vs.drop_first())
    }
}

/// The text of a function call.
pub open spec fn render_function_type(t: FunctionType) -> Seq<char>
    decreases t, 0nat,
{
    match t {
        FunctionType::RowNumber(rn) => "ROW_NUMBER() OVER("@ + render_over(rn.over) + ")"@,
        FunctionType::Count(args) => "COUNT("@ + render_value_list(args@) + ")"@,
    }
}

/// The parameters of a function call.
pub open spec fn params_function_type(t: FunctionType) -> Seq<ParamModel>
    decreases t, 0nat,
{
    match t {
        FunctionType::RowNumber(_) => Seq::empty(),
        FunctionType::Count(args) => params_value_list(args@),
    }
}

/// The text of one projection term: the value, with its alias appended when
/// a column or function carries one.
pub open spec fn render_projection(v: DatabaseValue) -> Seq<char>
    decreases v, 1nat,
{
    match v {
        DatabaseValue::Column(c) => match c.alias {
            Some(a) => render_column(c) + " AS "@ + quoted(a@),
            None => render_column(c),
        },
        DatabaseValue::Function(f) => match f.alias {
            Some(a) => render_function_type(f.typ) + " AS "@ + quoted(a@),
            None => render_function_type(f.typ),
        },
        _ => render_value(v),
    }
}

/// The text of the projection list.
pub open spec fn render_projection_list(vs: Seq<DatabaseValue>) -> Seq<char>
    decreases vs, 1nat,
{
    if vs.len() == 0 {
        Seq::empty()
    } else if vs.len() == 1 {
        render_projection(vs[0])
    } else {
        render_projection(vs[0]) + ", "@ + render_projection_list(vs.drop_first())
    }
}

/// The text of one comparison. The `Like` family binds its wrapped pattern
/// as a parameter, so only the keyword and a placeholder reach the text. An
/// `IN` against an empty list renders as the constant falsehood, a `NOT IN`
/// as the constant truth, and neither contributes a parameter.
pub open spec fn render_compare(c: Compare) -> Seq<char>
    decreases c, 0nat,
{
    match c {
        Compare::Equals(l, r) => render_value(l) + " = "@ + render_value(r),
        Compare::NotEquals(l, r) => render_value(l) + " <> "@ + render_value(r),
        Compare::LessThan(l, r) => render_value(l) + " < "@ + render_value(r),
        Compare::LessThanOrEquals(l, r) => render_value(l) + " <= "@ + render_value(r),
        Compare::GreaterThan(l, r) => render_value(l) + " > "@ + render_value(r),
        Compare::GreaterThanOrEquals(l, r) => render_value(l) + " >= "@ + render_value(r),
        Compare::In(l, r) => if is_empty_row(r) {
            "1=0"@
        } else {
            render_value(l) + " IN "@ + render_value(r)
        },
        Compare::NotIn(l, r) => if is_empty_row(r) {
            "1=1"@
        } else {
            render_value(l) + " NOT IN "@ + render_value(r)
        },
        Compare::Like(l, _) => render_value(l) + " LIKE ?"@,
        Compare::NotLike(l, _) => render_value(l) + " NOT LIKE ?"@,
        Compare::BeginsWith(l, _) => render_value(l) + " LIKE ?"@,
        Compare::NotBeginsWith(l, _) => render_value(l) + " NOT LIKE ?"@,
        Compare::EndsInto(l, _) => render_value(l) + " LIKE ?"@,
        Compare::NotEndsInto(l, _) => render_value(l) + " NOT LIKE ?"@,
        Compare::Null(v) => render_value(v) + " IS NULL"@,
        Compare::NotNull(v) => render_value(v) + " IS NOT NULL"@,
        Compare::Between(v, l, r) => render_value(v) + " BETWEEN "@ + render_value(l) + " AND "@
            + render_value(r),
        Compare::NotBetween(v, l, r) => render_value(v) + " NOT BETWEEN "@ + render_value(l)
            + " AND "@ + render_value(r),
    }
}

/// The parameters of one comparison: the operands' parameters in text
/// order, with the `Like` family's wrapped pattern bound after its left
/// operand.
pub open spec fn params_compare(c: Compare) -> Seq<ParamModel>
    decreases c, 0nat,
{
    match c {
        Compare::Equals(l, r) => params_value(l) + params_value(r),
        Compare::NotEquals(l, r) => params_value(l) + params_value(r),
        Compare::LessThan(l, r) => params_value(l) + params_value(r),
        Compare::LessThanOrEquals(l, r) => params_value(l) + params_value(r),
        Compare::GreaterThan(l, r) => params_value(l) + params_value(r),
        Compare::GreaterThanOrEquals(l, r) => params_value(l) + params_value(r),
        Compare::In(l, r) => if is_empty_row(r) {
            Seq::empty()
        } else {
            params_value(l) + params_value(r)
        },
        Compare::NotIn(l, r) => if is_empty_row(r) {
            Seq::empty()
        } else {
            params_value(l) + params_value(r)
        },
        Compare::Like(l, p) => params_value(l) + seq![ParamModel::Text("%"@ + p@ + "%"@)],
        Compare::NotLike(l, p) => params_value(l) + seq![ParamModel::Text("%"@ + p@ + "%"@)],
        Compare::BeginsWith(l, p) => params_value(l) + seq![ParamModel::Text(p@ + "%"@)],
        Compare::NotBeginsWith(l, p) => params_value(l) + seq![ParamModel::Text(p@ + "%"@)],
        Compare::EndsInto(l, p) => params_value(l) + seq![ParamModel::Text("%"@ + p@)],
        Compare::NotEndsInto(l, p) => params_value(l) + seq![ParamModel::Text("%"@ + p@)],
        Compare::Null(v) => params_value(v),
        Compare::NotNull(v) => params_value(v),
        Compare::Between(v, l, r) => params_value(v) + params_value(l) + params_value(r),
        Compare::NotBetween(v, l, r) => params_value(v) + params_value(l) + params_value(r),
    }
}

/// The text of one expression.
pub open spec fn render_expr(e: Expression) -> Seq<char>
    decreases e, 0nat,
{
    match e {
        Expression::Compare(c) => render_compare(c),
        Expression::Value(v) => render_value(v),
        Expression::ConditionTree(t) => "("@ + render_tree(*t) + ")"@,
    }
}

/// The parameters of one expression.
pub open spec fn params_expr(e: Expression) -> Seq<ParamModel>
    decreases e, 0nat,
{
    match e {
        Expression::Compare(c) => params_compare(c),
        Expression::Value(v) => params_value(v),
        Expression::ConditionTree(t) => params_tree(*t),
    }
}

/// The text of one condition tree. An empty `And` is the constant truth, an
/// empty `Or` the constant falsehood; a `NOT` is always parenthesized.
pub open spec fn render_tree(t: ConditionTree) -> Seq<char>
    decreases t, 0nat,
{
    match t {
        ConditionTree::And(cs) => if cs@.len() == 0 {
            "1=1"@
        } else {
            render_tree_list(cs@, " AND "@)
        },
        ConditionTree::Or(cs) => if cs@.len() == 0 {
            "1=0"@
        } else {
            render_tree_list(cs@, " OR "@)
        },
        ConditionTree::Not(c) => "(NOT "@ + render_child(*c) + ")"@,
        ConditionTree::Single(e) => render_expr(e),
    }
}

/// The text of one child of a boolean combination: a `Single` stands bare,
/// every compound child is parenthesized, whatever its operator, so that
/// mixing operators can never rebind a leaf.
pub open spec fn render_child(t: ConditionTree) -> Seq<char>
    decreases t, 1nat,
{
    match t {
        ConditionTree::Single(_) => render_tree(t),
        _ => "("@ + render_tree(t) + ")"@,
    }
}

/// The text of the children of a boolean combination, joined by its
/// operator.
pub open spec fn render_tree_list(ts: Seq<ConditionTree>, sep: Seq<char>) -> Seq<char>
    decreases ts, 2nat,
{
    if ts.len() == 0 {
        Seq::empty()
    } else if ts.len() == 1 {
        render_child(ts[0])
    } else {
        render_child(ts[0]) + sep + render_tree_list(ts.drop_first(), sep)
    }
}

/// The parameters of one condition tree, in text order.
pub open spec fn params_tree(t: ConditionTree) -> Seq<ParamModel>
    decreases t, 0nat,
{
    match t {
        ConditionTree::And(cs) => params_tree_list(cs@),
        ConditionTree::Or(cs) => params_tree_list(cs@),
        ConditionTree::Not(c) => params_tree(*c),
        ConditionTree::Single(e) => params_expr(e),
    }
}

/// The parameters of the children of a boolean combination, in order.
pub open spec fn params_tree_list(ts: Seq<ConditionTree>) -> Seq<ParamModel>
    decreases ts, 2nat,
{
    if ts.len() == 0 {
        Seq::empty()
    } else {
        params_tree(ts[0]) + params_tree_list(ts.drop_first())
    }
}

/// The text of the `ORDER BY` terms of a statement.
pub open spec fn render_ordering_list(os: Seq<(DatabaseValue, Option<Order>)>) -> Seq<char>
    decreases os, 0nat,
{
    if os.len() == 0 {
        Seq::empty()
    } else if os.len() == 1 {
        render_value(os[0].0) + order_suffix(os[0].1)
    } else {
        render_value(os[0].0) + order_suffix(os[0].1) + ", "@ + render_ordering_list(
            os.drop_first(),
        )
    }
}

/// The parameters of the `ORDER BY` terms, in order.
pub open spec fn params_ordering_list(os: Seq<(DatabaseValue, Option<Order>)>) -> Seq<ParamModel>
    decreases os, 0nat,
{
    if os.len() == 0 {
        Seq::empty()
    } else {
        params_value(os[0].0) + params_ordering_list(os.drop_first())
    }
}

/// The text of the `WHERE` clause: absent when no filter was set.
pub open spec fn render_where(c: Option<ConditionTree>) -> Seq<char>
    decreases c, 0nat,
{
    match c {
        Some(t) => " WHERE "@ + render_tree(t),
        None => Seq::empty(),
    }
}

/// The parameters of the `WHERE` clause: none when no filter was set.
pub open spec fn params_where(c: Option<ConditionTree>) -> Seq<ParamModel>
    decreases c, 0nat,
{
    match c {
        Some(t) => params_tree(t),
        None => Seq::empty(),
    }
}

/// The projection of a `SELECT`: the whole table when no columns were
/// added, the projection list otherwise.
pub open spec fn render_projections(table: Table, columns: Seq<DatabaseValue>) -> Seq<char>
    decreases columns, 2nat,
{
    if columns.len() == 0 {
        render_table(table) + ".*"@
    } else {
        render_projection_list(columns)
    }
}

/// The `ORDER BY` clause of a statement: absent when no term was added.
pub open spec fn render_order_clause(os: Seq<(DatabaseValue, Option<Order>)>) -> Seq<char>
    decreases os, 1nat,
{
    if os.len() == 0 {
        Seq::empty()
    } else {
        " ORDER BY "@ + render_ordering_list(os)
    }
}

/// The `LIMIT` clause: the count is bound as a parameter.
pub open spec fn render_limit_clause(l: Option<u32>) -> Seq<char> {
    match l {
        Some(_) => " LIMIT ?"@,
        None => Seq::empty(),
    }
}

/// The parameter of the `LIMIT` clause.
pub open spec fn params_limit(l: Option<u32>) -> Seq<ParamModel> {
    match l {
        Some(v) => seq![ParamModel::Integer(v as int)],
        None => Seq::empty(),
    }
}

/// The `OFFSET` clause: the count is bound as a parameter.
pub open spec fn render_offset_clause(o: Option<u32>) -> Seq<char> {
    match o {
        Some(_) => " OFFSET ?"@,
        None => Seq::empty(),
    }
}

/// The parameter of the `OFFSET` clause.
pub open spec fn params_offset(o: Option<u32>) -> Seq<ParamModel> {
    match o {
        Some(v) => seq![ParamModel::Integer(v as int)],
        None => Seq::empty(),
    }
}

/// The text of a whole `SELECT` statement, in fixed clause order. An empty
/// projection list projects the whole table; `LIMIT` and `OFFSET` each bind
/// their count as a parameter.
pub open spec fn render_select(q: Select) -> Seq<char>
    decreases q, 2nat,
{
    "SELECT "@ + render_projections(q.table, q.columns@) + " FROM "@ + render_table_from(q.table)
        + render_where(
        q.conditions,
    ) + render_order_clause(q.ordering@) + render_limit_clause(q.limit) + render_offset_clause(
        q.offset,
    )
}

/// The parameters of a whole `SELECT` statement, in text order: projections,
/// then the filter, then the ordering, then limit and offset.
pub open spec fn params_select(q: Select) -> Seq<ParamModel>
    decreases q, 2nat,
{
    params_value_list(q.columns@) + params_where(q.conditions) + params_ordering_list(q.ordering@)
        + params_limit(q.limit) + params_offset(q.offset)
}

// ---------------------------------------------------------------------------
// The executable visitor. Each function appends exactly the characters and
// parameters its spec function names; the tree is consumed as it is walked,
// so parameter values move into the output without copying.
// ---------------------------------------------------------------------------

/// Appending one parameter appends its model.
proof fn lemma_params_model_push(s: Seq<ParameterizedValue>, p: ParameterizedValue)
    ensures
        crate::values::params_model(s.push(p)) == crate::values::params_model(s) + seq![
            crate::values::param_model(p),
        ],
{
    assert(crate::values::params_model(s.push(p)) =~= crate::values::params_model(s) + seq![
        crate::values::param_model(p),
    ]);
}

fn append_quoted(name: &str, sql: &mut String)
    ensures
        final(sql)@ == old(sql)@ + quoted(name@),
{
    sql.append("`");
    sql.append(name);
    sql.append("`");
    assert(sql@ =~= old(sql)@ + quoted(name@));
}

fn visit_table(t: &Table, sql: &mut String)
    ensures
        final(sql)@ == old(sql)@ + render_table(*t),
{
    match &t.database {
        Some(db) => {
            append_quoted(db.as_str(), sql);
            sql.append(".");
            append_quoted(t.name.as_str(), sql);
            assert(sql@ =~= old(sql)@ + render_table(*t));
        },
        None => {
            append_quoted(t.name.as_str(), sql);
        },
    }
}

fn visit_table_from(t: &Table, sql: &mut String)
    ensures
        final(sql)@ == old(sql)@ + render_table_from(*t),
{
    visit_table(t, sql);
    match &t.alias {
        Some(a) => {
            sql.append(" AS ");
            append_quoted(a.as_str(), sql);
            assert(sql@ =~= old(sql)@ + render_table_from(*t));
        },
        None => {},
    }
}

fn visit_column(c: &Column, sql: &mut String)
    ensures
        final(sql)@ == old(sql)@ + render_column(*c),
{
    match &c.table {
        Some(t) => {
            visit_table(t, sql);
            sql.append(".");
            append_quoted(c.name.as_str(), sql);
            assert(sql@ =~= old(sql)@ + render_column(*c));
        },
        None => {
            append_quoted(c.name.as_str(), sql);
        },
    }
}

fn visit_column_list(cs: &Vec<Column>, i: usize, sql: &mut String)
    requires
        i <= cs@.len(),
    ensures
        final(sql)@ == old(sql)@ + render_column_list(cs@.skip(i as int)),
    decreases cs@.len() - i,
{
    if i < cs.len() {
        visit_column(&cs[i], sql);
        if i + 1 < cs.len() {
            sql.append(", ");
        }
        visit_column_list(cs, i + 1, sql);
        proof {
            let s = cs@.skip(i as int);
            assert(s[0] == cs@[i as int]);
            assert(s.drop_first() =~= cs@.skip(i as int + 1));
            assert(sql@ =~= old(sql)@ + render_column_list(s));
        }
    }
}

fn visit_over_ordering(os: &Vec<(Column, Option<Order>)>, i: usize, sql: &mut String)
    requires
        i <= os@.len(),
    ensures
        final(sql)@ == old(sql)@ + render_over_ordering(os@.skip(i as int)),
    decreases os@.len() - i,
{
    if i < os.len() {
        visit_column(&os[i].0, sql);
        match &os[i].1 {
            Some(Order::Ascending) => sql.append(" ASC"),
            Some(Order::Descending) => sql.append(" DESC"),
            None => {},
        }
        if i + 1 < os.len() {
            sql.append(", ");
        }
        visit_over_ordering(os, i + 1, sql);
        proof {
            let s = os@.skip(i as int);
            assert(s[0] == os@[i as int]);
            assert(s.drop_first() =~= os@.skip(i as int + 1));
            assert(sql@ =~= old(sql)@ + render_over_ordering(s));
        }
    }
}

fn visit_over(o: &Over, sql: &mut String)
    ensures
        final(sql)@ == old(sql)@ + render_over(*o),
{
    proof {
        assert(o.partitioning@.skip(0) =~= o.partitioning@);
        assert(o.ordering@.skip(0) =~= o.ordering@);
    }
    if o.partitioning.len() > 0 {
        sql.append("PARTITION BY ");
        visit_column_list(&o.partitioning, 0, sql);
    }
    if o.ordering.len() > 0 {
        if o.partitioning.len() > 0 {
            sql.append(" ORDER BY ");
        } else {
            sql.append("ORDER BY ");
        }
        visit_over_ordering(&o.ordering, 0, sql);
    }
    assert(sql@ =~= old(sql)@ + render_over(*o));
}

fn visit_value(v: DatabaseValue, sql: &mut String, params: &mut Vec<ParameterizedValue>)
    ensures
        final(sql)@ == old(sql)@ + render_value(v),
        crate::values::params_model(final(params)@) == crate::values::params_model(old(params)@)
            + params_value(v),
    decreases v, 0nat,
{
    match v {
        DatabaseValue::Parameterized(p) => {
            sql.append("?");
            proof {
                lemma_params_model_push(params@, p);
            }
            params.push(p);
        },
        DatabaseValue::Column(c) => {
            visit_column(&c, sql);
            assert(crate::values::params_model(params@) =~= crate::values::params_model(
                old(params)@,
            ) + params_value(DatabaseValue::Column(c)));
        },
        DatabaseValue::Row(vs) => {
            sql.append("(");
            visit_value_list(vs, sql, params);
            sql.append(")");
            assert(sql@ =~= old(sql)@ + render_value(v));
        },
        DatabaseValue::Select(s) => {
            sql.append("(");
            visit_select(*s, sql, params);
            sql.append(")");
            assert(sql@ =~= old(sql)@ + render_value(v));
        },
        DatabaseValue::Function(f) => {
            visit_function_type(f.typ, sql, params);
        },
    }
}

fn visit_value_list(vs: Vec<DatabaseValue>, sql: &mut String, params: &mut Vec<ParameterizedValue>)
    ensures
        final(sql)@ == old(sql)@ + render_value_list(vs@),
        crate::values::params_model(final(params)@) == crate::values::params_model(old(params)@)
            + params_value_list(vs@),
    decreases vs@, 0nat,
{
    let ghost vs0 = vs@;
    let mut vs = vs;
    if vs.len() == 0 {
        assert(crate::values::params_model(params@) =~= crate::values::params_model(old(params)@)
            + params_value_list(vs0));
        assert(sql@ =~= old(sql)@ + render_value_list(vs0));
        return ;
    }
    let head = vs.remove(0);
    proof {
        assert(vs@ =~= vs0.drop_first());
        assert(head == vs0[0]);
    }
    visit_value(head, sql, params);
    if vs.len() > 0 {
        sql.append(", ");
    }
    visit_value_list(vs, sql, params);
    assert(sql@ =~= old(sql)@ + render_value_list(vs0));
    assert(crate::values::params_model(params@) =~= crate::values::params_model(old(params)@)
        + params_value_list(vs0));
}

fn visit_function_type(
    t: FunctionType,
    sql: &mut String,
    params: &mut Vec<ParameterizedValue>,
)
    ensures
        final(sql)@ == old(sql)@ + render_function_type(t),
        crate::values::params_model(final(params)@) == crate::values::params_model(old(params)@)
            + params_function_type(t),
    decreases t, 0nat,
{
    match t {
        FunctionType::RowNumber(rn) => {
            sql.append("ROW_NUMBER() OVER(");
            visit_over(&rn.over, sql);
            sql.append(")");
            assert(sql@ =~= old(sql)@ + render_function_type(FunctionType::RowNumber(rn)));
            assert(crate::values::params_model(params@) =~= crate::values::params_model(
                old(params)@,
            ) + params_function_type(FunctionType::RowNumber(rn)));
        },
        FunctionType::Count(args) => {
            sql.append("COUNT(");
            visit_value_list(args, sql, params);
            sql.append(")");
            assert(sql@ =~= old(sql)@ + render_function_type(t));
        },
    }
}

fn visit_projection(v: DatabaseValue, sql: &mut String, params: &mut Vec<ParameterizedValue>)
    ensures
        final(sql)@ == old(sql)@ + render_projection(v),
        crate::values::params_model(final(params)@) == crate::values::params_model(old(params)@)
            + params_value(v),
    decreases v, 1nat,
{
    match v {
        DatabaseValue::Column(c) => {
            visit_column(&c, sql);
            match &c.alias {
                Some(a) => {
                    sql.append(" AS ");
                    append_quoted(a.as_str(), sql);
                    assert(sql@ =~= old(sql)@ + render_projection(DatabaseValue::Column(c)));
                },
                None => {},
            }
            assert(crate::values::params_model(params@) =~= crate::values::params_model(
                old(params)@,
            ) + params_value(DatabaseValue::Column(c)));
        },
        DatabaseValue::Function(f) => {
            let Function { typ, alias } = f;
            visit_function_type(typ, sql, params);
            match &alias {
                Some(a) => {
                    sql.append(" AS ");
                    append_quoted(a.as_str(), sql);
                },
                None => {},
            }
            assert(sql@ =~= old(sql)@ + render_projection(
                DatabaseValue::Function(Function { typ, alias }),
            ));
        },
        other => {
            visit_value(other, sql, params);
        },
    }
}

fn visit_projection_list(
    vs: Vec<DatabaseValue>,
    sql: &mut String,
    params: &mut Vec<ParameterizedValue>,
)
    ensures
        final(sql)@ == old(sql)@ + render_projection_list(vs@),
        crate::values::params_model(final(params)@) == crate::values::params_model(old(params)@)
            + params_value_list(vs@),
    decreases vs@, 1nat,
{
    let ghost vs0 = vs@;
    let mut vs = vs;
    if vs.len() == 0 {
        assert(crate::values::params_model(params@) =~= crate::values::params_model(old(params)@)
            + params_value_list(vs0));
        assert(sql@ =~= old(sql)@ + render_projection_list(vs0));
        return ;
    }
    let head = vs.remove(0);
    proof {
        assert(vs@ =~= vs0.drop_first());
        assert(head == vs0[0]);
    }
    visit_projection(head, sql, params);
    if vs.len() > 0 {
        sql.append(", ");
    }
    visit_projection_list(vs, sql, params);
    assert(sql@ =~= old(sql)@ + render_projection_list(vs0));
    assert(crate::values::params_model(params@) =~= crate::values::params_model(old(params)@)
        + params_value_list(vs0));
}

#[verifier::rlimit(100)]
#[verifier::spinoff_prover]
fn visit_compare(c: Compare, sql: &mut String, params: &mut Vec<ParameterizedValue>)
    ensures
        final(sql)@ == old(sql)@ + render_compare(c),
        crate::values::params_model(final(params)@) == crate::values::params_model(old(params)@)
            + params_compare(c),
    decreases c, 0nat,
{
    match c {
        Compare::Equals(l, r) => {
            visit_value(l, sql, params);
            sql.append(" = ");
            visit_value(r, sql, params);
            assert(sql@ =~= old(sql)@ + render_compare(c));
            assert(crate::values::params_model(params@) =~= crate::values::params_model(
                old(params)@,
            ) + params_compare(c));
        },
        Compare::NotEquals(l, r) => {
            visit_value(l, sql, params);
            sql.append(" <> ");
            visit_value(r, sql, params);
            assert(sql@ =~= old(sql)@ + render_compare(c));
            assert(crate::values::params_model(params@) =~= crate::values::params_model(
                old(params)@,
            ) + params_compare(c));
        },
        Compare::LessThan(l, r) => {
            visit_value(l, sql, params);
            sql.append(" < ");
            visit_value(r, sql, params);
            assert(sql@ =~= old(sql)@ + render_compare(c));
            assert(crate::values::params_model(params@) =~= crate::values::params_model(
                old(params)@,
            ) + params_compare(c));
        },
        Compare::LessThanOrEquals(l, r) => {
            visit_value(l, sql, params);
            sql.append(" <= ");
            visit_value(r, sql, params);
            assert(sql@ =~= old(sql)@ + render_compare(c));
            assert(crate::values::params_model(params@) =~= crate::values::params_model(
                old(params)@,
            ) + params_compare(c));
        },
        Compare::GreaterThan(l, r) => {
            visit_value(l, sql, params);
            sql.append(" > ");
            visit_value(r, sql, params);
            assert(sql@ =~= old(sql)@ + render_compare(c));
            assert(crate::values::params_model(params@) =~= crate::values::params_model(
                old(params)@,
            ) + params_compare(c));
        },
        Compare::GreaterThanOrEquals(l, r) => {
            visit_value(l, sql, params);
            sql.append(" >= ");
            visit_value(r, sql, params);
            assert(sql@ =~= old(sql)@ + render_compare(c));
            assert(crate::values::params_model(params@) =~= crate::values::params_model(
                old(params)@,
            ) + params_compare(c));
        },
        Compare::In(l, r) => {
            let empty = match &r {
                DatabaseValue::Row(vs) => vs.len() == 0,
                _ => false,
            };
            if empty {
                sql.append("1=0");
            } else {
                visit_value(l, sql, params);
                sql.append(" IN ");
                visit_value(r, sql, params);
                assert(sql@ =~= old(sql)@ + render_compare(c));
                assert(crate::values::params_model(params@) =~= crate::values::params_model(
                    old(params)@,
                ) + params_compare(c));
            }
        },
        Compare::NotIn(l, r) => {
            let empty = match &r {
                DatabaseValue::Row(vs) => vs.len() == 0,
                _ => false,
            };
            if empty {
                sql.append("1=1");
            } else {
                visit_value(l, sql, params);
                sql.append(" NOT IN ");
                visit_value(r, sql, params);
                assert(sql@ =~= old(sql)@ + render_compare(c));
                assert(crate::values::params_model(params@) =~= crate::values::params_model(
                    old(params)@,
                ) + params_compare(c));
            }
        },
        Compare::Like(l, p) => {
            visit_value(l, sql, params);
            sql.append(" LIKE ?");
            let mut wrapped = String::from_str("%");
            wrapped.append(p.as_str());
            wrapped.append("%");
            proof {
                lemma_params_model_push(params@, ParameterizedValue::Text(wrapped));
            }
            params.push(ParameterizedValue::Text(wrapped));
            assert(crate::values::params_model(params@) =~= crate::values::params_model(
                old(params)@,
            ) + params_compare(c));
        },
        Compare::NotLike(l, p) => {
            visit_value(l, sql, params);
            sql.append(" NOT LIKE ?");
            let mut wrapped = String::from_str("%");
            wrapped.append(p.as_str());
            wrapped.append("%");
            proof {
                lemma_params_model_push(params@, ParameterizedValue::Text(wrapped));
            }
            params.push(ParameterizedValue::Text(wrapped));
            assert(crate::values::params_model(params@) =~= crate::values::params_model(
                old(params)@,
            ) + params_compare(c));
        },
        Compare::BeginsWith(l, p) => {
            visit_value(l, sql, params);
            sql.append(" LIKE ?");
            let mut wrapped = p;
            wrapped.append("%");
            proof {
                lemma_params_model_push(params@, ParameterizedValue::Text(wrapped));
            }
            params.push(ParameterizedValue::Text(wrapped));
            assert(crate::values::params_model(params@) =~= crate::values::params_model(
                old(params)@,
            ) + params_compare(c));
        },
        Compare::NotBeginsWith(l, p) => {
            visit_value(l, sql, params);
            sql.append(" NOT LIKE ?");
            let mut wrapped = p;
            wrapped.append("%");
            proof {
                lemma_params_model_push(params@, ParameterizedValue::Text(wrapped));
            }
            params.push(ParameterizedValue::Text(wrapped));
            assert(crate::values::params_model(params@) =~= crate::values::params_model(
                old(params)@,
            ) + params_compare(c));
        },
        Compare::EndsInto(l, p) => {
            visit_value(l, sql, params);
            sql.append(" LIKE ?");
            let mut wrapped = String::from_str("%");
            wrapped.append(p.as_str());
            proof {
                lemma_params_model_push(params@, ParameterizedValue::Text(wrapped));
            }
            params.push(ParameterizedValue::Text(wrapped));
            assert(crate::values::params_model(params@) =~= crate::values::params_model(
                old(params)@,
            ) + params_compare(c));
        },
        Compare::NotEndsInto(l, p) => {
            visit_value(l, sql, params);
            sql.append(" NOT LIKE ?");
            let mut wrapped = String::from_str("%");
            wrapped.append(p.as_str());
            proof {
                lemma_params_model_push(params@, ParameterizedValue::Text(wrapped));
            }
            params.push(ParameterizedValue::Text(wrapped));
            assert(crate::values::params_model(params@) =~= crate::values::params_model(
                old(params)@,
            ) + params_compare(c));
        },
        Compare::Null(v) => {
            visit_value(v, sql, params);
            sql.append(" IS NULL");
        },
        Compare::NotNull(v) => {
            visit_value(v, sql, params);
            sql.append(" IS NOT NULL");
        },
        Compare::Between(v, l, r) => {
            visit_value(v, sql, params);
            sql.append(" BETWEEN ");
            visit_value(l, sql, params);
            sql.append(" AND ");
            visit_value(r, sql, params);
            assert(sql@ =~= old(sql)@ + render_compare(c));
            assert(crate::values::params_model(params@) =~= crate::values::params_model(
                old(params)@,
            ) + params_compare(c));
        },
        Compare::NotBetween(v, l, r) => {
            visit_value(v, sql, params);
            sql.append(" NOT BETWEEN ");
            visit_value(l, sql, params);
            sql.append(" AND ");
            visit_value(r, sql, params);
            assert(sql@ =~= old(sql)@ + render_compare(c));
            assert(crate::values::params_model(params@) =~= crate::values::params_model(
                old(params)@,
            ) + params_compare(c));
        },
    }
}

fn visit_expr(e: Expression, sql: &mut String, params: &mut Vec<ParameterizedValue>)
    ensures
        final(sql)@ == old(sql)@ + render_expr(e),
        crate::values::params_model(final(params)@) == crate::values::params_model(old(params)@)
            + params_expr(e),
    decreases e, 0nat,
{
    match e {
        Expression::Compare(c) => {
            visit_compare(c, sql, params);
        },
        Expression::Value(v) => {
            visit_value(v, sql, params);
        },
        Expression::ConditionTree(t) => {
            sql.append("(");
            visit_tree(*t, sql, params);
            sql.append(")");
            assert(sql@ =~= old(sql)@ + render_expr(e));
        },
    }
}

fn visit_tree(t: ConditionTree, sql: &mut String, params: &mut Vec<ParameterizedValue>)
    ensures
        final(sql)@ == old(sql)@ + render_tree(t),
        crate::values::params_model(final(params)@) == crate::values::params_model(old(params)@)
            + params_tree(t),
    decreases t, 0nat,
{
    match t {
        ConditionTree::And(cs) => {
            if cs.len() == 0 {
                sql.append("1=1");
                assert(crate::values::params_model(params@) =~= crate::values::params_model(
                    old(params)@,
                ) + params_tree_list(cs@));
            } else {
                visit_tree_list(cs, " AND ", sql, params);
            }
        },
        ConditionTree::Or(cs) => {
            if cs.len() == 0 {
                sql.append("1=0");
                assert(crate::values::params_model(params@) =~= crate::values::params_model(
                    old(params)@,
                ) + params_tree_list(cs@));
            } else {
                visit_tree_list(cs, " OR ", sql, params);
            }
        },
        ConditionTree::Not(c) => {
            sql.append("(NOT ");
            visit_child(*c, sql, params);
            sql.append(")");
            assert(sql@ =~= old(sql)@ + render_tree(t));
        },
        ConditionTree::Single(e) => {
            visit_expr(e, sql, params);
        },
    }
}

fn visit_child(t: ConditionTree, sql: &mut String, params: &mut Vec<ParameterizedValue>)
    ensures
        final(sql)@ == old(sql)@ + render_child(t),
        crate::values::params_model(final(params)@) == crate::values::params_model(old(params)@)
            + params_tree(t),
    decreases t, 1nat,
{
    let is_single = match &t {
        ConditionTree::Single(_) => true,
        _ => false,
    };
    if is_single {
        visit_tree(t, sql, params);
    } else {
        sql.append("(");
        visit_tree(t, sql, params);
        sql.append(")");
        assert(sql@ =~= old(sql)@ + render_child(t));
    }
}

fn visit_tree_list(
    ts: Vec<ConditionTree>,
    sep: &str,
    sql: &mut String,
    params: &mut Vec<ParameterizedValue>,
)
    ensures
        final(sql)@ == old(sql)@ + render_tree_list(ts@, sep@),
        crate::values::params_model(final(params)@) == crate::values::params_model(old(params)@)
            + params_tree_list(ts@),
    decreases ts@, 2nat,
{
    let ghost ts0 = ts@;
    let mut ts = ts;
    if ts.len() == 0 {
        assert(crate::values::params_model(params@) =~= crate::values::params_model(old(params)@)
            + params_tree_list(ts0));
        assert(sql@ =~= old(sql)@ + render_tree_list(ts0, sep@));
        return ;
    }
    let head = ts.remove(0);
    proof {
        assert(ts@ =~= ts0.drop_first());
        assert(head == ts0[0]);
    }
    visit_child(head, sql, params);
    if ts.len() > 0 {
        sql.append(sep);
    }
    visit_tree_list(ts, sep, sql, params);
    assert(sql@ =~= old(sql)@ + render_tree_list(ts0, sep@));
    assert(crate::values::params_model(params@) =~= crate::values::params_model(old(params)@)
        + params_tree_list(ts0));
}

fn visit_ordering_list(
    os: Vec<(DatabaseValue, Option<Order>)>,
    sql: &mut String,
    params: &mut Vec<ParameterizedValue>,
)
    ensures
        final(sql)@ == old(sql)@ + render_ordering_list(os@),
        crate::values::params_model(final(params)@) == crate::values::params_model(old(params)@)
            + params_ordering_list(os@),
    decreases os@, 0nat,
{
    let ghost os0 = os@;
    let mut os = os;
    if os.len() == 0 {
        assert(crate::values::params_model(params@) =~= crate::values::params_model(old(params)@)
            + params_ordering_list(os0));
        assert(sql@ =~= old(sql)@ + render_ordering_list(os0));
        return ;
    }
    let head = os.remove(0);
    proof {
        assert(os@ =~= os0.drop_first());
        assert(head == os0[0]);
    }
    let (value, direction) = head;
    visit_value(value, sql, params);
    match direction {
        Some(Order::Ascending) => sql.append(" ASC"),
        Some(Order::Descending) => sql.append(" DESC"),
        None => {},
    }
    if os.len() > 0 {
        sql.append(", ");
    }
    visit_ordering_list(os, sql, params);
    assert(sql@ =~= old(sql)@ + render_ordering_list(os0));
    assert(crate::values::params_model(params@) =~= crate::values::params_model(old(params)@)
        + params_ordering_list(os0));
}

#[verifier::rlimit(100)]
#[verifier::spinoff_prover]
fn visit_select(q: Select, sql: &mut String, params: &mut Vec<ParameterizedValue>)
    ensures
        final(sql)@ == old(sql)@ + render_select(q),
        crate::values::params_model(final(params)@) == crate::values::params_model(old(params)@)
            + params_select(q),
    decreases q, 2nat,
{
    let Select { table, columns, conditions, ordering, limit, offset } = q;
    sql.append("SELECT ");
    visit_projections(&table, columns, sql, params);
    sql.append(" FROM ");
    visit_table_from(&table, sql);
    visit_where(conditions, sql, params);
    visit_order_clause(ordering, sql, params);
    visit_limit_offset(limit, offset, sql, params);
    assert(sql@ =~= old(sql)@ + render_select(q));
    assert(crate::values::params_model(params@) =~= crate::values::params_model(old(params)@)
        + params_select(q));
}

fn visit_projections(
    table: &Table,
    columns: Vec<DatabaseValue>,
    sql: &mut String,
    params: &mut Vec<ParameterizedValue>,
)
    ensures
        final(sql)@ == old(sql)@ + render_projections(*table, columns@),
        crate::values::params_model(final(params)@) == crate::values::params_model(old(params)@)
            + params_value_list(columns@),
    decreases columns@, 2nat,
{
    if columns.len() == 0 {
        visit_table(table, sql);
        sql.append(".*");
        assert(crate::values::params_model(params@) =~= crate::values::params_model(old(params)@)
            + params_value_list(columns@));
        assert(sql@ =~= old(sql)@ + render_projections(*table, columns@));
    } else {
        visit_projection_list(columns, sql, params);
    }
}

fn visit_where(
    conditions: Option<ConditionTree>,
    sql: &mut String,
    params: &mut Vec<ParameterizedValue>,
)
    ensures
        final(sql)@ == old(sql)@ + render_where(conditions),
        crate::values::params_model(final(params)@) == crate::values::params_model(old(params)@)
            + params_where(conditions),
    decreases conditions, 1nat,
{
    match conditions {
        Some(tree) => {
            sql.append(" WHERE ");
            visit_tree(tree, sql, params);
            assert(sql@ =~= old(sql)@ + render_where(conditions));
        },
        None => {
            assert(sql@ =~= old(sql)@ + render_where(conditions));
            assert(crate::values::params_model(params@) =~= crate::values::params_model(
                old(params)@,
            ) + params_where(conditions));
        },
    }
}

fn visit_order_clause(
    ordering: Vec<(DatabaseValue, Option<Order>)>,
    sql: &mut String,
    params: &mut Vec<ParameterizedValue>,
)
    ensures
        final(sql)@ == old(sql)@ + render_order_clause(ordering@),
        crate::values::params_model(final(params)@) == crate::values::params_model(old(params)@)
            + params_ordering_list(ordering@),
    decreases ordering@, 1nat,
{
    if ordering.len() > 0 {
        sql.append(" ORDER BY ");
        visit_ordering_list(ordering, sql, params);
        assert(sql@ =~= old(sql)@ + render_order_clause(ordering@));
    } else {
        assert(sql@ =~= old(sql)@ + render_order_clause(ordering@));
        assert(crate::values::params_model(params@) =~= crate::values::params_model(old(params)@)
            + params_ordering_list(ordering@));
    }
}

fn visit_limit_offset(
    limit: Option<u32>,
    offset: Option<u32>,
    sql: &mut String,
    params: &mut Vec<ParameterizedValue>,
)
    ensures
        final(sql)@ == old(sql)@ + render_limit_clause(limit) + render_offset_clause(offset),
        crate::values::params_model(final(params)@) == crate::values::params_model(old(params)@)
            + params_limit(limit) + params_offset(offset),
{
    match limit {
        Some(l) => {
            sql.append(" LIMIT ?");
            proof {
                lemma_params_model_push(params@, ParameterizedValue::Integer(l as i64));
            }
            params.push(ParameterizedValue::Integer(l as i64));
        },
        None => {},
    }
    match offset {
        Some(o) => {
            sql.append(" OFFSET ?");
            proof {
                lemma_params_model_push(params@, ParameterizedValue::Integer(o as i64));
            }
            params.push(ParameterizedValue::Integer(o as i64));
        },
        None => {},
    }
    assert(sql@ =~= old(sql)@ + render_limit_clause(limit) + render_offset_clause(offset));
    assert(crate::values::params_model(params@) =~= crate::values::params_model(old(params)@)
        + params_limit(limit) + params_offset(offset));
}

/// The renderer for the dialect that quotes identifiers with backticks and
/// binds every value through a positional `?` placeholder.
pub struct Sqlite;

impl Sqlite {
    /// Compile a `SELECT` statement into SQL text and its ordered parameter
    /// list. The text is exactly [`render_select`] of the tree and the
    /// parameters are exactly [`params_select`] of it: rendering is total,
    /// deterministic, and free of hidden state.
    pub fn build(query: Select) -> (r: (String, Vec<ParameterizedValue>))
        ensures
            r.0@ == render_select(query),
            crate::values::params_model(r.1@) == params_select(query),
    {
        let mut sql = String::new();
        let mut params: Vec<ParameterizedValue> = Vec::new();
        proof {
            assert(crate::values::params_model(params@) =~= Seq::<ParamModel>::empty());
        }
        visit_select(query, &mut sql, &mut params);
        proof {
            assert(crate::values::params_model(params@) =~= Seq::<ParamModel>::empty()
                + params_select(query));
            assert(Seq::<ParamModel>::empty() + params_select(query) =~= params_select(query));
        }
        (sql, params)
    }
}

} // verus!
