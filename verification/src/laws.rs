use vstd::prelude::*;

use crate::column::Column;
use crate::compare::Compare;
use crate::function::{FunctionType, Order, Over};
use crate::select::Select;
use crate::table::Table;
use crate::tree::{ConditionTree, Expression};
use crate::values::{ParamModel, DatabaseValue};
use crate::visitor::{
    is_empty_row, order_suffix, params_compare, params_expr, params_function_type, params_limit,
    params_offset, params_ordering_list, params_select, params_tree, params_tree_list,
    params_value, params_value_list, params_where, quoted, render_child, render_column,
    render_column_list, render_compare, render_expr, render_function_type, render_limit_clause,
    render_offset_clause, render_order_clause, render_ordering_list, render_over,
    render_over_ordering, render_projection, render_projection_list, render_projections,
    render_select, render_table, render_table_from, render_tree, render_tree_list, render_value,
    render_value_list, render_where,
};

verus! {

// ---------------------------------------------------------------------------
// Placeholder/parameter correspondence: for every well-formed tree, the
// number of `?` tokens in the rendered text equals the length of the
// returned parameter list, so binding the parameters in order fills the
// placeholders in order, nested sub-selects included.
// ---------------------------------------------------------------------------

/// How many placeholder tokens a piece of rendered text holds.
pub open spec fn qmark_count(s: Seq<char>) -> nat
    decreases s.len(),
{
    if s.len() == 0 {
        0
    } else {
        (if s[0] == '?' {
            1nat
        } else {
            0nat
        }) + qmark_count(s.drop_first())
    }
}

/// An identifier that the quoting scheme can carry into the text: non-empty,
/// as the data model demands, and free of the placeholder token, the quote
/// character and parentheses, so that quoted schema vocabulary can never
/// masquerade as a parameter slot or disturb the grouping around it.
pub open spec fn ident_ok(s: Seq<char>) -> bool {
    s.len() > 0 && forall|i: int|
        0 <= i < s.len() ==> s[i] != '?' && s[i] != '`' && s[i] != '(' && s[i] != ')'
}

pub open spec fn wf_table(t: Table) -> bool {
    &&& ident_ok(t.name@)
    &&& (t.database matches Some(d) ==> ident_ok(d@))
    &&& (t.alias matches Some(a) ==> ident_ok(a@))
}

pub open spec fn wf_column(c: Column) -> bool {
    &&& ident_ok(c.name@)
    &&& (c.table matches Some(t) ==> wf_table(t))
    &&& (c.alias matches Some(a) ==> ident_ok(a@))
}

pub open spec fn wf_column_list(cs: Seq<Column>) -> bool
    decreases cs.len(),
{
    cs.len() == 0 || (wf_column(cs[0]) && wf_column_list(cs.drop_first()))
}

pub open spec fn wf_over_ordering(os: Seq<(Column, Option<Order>)>) -> bool
    decreases os.len(),
{
    os.len() == 0 || (wf_column(os[0].0) && wf_over_ordering(os.drop_first()))
}

pub open spec fn wf_over(o: Over) -> bool {
    wf_column_list(o.partitioning@) && wf_over_ordering(o.ordering@)
}

pub open spec fn wf_value(v: DatabaseValue) -> bool
    decreases v, 0nat,
{
    match v {
        DatabaseValue::Parameterized(_) => true,
        DatabaseValue::Column(c) => wf_column(c),
        DatabaseValue::Row(vs) => wf_value_list(vs@),
        DatabaseValue::Select(s) => wf_select(*s),
        DatabaseValue::Function(f) => wf_function_type(f.typ) && (f.alias matches Some(a)
            ==> ident_ok(a@)),
    }
}

pub open spec fn wf_value_list(vs: Seq<DatabaseValue>) -> bool
    decreases vs, 0nat,
{
    vs.len() == 0 || (wf_value(vs[0]) && wf_value_list(vs.drop_first()))
}

pub open spec fn wf_function_type(t: FunctionType) -> bool
    decreases t, 0nat,
{
    match t {
        FunctionType::RowNumber(rn) => wf_over(rn.over),
        FunctionType::Count(args) => wf_value_list(args@),
    }
}

pub open spec fn wf_compare(c: Compare) -> bool
    decreases c, 0nat,
{
    match c {
        Compare::Equals(l, r) => wf_value(l) && wf_value(r),
        Compare::NotEquals(l, r) => wf_value(l) && wf_value(r),
        Compare::LessThan(l, r) => wf_value(l) && wf_value(r),
        Compare::LessThanOrEquals(l, r) => wf_value(l) && wf_value(r),
        Compare::GreaterThan(l, r) => wf_value(l) && wf_value(r),
        Compare::GreaterThanOrEquals(l, r) => wf_value(l) && wf_value(r),
        Compare::In(l, r) => wf_value(l) && wf_value(r),
        Compare::NotIn(l, r) => wf_value(l) && wf_value(r),
        Compare::Like(l, _) => wf_value(l),
        Compare::NotLike(l, _) => wf_value(l),
        Compare::BeginsWith(l, _) => wf_value(l),
        Compare::NotBeginsWith(l, _) => wf_value(l),
        Compare::EndsInto(l, _) => wf_value(l),
        Compare::NotEndsInto(l, _) => wf_value(l),
        Compare::Null(v) => wf_value(v),
        Compare::NotNull(v) => wf_value(v),
        Compare::Between(v, l, r) => wf_value(v) && wf_value(l) && wf_value(r),
        Compare::NotBetween(v, l, r) => wf_value(v) && wf_value(l) && wf_value(r),
    }
}

pub open spec fn wf_expr(e: Expression) -> bool
    decreases e, 0nat,
{
    match e {
        Expression::Compare(c) => wf_compare(c),
        Expression::Value(v) => wf_value(v),
        Expression::ConditionTree(t) => wf_tree(*t),
    }
}

pub open spec fn wf_tree(t: ConditionTree) -> bool
    decreases t, 0nat,
{
    match t {
        ConditionTree::And(cs) => wf_tree_list(cs@),
        ConditionTree::Or(cs) => wf_tree_list(cs@),
        ConditionTree::Not(c) => wf_tree(*c),
        ConditionTree::Single(e) => wf_expr(e),
    }
}

pub open spec fn wf_tree_list(ts: Seq<ConditionTree>) -> bool
    decreases ts, 2nat,
{
    ts.len() == 0 || (wf_tree(ts[0]) && wf_tree_list(ts.drop_first()))
}

pub open spec fn wf_ordering_list(os: Seq<(DatabaseValue, Option<Order>)>) -> bool
    decreases os, 0nat,
{
    os.len() == 0 || (wf_value(os[0].0) && wf_ordering_list(os.drop_first()))
}

/// A well-formed statement: every identifier anywhere in the tree is
/// non-empty and free of the placeholder token.
pub open spec fn wf_select(q: Select) -> bool
    decreases q, 2nat,
{
    &&& wf_table(q.table)
    &&& wf_value_list(q.columns@)
    &&& (q.conditions matches Some(t) ==> wf_tree(t))
    &&& wf_ordering_list(q.ordering@)
}

// ---------------------------------------------------------------------------
// Counting machinery.
// ---------------------------------------------------------------------------

/// Placeholder counting distributes over concatenation.
proof fn lemma_count_add(a: Seq<char>, b: Seq<char>)
    ensures
        qmark_count(a + b) == qmark_count(a) + qmark_count(b),
    decreases a.len(),
{
    if a.len() == 0 {
        assert(a + b =~= b);
    } else {
        assert((a + b).drop_first() =~= a.drop_first() + b);
        lemma_count_add(a.drop_first(), b);
    }
}

/// Text without the placeholder character holds no placeholder.
proof fn lemma_qfree_count(s: Seq<char>)
    requires
        forall|i: int| 0 <= i < s.len() ==> s[i] != '?',
    ensures
        qmark_count(s) == 0,
    decreases s.len(),
{
    if s.len() > 0 {
        lemma_qfree_count(s.drop_first());
    }
}

/// A quoted identifier holds no placeholder.
proof fn lemma_count_quoted(name: Seq<char>)
    requires
        ident_ok(name),
    ensures
        qmark_count(quoted(name)) == 0,
{
    reveal_strlit("`");
    reveal_with_fuel(qmark_count, 3);
    lemma_count_add("`"@ + name, "`"@);
    lemma_count_add("`"@, name);
    lemma_qfree_count(name);
    assert(qmark_count("`"@) == 0);
}

/// The fixed text the identifier clauses use holds no placeholder.
proof fn lemma_lits_idents()
    ensures
        qmark_count("."@) == 0,
        qmark_count(" AS "@) == 0,
        qmark_count(".*"@) == 0,
        qmark_count(", "@) == 0,
        qmark_count("("@) == 0,
        qmark_count(")"@) == 0,
        qmark_count(" ASC"@) == 0,
        qmark_count(" DESC"@) == 0,
{
    reveal_strlit(".");
    reveal_strlit(" AS ");
    reveal_strlit(".*");
    reveal_strlit(", ");
    reveal_strlit("(");
    reveal_strlit(")");
    reveal_strlit(" ASC");
    reveal_strlit(" DESC");
    reveal_with_fuel(qmark_count, 7);
}

/// The fixed text of the function clauses holds no placeholder.
proof fn lemma_lits_functions()
    ensures
        qmark_count("ROW_NUMBER() OVER("@) == 0,
        qmark_count("COUNT("@) == 0,
        qmark_count("PARTITION BY "@) == 0,
        qmark_count("ORDER BY "@) == 0,
        qmark_count(" ORDER BY "@) == 0,
{
    reveal_strlit("ROW_NUMBER() OVER(");
    reveal_strlit("COUNT(");
    reveal_strlit("PARTITION BY ");
    reveal_strlit("ORDER BY ");
    reveal_strlit(" ORDER BY ");
    reveal_with_fuel(qmark_count, 20);
}

/// The fixed text of the comparison operators holds no placeholder; the
/// `LIKE` family's text holds exactly the one placeholder it binds.
proof fn lemma_lits_compare()
    ensures
        qmark_count(" = "@) == 0,
        qmark_count(" <> "@) == 0,
        qmark_count(" < "@) == 0,
        qmark_count(" <= "@) == 0,
        qmark_count(" > "@) == 0,
        qmark_count(" >= "@) == 0,
        qmark_count(" IN "@) == 0,
        qmark_count(" NOT IN "@) == 0,
        qmark_count(" LIKE ?"@) == 1,
        qmark_count(" NOT LIKE ?"@) == 1,
        qmark_count(" IS NULL"@) == 0,
        qmark_count(" IS NOT NULL"@) == 0,
        qmark_count(" BETWEEN "@) == 0,
        qmark_count(" NOT BETWEEN "@) == 0,
        qmark_count(" AND "@) == 0,
        qmark_count("?"@) == 1,
{
    reveal_strlit(" = ");
    reveal_strlit(" <> ");
    reveal_strlit(" < ");
    reveal_strlit(" <= ");
    reveal_strlit(" > ");
    reveal_strlit(" >= ");
    reveal_strlit(" IN ");
    reveal_strlit(" NOT IN ");
    reveal_strlit(" LIKE ?");
    reveal_strlit(" NOT LIKE ?");
    reveal_strlit(" IS NULL");
    reveal_strlit(" IS NOT NULL");
    reveal_strlit(" BETWEEN ");
    reveal_strlit(" NOT BETWEEN ");
    reveal_strlit(" AND ");
    reveal_strlit("?");
    reveal_with_fuel(qmark_count, 14);
}

/// The fixed text of the statement clauses: only `LIMIT` and `OFFSET` carry
/// a placeholder, one each.
proof fn lemma_lits_select()
    ensures
        qmark_count("SELECT "@) == 0,
        qmark_count(" FROM "@) == 0,
        qmark_count(" WHERE "@) == 0,
        qmark_count(" OR "@) == 0,
        qmark_count("1=1"@) == 0,
        qmark_count("1=0"@) == 0,
        qmark_count("(NOT "@) == 0,
        qmark_count(" LIMIT ?"@) == 1,
        qmark_count(" OFFSET ?"@) == 1,
{
    reveal_strlit("SELECT ");
    reveal_strlit(" FROM ");
    reveal_strlit(" WHERE ");
    reveal_strlit(" OR ");
    reveal_strlit("1=1");
    reveal_strlit("1=0");
    reveal_strlit("(NOT ");
    reveal_strlit(" LIMIT ?");
    reveal_strlit(" OFFSET ?");
    reveal_with_fuel(qmark_count, 11);
}

proof fn p1_table(t: Table)
    requires
        wf_table(t),
    ensures
        qmark_count(render_table(t)) == 0,
{
    lemma_lits_idents();
    match t.database {
        Some(db) => {
            lemma_count_quoted(db@);
            lemma_count_quoted(t.name@);
            lemma_count_add(quoted(db@), "."@);
            lemma_count_add(quoted(db@) + "."@, quoted(t.name@));
        },
        None => {
            lemma_count_quoted(t.name@);
        },
    }
}

proof fn p1_table_from(t: Table)
    requires
        wf_table(t),
    ensures
        qmark_count(render_table_from(t)) == 0,
{
    p1_table(t);
    lemma_lits_idents();
    match t.alias {
        Some(a) => {
            lemma_count_quoted(a@);
            lemma_count_add(render_table(t), " AS "@);
            lemma_count_add(render_table(t) + " AS "@, quoted(a@));
        },
        None => {},
    }
}

proof fn p1_column(c: Column)
    requires
        wf_column(c),
    ensures
        qmark_count(render_column(c)) == 0,
{
    lemma_lits_idents();
    lemma_count_quoted(c.name@);
    match c.table {
        Some(t) => {
            p1_table(t);
            lemma_count_add(render_table(t), "."@);
            lemma_count_add(render_table(t) + "."@, quoted(c.name@));
        },
        None => {},
    }
}

proof fn p1_column_list(cs: Seq<Column>)
    requires
        wf_column_list(cs),
    ensures
        qmark_count(render_column_list(cs)) == 0,
    decreases cs.len(),
{
    lemma_lits_idents();
    if cs.len() == 0 {
    } else if cs.len() == 1 {
        p1_column(cs[0]);
    } else {
        p1_column(cs[0]);
        p1_column_list(cs.drop_first());
        lemma_count_add(render_column(cs[0]), ", "@);
        lemma_count_add(render_column(cs[0]) + ", "@, render_column_list(cs.drop_first()));
    }
}

proof fn p1_over_ordering(os: Seq<(Column, Option<Order>)>)
    requires
        wf_over_ordering(os),
    ensures
        qmark_count(render_over_ordering(os)) == 0,
    decreases os.len(),
{
    lemma_lits_idents();
    reveal_with_fuel(qmark_count, 1);
    if os.len() == 0 {
    } else {
        p1_column(os[0].0);
        lemma_count_add(render_column(os[0].0), order_suffix(os[0].1));
        assert(qmark_count(order_suffix(os[0].1)) == 0) by {
            match os[0].1 {
                Some(Order::Ascending) => {},
                Some(Order::Descending) => {},
                None => {},
            }
        }
        if os.len() > 1 {
            p1_over_ordering(os.drop_first());
            lemma_count_add(render_column(os[0].0) + order_suffix(os[0].1), ", "@);
            lemma_count_add(
                render_column(os[0].0) + order_suffix(os[0].1) + ", "@,
                render_over_ordering(os.drop_first()),
            );
        }
    }
}

proof fn p1_over(o: Over)
    requires
        wf_over(o),
    ensures
        qmark_count(render_over(o)) == 0,
{
    lemma_lits_functions();
    p1_column_list(o.partitioning@);
    p1_over_ordering(o.ordering@);
    if o.partitioning@.len() == 0 && o.ordering@.len() == 0 {
    } else if o.ordering@.len() == 0 {
        lemma_count_add("PARTITION BY "@, render_column_list(o.partitioning@));
    } else if o.partitioning@.len() == 0 {
        lemma_count_add("ORDER BY "@, render_over_ordering(o.ordering@));
    } else {
        lemma_count_add("PARTITION BY "@, render_column_list(o.partitioning@));
        lemma_count_add(
            "PARTITION BY "@ + render_column_list(o.partitioning@),
            " ORDER BY "@,
        );
        lemma_count_add(
            "PARTITION BY "@ + render_column_list(o.partitioning@) + " ORDER BY "@,
            render_over_ordering(o.ordering@),
        );
    }
}

proof fn p1_value(v: DatabaseValue)
    requires
        wf_value(v),
    ensures
        qmark_count(render_value(v)) == params_value(v).len(),
    decreases v, 0nat,
{
    lemma_lits_idents();
    lemma_lits_compare();
    match v {
        DatabaseValue::Parameterized(_) => {},
        DatabaseValue::Column(c) => {
            p1_column(c);
        },
        DatabaseValue::Row(vs) => {
            p1_value_list(vs@);
            lemma_count_add("("@, render_value_list(vs@));
            lemma_count_add("("@ + render_value_list(vs@), ")"@);
        },
        DatabaseValue::Select(s) => {
            p1_select(*s);
            lemma_count_add("("@, render_select(*s));
            lemma_count_add("("@ + render_select(*s), ")"@);
        },
        DatabaseValue::Function(f) => {
            p1_function_type(f.typ);
        },
    }
}

proof fn p1_value_list(vs: Seq<DatabaseValue>)
    requires
        wf_value_list(vs),
    ensures
        qmark_count(render_value_list(vs)) == params_value_list(vs).len(),
    decreases vs, 0nat,
{
    lemma_lits_idents();
    if vs.len() == 0 {
        reveal_with_fuel(qmark_count, 1);
    } else if vs.len() == 1 {
        p1_value(vs[0]);
        assert(params_value_list(vs.drop_first()).len() == 0);
    } else {
        p1_value(vs[0]);
        p1_value_list(vs.drop_first());
        lemma_count_add(render_value(vs[0]), ", "@);
        lemma_count_add(render_value(vs[0]) + ", "@, render_value_list(vs.drop_first()));
    }
}

proof fn p1_function_type(t: FunctionType)
    requires
        wf_function_type(t),
    ensures
        qmark_count(render_function_type(t)) == params_function_type(t).len(),
    decreases t, 0nat,
{
    lemma_lits_idents();
    lemma_lits_functions();
    match t {
        FunctionType::RowNumber(rn) => {
            p1_over(rn.over);
            lemma_count_add("ROW_NUMBER() OVER("@, render_over(rn.over));
            lemma_count_add("ROW_NUMBER() OVER("@ + render_over(rn.over), ")"@);
        },
        FunctionType::Count(args) => {
            p1_value_list(args@);
            lemma_count_add("COUNT("@, render_value_list(args@));
            lemma_count_add("COUNT("@ + render_value_list(args@), ")"@);
        },
    }
}

proof fn p1_projection(v: DatabaseValue)
    requires
        wf_value(v),
    ensures
        qmark_count(render_projection(v)) == params_value(v).len(),
    decreases v, 1nat,
{
    lemma_lits_idents();
    match v {
        DatabaseValue::Column(c) => {
            p1_column(c);
            match c.alias {
                Some(a) => {
                    lemma_count_quoted(a@);
                    lemma_count_add(render_column(c), " AS "@);
                    lemma_count_add(render_column(c) + " AS "@, quoted(a@));
                },
                None => {},
            }
        },
        DatabaseValue::Function(f) => {
            p1_function_type(f.typ);
            match f.alias {
                Some(a) => {
                    lemma_count_quoted(a@);
                    lemma_count_add(render_function_type(f.typ), " AS "@);
                    lemma_count_add(render_function_type(f.typ) + " AS "@, quoted(a@));
                },
                None => {},
            }
        },
        _ => {
            p1_value(v);
        },
    }
}

proof fn p1_projection_list(vs: Seq<DatabaseValue>)
    requires
        wf_value_list(vs),
    ensures
        qmark_count(render_projection_list(vs)) == params_value_list(vs).len(),
    decreases vs, 1nat,
{
    lemma_lits_idents();
    if vs.len() == 0 {
        reveal_with_fuel(qmark_count, 1);
    } else if vs.len() == 1 {
        p1_projection(vs[0]);
        assert(params_value_list(vs.drop_first()).len() == 0);
    } else {
        p1_projection(vs[0]);
        p1_projection_list(vs.drop_first());
        lemma_count_add(render_projection(vs[0]), ", "@);
        lemma_count_add(render_projection(vs[0]) + ", "@, render_projection_list(vs.drop_first()));
    }
}

#[verifier::rlimit(100)]
#[verifier::spinoff_prover]
proof fn p1_compare(c: Compare)
    requires
        wf_compare(c),
    ensures
        qmark_count(render_compare(c)) == params_compare(c).len(),
    decreases c, 0nat,
{
    lemma_lits_compare();
    match c {
        Compare::Equals(l, r) => {
            p1_value(l);
            p1_value(r);
            lemma_count_add(render_value(l), " = "@);
            lemma_count_add(render_value(l) + " = "@, render_value(r));
        },
        Compare::NotEquals(l, r) => {
            p1_value(l);
            p1_value(r);
            lemma_count_add(render_value(l), " <> "@);
            lemma_count_add(render_value(l) + " <> "@, render_value(r));
        },
        Compare::LessThan(l, r) => {
            p1_value(l);
            p1_value(r);
            lemma_count_add(render_value(l), " < "@);
            lemma_count_add(render_value(l) + " < "@, render_value(r));
        },
        Compare::LessThanOrEquals(l, r) => {
            p1_value(l);
            p1_value(r);
            lemma_count_add(render_value(l), " <= "@);
            lemma_count_add(render_value(l) + " <= "@, render_value(r));
        },
        Compare::GreaterThan(l, r) => {
            p1_value(l);
            p1_value(r);
            lemma_count_add(render_value(l), " > "@);
            lemma_count_add(render_value(l) + " > "@, render_value(r));
        },
        Compare::GreaterThanOrEquals(l, r) => {
            p1_value(l);
            p1_value(r);
            lemma_count_add(render_value(l), " >= "@);
            lemma_count_add(render_value(l) + " >= "@, render_value(r));
        },
        Compare::In(l, r) => {
            if is_empty_row(r) {
                lemma_lits_select();
            } else {
                p1_value(l);
                p1_value(r);
                lemma_count_add(render_value(l), " IN "@);
                lemma_count_add(render_value(l) + " IN "@, render_value(r));
            }
        },
        Compare::NotIn(l, r) => {
            if is_empty_row(r) {
                lemma_lits_select();
            } else {
                p1_value(l);
                p1_value(r);
                lemma_count_add(render_value(l), " NOT IN "@);
                lemma_count_add(render_value(l) + " NOT IN "@, render_value(r));
            }
        },
        Compare::Like(l, _) => {
            p1_value(l);
            lemma_count_add(render_value(l), " LIKE ?"@);
        },
        Compare::NotLike(l, _) => {
            p1_value(l);
            lemma_count_add(render_value(l), " NOT LIKE ?"@);
        },
        Compare::BeginsWith(l, _) => {
            p1_value(l);
            lemma_count_add(render_value(l), " LIKE ?"@);
        },
        Compare::NotBeginsWith(l, _) => {
            p1_value(l);
            lemma_count_add(render_value(l), " NOT LIKE ?"@);
        },
        Compare::EndsInto(l, _) => {
            p1_value(l);
            lemma_count_add(render_value(l), " LIKE ?"@);
        },
        Compare::NotEndsInto(l, _) => {
            p1_value(l);
            lemma_count_add(render_value(l), " NOT LIKE ?"@);
        },
        Compare::Null(v) => {
            p1_value(v);
            lemma_count_add(render_value(v), " IS NULL"@);
        },
        Compare::NotNull(v) => {
            p1_value(v);
            lemma_count_add(render_value(v), " IS NOT NULL"@);
        },
        Compare::Between(v, l, r) => {
            p1_value(v);
            p1_value(l);
            p1_value(r);
            lemma_count_add(render_value(v), " BETWEEN "@);
            lemma_count_add(render_value(v) + " BETWEEN "@, render_value(l));
            lemma_count_add(render_value(v) + " BETWEEN "@ + render_value(l), " AND "@);
            lemma_count_add(
                render_value(v) + " BETWEEN "@ + render_value(l) + " AND "@,
                render_value(r),
            );
        },
        Compare::NotBetween(v, l, r) => {
            p1_value(v);
            p1_value(l);
            p1_value(r);
            lemma_count_add(render_value(v), " NOT BETWEEN "@);
            lemma_count_add(render_value(v) + " NOT BETWEEN "@, render_value(l));
            lemma_count_add(render_value(v) + " NOT BETWEEN "@ + render_value(l), " AND "@);
            lemma_count_add(
                render_value(v) + " NOT BETWEEN "@ + render_value(l) + " AND "@,
                render_value(r),
            );
        },
    }
}

proof fn p1_expr(e: Expression)
    requires
        wf_expr(e),
    ensures
        qmark_count(render_expr(e)) == params_expr(e).len(),
    decreases e, 0nat,
{
    lemma_lits_idents();
    match e {
        Expression::Compare(c) => {
            p1_compare(c);
        },
        Expression::Value(v) => {
            p1_value(v);
        },
        Expression::ConditionTree(t) => {
            p1_tree(*t);
            lemma_count_add("("@, render_tree(*t));
            lemma_count_add("("@ + render_tree(*t), ")"@);
        },
    }
}

proof fn p1_tree(t: ConditionTree)
    requires
        wf_tree(t),
    ensures
        qmark_count(render_tree(t)) == params_tree(t).len(),
    decreases t, 0nat,
{
    lemma_lits_compare();
    lemma_lits_select();
    lemma_lits_idents();
    match t {
        ConditionTree::And(cs) => {
            if cs@.len() == 0 {
                assert(params_tree_list(cs@) =~= Seq::<ParamModel>::empty());
            } else {
                p1_tree_list(cs@, " AND "@);
            }
        },
        ConditionTree::Or(cs) => {
            if cs@.len() == 0 {
                assert(params_tree_list(cs@) =~= Seq::<ParamModel>::empty());
            } else {
                p1_tree_list(cs@, " OR "@);
            }
        },
        ConditionTree::Not(c) => {
            p1_child(*c);
            lemma_count_add("(NOT "@, render_child(*c));
            lemma_count_add("(NOT "@ + render_child(*c), ")"@);
        },
        ConditionTree::Single(e) => {
            p1_expr(e);
        },
    }
}

proof fn p1_child(t: ConditionTree)
    requires
        wf_tree(t),
    ensures
        qmark_count(render_child(t)) == params_tree(t).len(),
    decreases t, 1nat,
{
    lemma_lits_idents();
    p1_tree(t);
    match t {
        ConditionTree::Single(_) => {},
        _ => {
            lemma_count_add("("@, render_tree(t));
            lemma_count_add("("@ + render_tree(t), ")"@);
        },
    }
}

proof fn p1_tree_list(ts: Seq<ConditionTree>, sep: Seq<char>)
    requires
        wf_tree_list(ts),
        qmark_count(sep) == 0,
    ensures
        qmark_count(render_tree_list(ts, sep)) == params_tree_list(ts).len(),
    decreases ts, 2nat,
{
    if ts.len() == 0 {
        reveal_with_fuel(qmark_count, 1);
    } else if ts.len() == 1 {
        p1_child(ts[0]);
        assert(params_tree_list(ts.drop_first()).len() == 0);
    } else {
        p1_child(ts[0]);
        p1_tree_list(ts.drop_first(), sep);
        lemma_count_add(render_child(ts[0]), sep);
        lemma_count_add(render_child(ts[0]) + sep, render_tree_list(ts.drop_first(), sep));
    }
}

proof fn p1_ordering_list(os: Seq<(DatabaseValue, Option<Order>)>)
    requires
        wf_ordering_list(os),
    ensures
        qmark_count(render_ordering_list(os)) == params_ordering_list(os).len(),
    decreases os, 0nat,
{
    lemma_lits_idents();
    if os.len() == 0 {
        reveal_with_fuel(qmark_count, 1);
    } else {
        p1_value(os[0].0);
        assert(qmark_count(order_suffix(os[0].1)) == 0) by {
            match os[0].1 {
                Some(Order::Ascending) => {},
                Some(Order::Descending) => {},
                None => {},
            }
        }
        lemma_count_add(render_value(os[0].0), order_suffix(os[0].1));
        if os.len() == 1 {
            assert(params_ordering_list(os.drop_first()).len() == 0);
        } else {
            p1_ordering_list(os.drop_first());
            lemma_count_add(render_value(os[0].0) + order_suffix(os[0].1), ", "@);
            lemma_count_add(
                render_value(os[0].0) + order_suffix(os[0].1) + ", "@,
                render_ordering_list(os.drop_first()),
            );
        }
    }
}

proof fn p1_where(c: Option<ConditionTree>)
    requires
        c matches Some(t) ==> wf_tree(t),
    ensures
        qmark_count(render_where(c)) == params_where(c).len(),
    decreases c, 1nat,
{
    lemma_lits_select();
    reveal_with_fuel(qmark_count, 1);
    match c {
        Some(t) => {
            p1_tree(t);
            lemma_count_add(" WHERE "@, render_tree(t));
        },
        None => {},
    }
}

#[verifier::rlimit(100)]
#[verifier::spinoff_prover]
proof fn p1_select(q: Select)
    requires
        wf_select(q),
    ensures
        qmark_count(render_select(q)) == params_select(q).len(),
    decreases q, 2nat,
{
    lemma_lits_select();
    lemma_lits_idents();
    let proj = render_projections(q.table, q.columns@);
    assert(qmark_count(proj) == params_value_list(q.columns@).len()) by {
        lemma_lits_idents();
        if q.columns@.len() == 0 {
            p1_table(q.table);
            lemma_count_add(render_table(q.table), ".*"@);
            reveal_with_fuel(qmark_count, 1);
        } else {
            p1_projection_list(q.columns@);
        }
    }
    p1_table_from(q.table);
    p1_where(q.conditions);
    assert(qmark_count(render_order_clause(q.ordering@)) == params_ordering_list(
        q.ordering@,
    ).len()) by {
        lemma_lits_functions();
        reveal_with_fuel(qmark_count, 1);
        if q.ordering@.len() > 0 {
            p1_ordering_list(q.ordering@);
            lemma_count_add(" ORDER BY "@, render_ordering_list(q.ordering@));
        }
    }
    assert(qmark_count(render_limit_clause(q.limit)) == params_limit(q.limit).len()) by {
        lemma_lits_select();
        reveal_with_fuel(qmark_count, 1);
        match q.limit {
            Some(_) => {},
            None => {},
        }
    }
    assert(qmark_count(render_offset_clause(q.offset)) == params_offset(q.offset).len()) by {
        lemma_lits_select();
        reveal_with_fuel(qmark_count, 1);
        match q.offset {
            Some(_) => {},
            None => {},
        }
    }
    let a1 = "SELECT "@;
    let a2 = a1 + proj;
    let a3 = a2 + " FROM "@;
    let a4 = a3 + render_table_from(q.table);
    let a5 = a4 + render_where(q.conditions);
    let a6 = a5 + render_order_clause(q.ordering@);
    let a7 = a6 + render_limit_clause(q.limit);
    lemma_count_add(a1, proj);
    lemma_count_add(a2, " FROM "@);
    lemma_count_add(a3, render_table_from(q.table));
    lemma_count_add(a4, render_where(q.conditions));
    lemma_count_add(a5, render_order_clause(q.ordering@));
    lemma_count_add(a6, render_limit_clause(q.limit));
    lemma_count_add(a7, render_offset_clause(q.offset));
}

/// Placeholder/parameter correspondence: for every well-formed statement,
/// the rendered text holds exactly as many placeholder tokens as the
/// renderer returns parameters, so binding the parameters in order fills
/// the placeholders in order, nested sub-selects included.
pub proof fn placeholders_match_parameters(q: Select)
    requires
        wf_select(q),
    ensures
        qmark_count(render_select(q)) == params_select(q).len(),
{
    p1_select(q);
}

// ---------------------------------------------------------------------------
// Idempotence: rendering is a pure function of the tree. The renderer's
// contract pins its whole output to `render_select` and `params_select`, so
// any two runs over the same tree return the same text and parameter models.
// ---------------------------------------------------------------------------

/// Any two outputs that satisfy the renderer's contract for the same tree
/// are identical: the text byte for byte, the parameters value for value.
pub proof fn render_is_deterministic(
    q: Select,
    text1: Seq<char>,
    params1: Seq<ParamModel>,
    text2: Seq<char>,
    params2: Seq<ParamModel>,
)
    requires
        text1 == render_select(q),
        params1 == params_select(q),
        text2 == render_select(q),
        params2 == params_select(q),
    ensures
        text1 == text2,
        params1 == params2,
{
}

// ---------------------------------------------------------------------------
// Wildcard wrapping: the `LIKE` family binds its pattern as one parameter,
// wrapped with `%` exactly as the variant demands, and the negated variants
// use the negated keyword with identical wrapping.
// ---------------------------------------------------------------------------

/// `Like`/`NotLike` wrap both sides of the pattern.
pub proof fn like_wraps_both_sides(l: DatabaseValue, p: String)
    ensures
        render_compare(Compare::Like(l, p)) == render_value(l) + " LIKE ?"@,
        params_compare(Compare::Like(l, p)) == params_value(l) + seq![
            ParamModel::Text("%"@ + p@ + "%"@),
        ],
        render_compare(Compare::NotLike(l, p)) == render_value(l) + " NOT LIKE ?"@,
        params_compare(Compare::NotLike(l, p)) == params_compare(Compare::Like(l, p)),
{
}

/// `BeginsWith`/`NotBeginsWith` wrap the end of the pattern only.
pub proof fn begins_with_wraps_end(l: DatabaseValue, p: String)
    ensures
        render_compare(Compare::BeginsWith(l, p)) == render_value(l) + " LIKE ?"@,
        params_compare(Compare::BeginsWith(l, p)) == params_value(l) + seq![
            ParamModel::Text(p@ + "%"@),
        ],
        render_compare(Compare::NotBeginsWith(l, p)) == render_value(l) + " NOT LIKE ?"@,
        params_compare(Compare::NotBeginsWith(l, p)) == params_compare(Compare::BeginsWith(l, p)),
{
}

/// `EndsInto`/`NotEndsInto` wrap the start of the pattern only.
pub proof fn ends_into_wraps_start(l: DatabaseValue, p: String)
    ensures
        render_compare(Compare::EndsInto(l, p)) == render_value(l) + " LIKE ?"@,
        params_compare(Compare::EndsInto(l, p)) == params_value(l) + seq![
            ParamModel::Text("%"@ + p@),
        ],
        render_compare(Compare::NotEndsInto(l, p)) == render_value(l) + " NOT LIKE ?"@,
        params_compare(Compare::NotEndsInto(l, p)) == params_compare(Compare::EndsInto(l, p)),
{
}

// ---------------------------------------------------------------------------
// Empty-tree identities: an empty `And` renders as the always-true filter,
// an empty `Or` as the always-false one, and neither binds a parameter.
// The same identities hold for the `IN` family against an empty list.
// ---------------------------------------------------------------------------

/// An empty `And` is the constant truth, an empty `Or` the constant
/// falsehood; neither emits a placeholder or a parameter.
pub proof fn empty_tree_identities(and_children: Vec<ConditionTree>, or_children: Vec<
    ConditionTree,
>)
    requires
        and_children@.len() == 0,
        or_children@.len() == 0,
    ensures
        render_tree(ConditionTree::And(and_children)) == "1=1"@,
        params_tree(ConditionTree::And(and_children)) == Seq::<ParamModel>::empty(),
        render_tree(ConditionTree::Or(or_children)) == "1=0"@,
        params_tree(ConditionTree::Or(or_children)) == Seq::<ParamModel>::empty(),
{
    assert(params_tree_list(and_children@) =~= Seq::<ParamModel>::empty());
    assert(params_tree_list(or_children@) =~= Seq::<ParamModel>::empty());
}

/// An `IN` against an empty list is the constant falsehood, a `NOT IN` the
/// constant truth; neither emits a placeholder or a parameter.
pub proof fn empty_in_identities(l: DatabaseValue, row: Vec<DatabaseValue>)
    requires
        row@.len() == 0,
    ensures
        render_compare(Compare::In(l, DatabaseValue::Row(row))) == "1=0"@,
        params_compare(Compare::In(l, DatabaseValue::Row(row))) == Seq::<ParamModel>::empty(),
        render_compare(Compare::NotIn(l, DatabaseValue::Row(row))) == "1=1"@,
        params_compare(Compare::NotIn(l, DatabaseValue::Row(row))) == Seq::<ParamModel>::empty(),
{
}

// ---------------------------------------------------------------------------
// Parenthesization safety. Two facts carry it: every compound child of a
// boolean combination is wrapped in parentheses before the combining
// operator touches it, and the grouping of the whole rendered statement is
// balanced, so the wrapping of one child can never leak into the next.
// Re-parse equivalence itself is not stated here.
// ---------------------------------------------------------------------------

/// How a child of an `AND`/`OR` combination reaches the text: a `Single`
/// stands bare, every compound child is parenthesized, whatever its
/// operator, so mixing operators can never rebind a leaf.
pub proof fn compound_children_are_parenthesized(t: ConditionTree)
    ensures
        t matches ConditionTree::Single(_) ==> render_child(t) == render_tree(t),
        !(t matches ConditionTree::Single(_)) ==> render_child(t) == "("@ + render_tree(t)
            + ")"@,
{
}

/// What one character contributes to the nesting depth.
pub open spec fn paren_step(c: char) -> int {
    if c == '(' {
        1
    } else if c == ')' {
        -1
    } else {
        0
    }
}

/// Opening minus closing parentheses over a whole piece of text.
pub open spec fn paren_delta(s: Seq<char>) -> int
    decreases s.len(),
{
    if s.len() == 0 {
        0
    } else {
        paren_step(s[0]) + paren_delta(s.drop_first())
    }
}

pub open spec fn imin(a: int, b: int) -> int {
    if a <= b {
        a
    } else {
        b
    }
}

/// The lowest nesting depth any prefix of the text reaches, never above
/// zero since the empty prefix is one of them.
pub open spec fn min_prefix(s: Seq<char>) -> int
    decreases s.len(),
{
    if s.len() == 0 {
        0
    } else {
        imin(0, paren_step(s[0]) + min_prefix(s.drop_first()))
    }
}

/// Balanced grouping: as many openers as closers, and no prefix closes a
/// group that was never opened.
pub open spec fn paren_balanced(s: Seq<char>) -> bool {
    paren_delta(s) == 0 && min_prefix(s) == 0
}

/// Depth accounting distributes over concatenation.
proof fn lemma_paren_add(a: Seq<char>, b: Seq<char>)
    ensures
        paren_delta(a + b) == paren_delta(a) + paren_delta(b),
        min_prefix(a + b) == imin(min_prefix(a), paren_delta(a) + min_prefix(b)),
    decreases a.len(),
{
    if a.len() == 0 {
        assert(a + b =~= b);
    } else {
        assert((a + b).drop_first() =~= a.drop_first() + b);
        lemma_paren_add(a.drop_first(), b);
    }
}

/// Text without parentheses leaves the depth untouched.
proof fn lemma_pfree(s: Seq<char>)
    requires
        forall|i: int| 0 <= i < s.len() ==> s[i] != '(' && s[i] != ')',
    ensures
        paren_delta(s) == 0,
        min_prefix(s) == 0,
    decreases s.len(),
{
    if s.len() > 0 {
        lemma_pfree(s.drop_first());
    }
}

/// A quoted identifier leaves the depth untouched.
proof fn lemma_paren_quoted(name: Seq<char>)
    requires
        ident_ok(name),
    ensures
        paren_delta(quoted(name)) == 0,
        min_prefix(quoted(name)) == 0,
{
    reveal_strlit("`");
    reveal_with_fuel(paren_delta, 3);
    reveal_with_fuel(min_prefix, 3);
    lemma_paren_add("`"@ + name, "`"@);
    lemma_paren_add("`"@, name);
    lemma_pfree(name);
}

/// The fixed text of the identifier and list clauses leaves the depth
/// untouched; the two bare parentheses move it by one.
proof fn lemma_paren_lits_idents()
    ensures
        paren_delta("."@) == 0 && min_prefix("."@) == 0,
        paren_delta(" AS "@) == 0 && min_prefix(" AS "@) == 0,
        paren_delta(".*"@) == 0 && min_prefix(".*"@) == 0,
        paren_delta(", "@) == 0 && min_prefix(", "@) == 0,
        paren_delta(" ASC"@) == 0 && min_prefix(" ASC"@) == 0,
        paren_delta(" DESC"@) == 0 && min_prefix(" DESC"@) == 0,
        paren_delta("?"@) == 0 && min_prefix("?"@) == 0,
        paren_delta("("@) == 1 && min_prefix("("@) == 0,
        paren_delta(")"@) == -1 && min_prefix(")"@) == -1,
{
    reveal_strlit(".");
    reveal_strlit(" AS ");
    reveal_strlit(".*");
    reveal_strlit(", ");
    reveal_strlit(" ASC");
    reveal_strlit(" DESC");
    reveal_strlit("?");
    reveal_strlit("(");
    reveal_strlit(")");
    reveal_with_fuel(paren_delta, 7);
    reveal_with_fuel(min_prefix, 7);
}

/// The fixed text of the function clauses: the two call-openers raise the
/// depth by one and never drop below it.
proof fn lemma_paren_lits_functions()
    ensures
        paren_delta("ROW_NUMBER() OVER("@) == 1 && min_prefix("ROW_NUMBER() OVER("@) == 0,
        paren_delta("COUNT("@) == 1 && min_prefix("COUNT("@) == 0,
        paren_delta("PARTITION BY "@) == 0 && min_prefix("PARTITION BY "@) == 0,
        paren_delta("ORDER BY "@) == 0 && min_prefix("ORDER BY "@) == 0,
        paren_delta(" ORDER BY "@) == 0 && min_prefix(" ORDER BY "@) == 0,
{
    reveal_strlit("ROW_NUMBER() OVER(");
    reveal_strlit("COUNT(");
    reveal_strlit("PARTITION BY ");
    reveal_strlit("ORDER BY ");
    reveal_strlit(" ORDER BY ");
    reveal_with_fuel(paren_delta, 20);
    reveal_with_fuel(min_prefix, 20);
}

/// The fixed text of the comparison operators leaves the depth untouched.
proof fn lemma_paren_lits_compare()
    ensures
        paren_delta(" = "@) == 0 && min_prefix(" = "@) == 0,
        paren_delta(" <> "@) == 0 && min_prefix(" <> "@) == 0,
        paren_delta(" < "@) == 0 && min_prefix(" < "@) == 0,
        paren_delta(" <= "@) == 0 && min_prefix(" <= "@) == 0,
        paren_delta(" > "@) == 0 && min_prefix(" > "@) == 0,
        paren_delta(" >= "@) == 0 && min_prefix(" >= "@) == 0,
        paren_delta(" IN "@) == 0 && min_prefix(" IN "@) == 0,
        paren_delta(" NOT IN "@) == 0 && min_prefix(" NOT IN "@) == 0,
        paren_delta(" LIKE ?"@) == 0 && min_prefix(" LIKE ?"@) == 0,
        paren_delta(" NOT LIKE ?"@) == 0 && min_prefix(" NOT LIKE ?"@) == 0,
        paren_delta(" IS NULL"@) == 0 && min_prefix(" IS NULL"@) == 0,
        paren_delta(" IS NOT NULL"@) == 0 && min_prefix(" IS NOT NULL"@) == 0,
        paren_delta(" BETWEEN "@) == 0 && min_prefix(" BETWEEN "@) == 0,
        paren_delta(" NOT BETWEEN "@) == 0 && min_prefix(" NOT BETWEEN "@) == 0,
        paren_delta(" AND "@) == 0 && min_prefix(" AND "@) == 0,
{
    reveal_strlit(" = ");
    reveal_strlit(" <> ");
    reveal_strlit(" < ");
    reveal_strlit(" <= ");
    reveal_strlit(" > ");
    reveal_strlit(" >= ");
    reveal_strlit(" IN ");
    reveal_strlit(" NOT IN ");
    reveal_strlit(" LIKE ?");
    reveal_strlit(" NOT LIKE ?");
    reveal_strlit(" IS NULL");
    reveal_strlit(" IS NOT NULL");
    reveal_strlit(" BETWEEN ");
    reveal_strlit(" NOT BETWEEN ");
    reveal_strlit(" AND ");
    reveal_with_fuel(paren_delta, 14);
    reveal_with_fuel(min_prefix, 14);
}

/// The fixed text of the statement clauses: only the `NOT` opener moves
/// the depth.
proof fn lemma_paren_lits_select()
    ensures
        paren_delta("SELECT "@) == 0 && min_prefix("SELECT "@) == 0,
        paren_delta(" FROM "@) == 0 && min_prefix(" FROM "@) == 0,
        paren_delta(" WHERE "@) == 0 && min_prefix(" WHERE "@) == 0,
        paren_delta(" OR "@) == 0 && min_prefix(" OR "@) == 0,
        paren_delta("1=1"@) == 0 && min_prefix("1=1"@) == 0,
        paren_delta("1=0"@) == 0 && min_prefix("1=0"@) == 0,
        paren_delta(" LIMIT ?"@) == 0 && min_prefix(" LIMIT ?"@) == 0,
        paren_delta(" OFFSET ?"@) == 0 && min_prefix(" OFFSET ?"@) == 0,
        paren_delta("(NOT "@) == 1 && min_prefix("(NOT "@) == 0,
{
    reveal_strlit("SELECT ");
    reveal_strlit(" FROM ");
    reveal_strlit(" WHERE ");
    reveal_strlit(" OR ");
    reveal_strlit("1=1");
    reveal_strlit("1=0");
    reveal_strlit(" LIMIT ?");
    reveal_strlit(" OFFSET ?");
    reveal_strlit("(NOT ");
    reveal_with_fuel(paren_delta, 11);
    reveal_with_fuel(min_prefix, 11);
}

proof fn b_table(t: Table)
    requires
        wf_table(t),
    ensures
        paren_balanced(render_table(t)),
{
    lemma_paren_lits_idents();
    match t.database {
        Some(db) => {
            lemma_paren_quoted(db@);
            lemma_paren_quoted(t.name@);
            lemma_paren_add(quoted(db@), "."@);
            lemma_paren_add(quoted(db@) + "."@, quoted(t.name@));
        },
        None => {
            lemma_paren_quoted(t.name@);
        },
    }
}

proof fn b_table_from(t: Table)
    requires
        wf_table(t),
    ensures
        paren_balanced(render_table_from(t)),
{
    b_table(t);
    lemma_paren_lits_idents();
    match t.alias {
        Some(a) => {
            lemma_paren_quoted(a@);
            lemma_paren_add(render_table(t), " AS "@);
            lemma_paren_add(render_table(t) + " AS "@, quoted(a@));
        },
        None => {},
    }
}

proof fn b_column(c: Column)
    requires
        wf_column(c),
    ensures
        paren_balanced(render_column(c)),
{
    lemma_paren_lits_idents();
    lemma_paren_quoted(c.name@);
    match c.table {
        Some(t) => {
            b_table(t);
            lemma_paren_add(render_table(t), "."@);
            lemma_paren_add(render_table(t) + "."@, quoted(c.name@));
        },
        None => {},
    }
}

proof fn b_column_list(cs: Seq<Column>)
    requires
        wf_column_list(cs),
    ensures
        paren_balanced(render_column_list(cs)),
    decreases cs.len(),
{
    lemma_paren_lits_idents();
    reveal_with_fuel(paren_delta, 1);
    reveal_with_fuel(min_prefix, 1);
    if cs.len() == 0 {
    } else if cs.len() == 1 {
        b_column(cs[0]);
    } else {
        b_column(cs[0]);
        b_column_list(cs.drop_first());
        lemma_paren_add(render_column(cs[0]), ", "@);
        lemma_paren_add(render_column(cs[0]) + ", "@, render_column_list(cs.drop_first()));
    }
}

proof fn b_over_ordering(os: Seq<(Column, Option<Order>)>)
    requires
        wf_over_ordering(os),
    ensures
        paren_balanced(render_over_ordering(os)),
    decreases os.len(),
{
    lemma_paren_lits_idents();
    reveal_with_fuel(paren_delta, 1);
    reveal_with_fuel(min_prefix, 1);
    if os.len() == 0 {
    } else {
        b_column(os[0].0);
        assert(paren_delta(order_suffix(os[0].1)) == 0 && min_prefix(order_suffix(os[0].1))
            == 0) by {
            lemma_paren_lits_idents();
            match os[0].1 {
                Some(Order::Ascending) => {},
                Some(Order::Descending) => {},
                None => {},
            }
        }
        lemma_paren_add(render_column(os[0].0), order_suffix(os[0].1));
        if os.len() > 1 {
            b_over_ordering(os.drop_first());
            lemma_paren_add(render_column(os[0].0) + order_suffix(os[0].1), ", "@);
            lemma_paren_add(
                render_column(os[0].0) + order_suffix(os[0].1) + ", "@,
                render_over_ordering(os.drop_first()),
            );
        }
    }
}

proof fn b_over(o: Over)
    requires
        wf_over(o),
    ensures
        paren_balanced(render_over(o)),
{
    lemma_paren_lits_functions();
    b_column_list(o.partitioning@);
    b_over_ordering(o.ordering@);
    if o.partitioning@.len() == 0 && o.ordering@.len() == 0 {
        reveal_with_fuel(paren_delta, 1);
        reveal_with_fuel(min_prefix, 1);
    } else if o.ordering@.len() == 0 {
        lemma_paren_add("PARTITION BY "@, render_column_list(o.partitioning@));
    } else if o.partitioning@.len() == 0 {
        lemma_paren_add("ORDER BY "@, render_over_ordering(o.ordering@));
    } else {
        lemma_paren_add("PARTITION BY "@, render_column_list(o.partitioning@));
        lemma_paren_add("PARTITION BY "@ + render_column_list(o.partitioning@), " ORDER BY "@);
        lemma_paren_add(
            "PARTITION BY "@ + render_column_list(o.partitioning@) + " ORDER BY "@,
            render_over_ordering(o.ordering@),
        );
    }
}

proof fn b_value(v: DatabaseValue)
    requires
        wf_value(v),
    ensures
        paren_balanced(render_value(v)),
    decreases v, 0nat,
{
    lemma_paren_lits_idents();
    match v {
        DatabaseValue::Parameterized(_) => {},
        DatabaseValue::Column(c) => {
            b_column(c);
        },
        DatabaseValue::Row(vs) => {
            b_value_list(vs@);
            lemma_paren_add("("@, render_value_list(vs@));
            lemma_paren_add("("@ + render_value_list(vs@), ")"@);
        },
        DatabaseValue::Select(s) => {
            b_select(*s);
            lemma_paren_add("("@, render_select(*s));
            lemma_paren_add("("@ + render_select(*s), ")"@);
        },
        DatabaseValue::Function(f) => {
            b_function_type(f.typ);
        },
    }
}

proof fn b_value_list(vs: Seq<DatabaseValue>)
    requires
        wf_value_list(vs),
    ensures
        paren_balanced(render_value_list(vs)),
    decreases vs, 0nat,
{
    lemma_paren_lits_idents();
    reveal_with_fuel(paren_delta, 1);
    reveal_with_fuel(min_prefix, 1);
    if vs.len() == 0 {
    } else if vs.len() == 1 {
        b_value(vs[0]);
    } else {
        b_value(vs[0]);
        b_value_list(vs.drop_first());
        lemma_paren_add(render_value(vs[0]), ", "@);
        lemma_paren_add(render_value(vs[0]) + ", "@, render_value_list(vs.drop_first()));
    }
}

proof fn b_function_type(t: FunctionType)
    requires
        wf_function_type(t),
    ensures
        paren_balanced(render_function_type(t)),
    decreases t, 0nat,
{
    lemma_paren_lits_idents();
    lemma_paren_lits_functions();
    match t {
        FunctionType::RowNumber(rn) => {
            b_over(rn.over);
            lemma_paren_add("ROW_NUMBER() OVER("@, render_over(rn.over));
            lemma_paren_add("ROW_NUMBER() OVER("@ + render_over(rn.over), ")"@);
        },
        FunctionType::Count(args) => {
            b_value_list(args@);
            lemma_paren_add("COUNT("@, render_value_list(args@));
            lemma_paren_add("COUNT("@ + render_value_list(args@), ")"@);
        },
    }
}

proof fn b_projection(v: DatabaseValue)
    requires
        wf_value(v),
    ensures
        paren_balanced(render_projection(v)),
    decreases v, 1nat,
{
    lemma_paren_lits_idents();
    match v {
        DatabaseValue::Column(c) => {
            b_column(c);
            match c.alias {
                Some(a) => {
                    lemma_paren_quoted(a@);
                    lemma_paren_add(render_column(c), " AS "@);
                    lemma_paren_add(render_column(c) + " AS "@, quoted(a@));
                },
                None => {},
            }
        },
        DatabaseValue::Function(f) => {
            b_function_type(f.typ);
            match f.alias {
                Some(a) => {
                    lemma_paren_quoted(a@);
                    lemma_paren_add(render_function_type(f.typ), " AS "@);
                    lemma_paren_add(render_function_type(f.typ) + " AS "@, quoted(a@));
                },
                None => {},
            }
        },
        _ => {
            b_value(v);
        },
    }
}

proof fn b_projection_list(vs: Seq<DatabaseValue>)
    requires
        wf_value_list(vs),
    ensures
        paren_balanced(render_projection_list(vs)),
    decreases vs, 1nat,
{
    lemma_paren_lits_idents();
    reveal_with_fuel(paren_delta, 1);
    reveal_with_fuel(min_prefix, 1);
    if vs.len() == 0 {
    } else if vs.len() == 1 {
        b_projection(vs[0]);
    } else {
        b_projection(vs[0]);
        b_projection_list(vs.drop_first());
        lemma_paren_add(render_projection(vs[0]), ", "@);
        lemma_paren_add(render_projection(vs[0]) + ", "@, render_projection_list(vs.drop_first()));
    }
}

#[verifier::rlimit(100)]
#[verifier::spinoff_prover]
proof fn b_compare(c: Compare)
    requires
        wf_compare(c),
    ensures
        paren_balanced(render_compare(c)),
    decreases c, 0nat,
{
    lemma_paren_lits_compare();
    lemma_paren_lits_select();
    match c {
        Compare::Equals(l, r) => {
            b_value(l);
            b_value(r);
            lemma_paren_add(render_value(l), " = "@);
            lemma_paren_add(render_value(l) + " = "@, render_value(r));
        },
        Compare::NotEquals(l, r) => {
            b_value(l);
            b_value(r);
            lemma_paren_add(render_value(l), " <> "@);
            lemma_paren_add(render_value(l) + " <> "@, render_value(r));
        },
        Compare::LessThan(l, r) => {
            b_value(l);
            b_value(r);
            lemma_paren_add(render_value(l), " < "@);
            lemma_paren_add(render_value(l) + " < "@, render_value(r));
        },
        Compare::LessThanOrEquals(l, r) => {
            b_value(l);
            b_value(r);
            lemma_paren_add(render_value(l), " <= "@);
            lemma_paren_add(render_value(l) + " <= "@, render_value(r));
        },
        Compare::GreaterThan(l, r) => {
            b_value(l);
            b_value(r);
            lemma_paren_add(render_value(l), " > "@);
            lemma_paren_add(render_value(l) + " > "@, render_value(r));
        },
        Compare::GreaterThanOrEquals(l, r) => {
            b_value(l);
            b_value(r);
            lemma_paren_add(render_value(l), " >= "@);
            lemma_paren_add(render_value(l) + " >= "@, render_value(r));
        },
        Compare::In(l, r) => {
            if !is_empty_row(r) {
                b_value(l);
                b_value(r);
                lemma_paren_add(render_value(l), " IN "@);
                lemma_paren_add(render_value(l) + " IN "@, render_value(r));
            }
        },
        Compare::NotIn(l, r) => {
            if !is_empty_row(r) {
                b_value(l);
                b_value(r);
                lemma_paren_add(render_value(l), " NOT IN "@);
                lemma_paren_add(render_value(l) + " NOT IN "@, render_value(r));
            }
        },
        Compare::Like(l, _) => {
            b_value(l);
            lemma_paren_add(render_value(l), " LIKE ?"@);
        },
        Compare::NotLike(l, _) => {
            b_value(l);
            lemma_paren_add(render_value(l), " NOT LIKE ?"@);
        },
        Compare::BeginsWith(l, _) => {
            b_value(l);
            lemma_paren_add(render_value(l), " LIKE ?"@);
        },
        Compare::NotBeginsWith(l, _) => {
            b_value(l);
            lemma_paren_add(render_value(l), " NOT LIKE ?"@);
        },
        Compare::EndsInto(l, _) => {
            b_value(l);
            lemma_paren_add(render_value(l), " LIKE ?"@);
        },
        Compare::NotEndsInto(l, _) => {
            b_value(l);
            lemma_paren_add(render_value(l), " NOT LIKE ?"@);
        },
        Compare::Null(v) => {
            b_value(v);
            lemma_paren_add(render_value(v), " IS NULL"@);
        },
        Compare::NotNull(v) => {
            b_value(v);
            lemma_paren_add(render_value(v), " IS NOT NULL"@);
        },
        Compare::Between(v, l, r) => {
            b_value(v);
            b_value(l);
            b_value(r);
            lemma_paren_add(render_value(v), " BETWEEN "@);
            lemma_paren_add(render_value(v) + " BETWEEN "@, render_value(l));
            lemma_paren_add(render_value(v) + " BETWEEN "@ + render_value(l), " AND "@);
            lemma_paren_add(
                render_value(v) + " BETWEEN "@ + render_value(l) + " AND "@,
                render_value(r),
            );
        },
        Compare::NotBetween(v, l, r) => {
            b_value(v);
            b_value(l);
            b_value(r);
            lemma_paren_add(render_value(v), " NOT BETWEEN "@);
            lemma_paren_add(render_value(v) + " NOT BETWEEN "@, render_value(l));
            lemma_paren_add(render_value(v) + " NOT BETWEEN "@ + render_value(l), " AND "@);
            lemma_paren_add(
                render_value(v) + " NOT BETWEEN "@ + render_value(l) + " AND "@,
                render_value(r),
            );
        },
    }
}

proof fn b_expr(e: Expression)
    requires
        wf_expr(e),
    ensures
        paren_balanced(render_expr(e)),
    decreases e, 0nat,
{
    lemma_paren_lits_idents();
    match e {
        Expression::Compare(c) => {
            b_compare(c);
        },
        Expression::Value(v) => {
            b_value(v);
        },
        Expression::ConditionTree(t) => {
            b_tree(*t);
            lemma_paren_add("("@, render_tree(*t));
            lemma_paren_add("("@ + render_tree(*t), ")"@);
        },
    }
}

proof fn b_tree(t: ConditionTree)
    requires
        wf_tree(t),
    ensures
        paren_balanced(render_tree(t)),
    decreases t, 0nat,
{
    lemma_paren_lits_compare();
    lemma_paren_lits_select();
    lemma_paren_lits_idents();
    match t {
        ConditionTree::And(cs) => {
            if cs@.len() > 0 {
                b_tree_list(cs@, " AND "@);
            }
        },
        ConditionTree::Or(cs) => {
            if cs@.len() > 0 {
                b_tree_list(cs@, " OR "@);
            }
        },
        ConditionTree::Not(c) => {
            b_child(*c);
            lemma_paren_add("(NOT "@, render_child(*c));
            lemma_paren_add("(NOT "@ + render_child(*c), ")"@);
        },
        ConditionTree::Single(e) => {
            b_expr(e);
        },
    }
}

proof fn b_child(t: ConditionTree)
    requires
        wf_tree(t),
    ensures
        paren_balanced(render_child(t)),
    decreases t, 1nat,
{
    lemma_paren_lits_idents();
    b_tree(t);
    match t {
        ConditionTree::Single(_) => {},
        _ => {
            lemma_paren_add("("@, render_tree(t));
            lemma_paren_add("("@ + render_tree(t), ")"@);
        },
    }
}

proof fn b_tree_list(ts: Seq<ConditionTree>, sep: Seq<char>)
    requires
        wf_tree_list(ts),
        paren_delta(sep) == 0,
        min_prefix(sep) == 0,
    ensures
        paren_balanced(render_tree_list(ts, sep)),
    decreases ts, 2nat,
{
    reveal_with_fuel(paren_delta, 1);
    reveal_with_fuel(min_prefix, 1);
    if ts.len() == 0 {
    } else if ts.len() == 1 {
        b_child(ts[0]);
    } else {
        b_child(ts[0]);
        b_tree_list(ts.drop_first(), sep);
        lemma_paren_add(render_child(ts[0]), sep);
        lemma_paren_add(render_child(ts[0]) + sep, render_tree_list(ts.drop_first(), sep));
    }
}

proof fn b_ordering_list(os: Seq<(DatabaseValue, Option<Order>)>)
    requires
        wf_ordering_list(os),
    ensures
        paren_balanced(render_ordering_list(os)),
    decreases os, 0nat,
{
    lemma_paren_lits_idents();
    reveal_with_fuel(paren_delta, 1);
    reveal_with_fuel(min_prefix, 1);
    if os.len() == 0 {
    } else {
        b_value(os[0].0);
        assert(paren_delta(order_suffix(os[0].1)) == 0 && min_prefix(order_suffix(os[0].1))
            == 0) by {
            lemma_paren_lits_idents();
            match os[0].1 {
                Some(Order::Ascending) => {},
                Some(Order::Descending) => {},
                None => {},
            }
        }
        lemma_paren_add(render_value(os[0].0), order_suffix(os[0].1));
        if os.len() > 1 {
            b_ordering_list(os.drop_first());
            lemma_paren_add(render_value(os[0].0) + order_suffix(os[0].1), ", "@);
            lemma_paren_add(
                render_value(os[0].0) + order_suffix(os[0].1) + ", "@,
                render_ordering_list(os.drop_first()),
            );
        }
    }
}

proof fn b_where(c: Option<ConditionTree>)
    requires
        c matches Some(t) ==> wf_tree(t),
    ensures
        paren_balanced(render_where(c)),
    decreases c, 1nat,
{
    lemma_paren_lits_select();
    reveal_with_fuel(paren_delta, 1);
    reveal_with_fuel(min_prefix, 1);
    match c {
        Some(t) => {
            b_tree(t);
            lemma_paren_add(" WHERE "@, render_tree(t));
        },
        None => {},
    }
}

#[verifier::rlimit(100)]
#[verifier::spinoff_prover]
proof fn b_select(q: Select)
    requires
        wf_select(q),
    ensures
        paren_balanced(render_select(q)),
    decreases q, 2nat,
{
    lemma_paren_lits_select();
    lemma_paren_lits_idents();
    let proj = render_projections(q.table, q.columns@);
    assert(paren_balanced(proj)) by {
        lemma_paren_lits_idents();
        if q.columns@.len() == 0 {
            b_table(q.table);
            lemma_paren_add(render_table(q.table), ".*"@);
        } else {
            b_projection_list(q.columns@);
        }
    }
    b_table_from(q.table);
    b_where(q.conditions);
    assert(paren_balanced(render_order_clause(q.ordering@))) by {
        lemma_paren_lits_functions();
        reveal_with_fuel(paren_delta, 1);
        reveal_with_fuel(min_prefix, 1);
        if q.ordering@.len() > 0 {
            b_ordering_list(q.ordering@);
            lemma_paren_add(" ORDER BY "@, render_ordering_list(q.ordering@));
        }
    }
    assert(paren_balanced(render_limit_clause(q.limit))) by {
        lemma_paren_lits_select();
        reveal_with_fuel(paren_delta, 1);
        reveal_with_fuel(min_prefix, 1);
        match q.limit {
            Some(_) => {},
            None => {},
        }
    }
    assert(paren_balanced(render_offset_clause(q.offset))) by {
        lemma_paren_lits_select();
        reveal_with_fuel(paren_delta, 1);
        reveal_with_fuel(min_prefix, 1);
        match q.offset {
            Some(_) => {},
            None => {},
        }
    }
    let a1 = "SELECT "@;
    let a2 = a1 + proj;
    let a3 = a2 + " FROM "@;
    let a4 = a3 + render_table_from(q.table);
    let a5 = a4 + render_where(q.conditions);
    let a6 = a5 + render_order_clause(q.ordering@);
    let a7 = a6 + render_limit_clause(q.limit);
    lemma_paren_add(a1, proj);
    lemma_paren_add(a2, " FROM "@);
    lemma_paren_add(a3, render_table_from(q.table));
    lemma_paren_add(a4, render_where(q.conditions));
    lemma_paren_add(a5, render_order_clause(q.ordering@));
    lemma_paren_add(a6, render_limit_clause(q.limit));
    lemma_paren_add(a7, render_offset_clause(q.offset));
}

/// Every well-formed statement renders with balanced parentheses: as many
/// openers as closers, and no prefix of the text closes a group that was
/// never opened. Together with the wrapping rule of
/// [`compound_children_are_parenthesized`], this is what keeps one child's
/// grouping from leaking into the next when operators mix.
pub proof fn rendered_parentheses_balance(q: Select)
    requires
        wf_select(q),
    ensures
        paren_balanced(render_select(q)),
{
    b_select(q);
}

} // verus!
