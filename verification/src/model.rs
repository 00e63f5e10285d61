//! The mathematical model: spec-level values of every component, and the
//! renderers that define, for each of them, the output text and the
//! positionally ordered argument list.

use vstd::prelude::*;

use crate::args::ArgV;
use crate::expressions::{view_rows, Exp, ExpTar, ExpU, Insert, Op};
use crate::mysql::{MYSQLBuilder, QueryType};
use crate::statements::{Dir, GroupBy, Join, JoinType, Order, Select};
use crate::table::{text_of_col, text_of_table, ColV};
use crate::text::{dec_int, placeholder_list, seq_join};

verus! {

// ---------------------------------------------------------------------
// Spec-level values
// ---------------------------------------------------------------------

/// One comparison: an operator between two operands.
pub struct CmpV {
    pub op: Op,
    pub left: ExpTarV,
    pub right: ExpTarV,
}

/// One comparison operand.
pub enum ExpTarV {
    /// A literal argument, bound at a placeholder (or, for a list, at one
    /// placeholder per element).
    Arg(ArgV),
    /// A column reference; renders as its own text and binds nothing.
    Col(ColV),
    /// An explicit NULL; renders as literal text and binds nothing.
    Null,
    /// A nested sub-query, rendered in parentheses with its arguments
    /// spliced in at this position.
    Sub(Box<BuilderV>),
}

/// A predicate.
pub enum ExpV {
    Cmp(CmpV),
    And(Box<ExpV>, Box<ExpV>),
    Or(Box<ExpV>, Box<ExpV>),
    Conjunction(Seq<ExpV>),
}

/// A select list.
pub struct SelectV {
    pub cols: Seq<ColV>,
    pub distinct: bool,
}

/// A join of one table with an optional ON predicate.
pub struct JoinV {
    pub from: Seq<char>,
    pub kind: JoinType,
    pub on: Option<ExpV>,
}

/// A GROUP BY clause with an optional HAVING comparison.
pub struct GroupByV {
    pub cols: Seq<ColV>,
    pub having: Option<CmpV>,
}

/// One ORDER BY entry.
pub struct OrderV {
    pub by: ColV,
    pub dir: Dir,
}

/// The column names and row values of an INSERT.
pub struct InsertV {
    pub keys: Seq<Seq<char>>,
    pub rows: Seq<Seq<ArgV>>,
}

/// The accumulated state of a query builder.
pub struct BuilderV {
    pub kind: QueryType,
    pub from: Option<Seq<char>>,
    pub select: Option<SelectV>,
    pub joins: Seq<JoinV>,
    pub unions: Seq<BuilderV>,
    pub where_clause: Option<ExpV>,
    pub set_list: Option<Seq<ExpV>>,
    pub insert: Option<InsertV>,
    pub order: Seq<OrderV>,
    pub limit: Option<int>,
    pub group_by: Option<GroupByV>,
}

// ---------------------------------------------------------------------
// Views of the executable values
// ---------------------------------------------------------------------

/// The spec value of a predicate.
pub(crate) open spec fn view_exp(e: Exp) -> ExpV
    decreases e,
{
    match e {
        Exp::Exp(u) => ExpV::Cmp(view_cmp(u)),
        Exp::And(a) => ExpV::And(Box::new(view_exp(*a.left)), Box::new(view_exp(*a.right))),
        Exp::Or(o) => ExpV::Or(Box::new(view_exp(*o.left)), Box::new(view_exp(*o.right))),
        Exp::Conjunction(es) => ExpV::Conjunction(view_exps(es@)),
    }
}

/// The spec values of a sequence of predicates, in order.
pub(crate) open spec fn view_exps(s: Seq<Exp>) -> Seq<ExpV>
    decreases s,
{
    if s.len() == 0 {
        Seq::empty()
    } else {
        view_exps(s.drop_last()).push(view_exp(s.last()))
    }
}

/// The spec value of a comparison.
pub(crate) open spec fn view_cmp(u: ExpU) -> CmpV
    decreases u,
{
    CmpV { op: u.op, left: view_tar(u.left), right: view_tar(u.right) }
}

/// The spec value of a comparison operand.
pub(crate) open spec fn view_tar(t: ExpTar) -> ExpTarV
    decreases t,
{
    match t {
        ExpTar::A(a) => ExpTarV::Arg(a@),
        ExpTar::C(c) => ExpTarV::Col(c@),
        ExpTar::Null => ExpTarV::Null,
        ExpTar::T(b) => ExpTarV::Sub(Box::new(view_builder(b))),
    }
}

/// The spec value of a builder.
pub(crate) open spec fn view_builder(b: MYSQLBuilder) -> BuilderV
    decreases b,
{
    BuilderV {
        kind: b.query_type,
        from: match b.from {
            Option::None => Option::None,
            Option::Some(t) => Option::Some(t@),
        },
        select: match b.select {
            Option::None => Option::None,
            Option::Some(s) => Option::Some(view_select(s)),
        },
        joins: view_joins(b.joins@),
        unions: view_builders(b.unions@),
        where_clause: match b.where_clause {
            Option::None => Option::None,
            Option::Some(w) => Option::Some(view_exp(*w.exp)),
        },
        set_list: match b.set_list {
            Option::None => Option::None,
            Option::Some(s) => Option::Some(view_exps(s.0@)),
        },
        insert: match b.insert {
            Option::None => Option::None,
            Option::Some(i) => Option::Some(view_insert(i)),
        },
        order: view_orders(b.order@),
        limit: match b.limit {
            Option::None => Option::None,
            Option::Some(l) => Option::Some(l@),
        },
        group_by: match b.group_by {
            Option::None => Option::None,
            Option::Some(g) => Option::Some(view_groupby(g)),
        },
    }
}

/// The spec values of a sequence of builders, in order.
pub(crate) open spec fn view_builders(s: Seq<MYSQLBuilder>) -> Seq<BuilderV>
    decreases s,
{
    if s.len() == 0 {
        Seq::empty()
    } else {
        view_builders(s.drop_last()).push(view_builder(s.last()))
    }
}

/// The spec value of a join.
pub(crate) open spec fn view_join(j: Join) -> JoinV
    decreases j,
{
    JoinV {
        from: j.from@,
        kind: j.join,
        on: match j.on {
            Option::None => Option::None,
            Option::Some(o) => Option::Some(view_exp(*o.exp)),
        },
    }
}

/// The spec values of a sequence of joins, in order.
pub(crate) open spec fn view_joins(s: Seq<Join>) -> Seq<JoinV>
    decreases s,
{
    if s.len() == 0 {
        Seq::empty()
    } else {
        view_joins(s.drop_last()).push(view_join(s.last()))
    }
}

/// The spec value of a GROUP BY clause.
pub(crate) open spec fn view_groupby(g: GroupBy) -> GroupByV
    decreases g,
{
    GroupByV {
        cols: view_cols(g.cols@),
        having: match g.having {
            Option::None => Option::None,
            Option::Some(h) => Option::Some(view_cmp(*h)),
        },
    }
}

/// The spec value of a select list.
pub(crate) open spec fn view_select(s: Select) -> SelectV {
    SelectV { cols: view_cols(s.cols@), distinct: s.distinct }
}

/// The spec values of a sequence of columns, in order.
pub(crate) open spec fn view_cols(s: Seq<crate::table::Col>) -> Seq<ColV> {
    s.map_values(|c: crate::table::Col| c@)
}

/// The spec value of an ORDER BY entry.
pub(crate) open spec fn view_order(o: Order) -> OrderV {
    OrderV { by: o.by@, dir: o.dir }
}

/// The spec values of a sequence of ORDER BY entries, in order.
pub(crate) open spec fn view_orders(s: Seq<Order>) -> Seq<OrderV> {
    s.map_values(|o: Order| view_order(o))
}

/// The spec value of an INSERT payload.
pub(crate) open spec fn view_insert(i: Insert) -> InsertV {
    InsertV { keys: i.keys@.map_values(|k: String| k@), rows: view_rows(i.values@) }
}

// ---------------------------------------------------------------------
// Relating the sequence views to elements, pushes and deep views
// ---------------------------------------------------------------------

/// `view_exps` agrees with viewing each element.
pub(crate) proof fn lemma_view_exps_elementwise(s: Seq<Exp>)
    ensures
        view_exps(s).len() == s.len(),
        forall|i: int| 0 <= i < s.len() ==> view_exps(s)[i] == view_exp(#[trigger] s[i]),
    decreases s,
{
    if s.len() > 0 {
        lemma_view_exps_elementwise(s.drop_last());
        assert forall|i: int| 0 <= i < s.len() implies view_exps(s)[i] == view_exp(
            #[trigger] s[i],
        ) by {
            if i < s.len() - 1 {
                assert(s.drop_last()[i] == s[i]);
                assert(view_exps(s)[i] == view_exps(s.drop_last())[i]);
            } else {
                assert(s.last() == s[i]);
            }
        }
    }
}

/// `view_cols` of a vector's contents is the vector's deep view.
pub(crate) proof fn lemma_view_cols_is_deep(v: &Vec<crate::table::Col>)
    ensures
        view_cols(v@) == v.deep_view(),
{
    assert(view_cols(v@) =~= v.deep_view());
}

/// `view_cols` distributes over concatenation.
pub(crate) proof fn lemma_view_cols_concat(a: Seq<crate::table::Col>, b: Seq<crate::table::Col>)
    ensures
        view_cols(a + b) == view_cols(a) + view_cols(b),
{
    assert(view_cols(a + b) =~= view_cols(a) + view_cols(b));
}

/// `view_joins` agrees with viewing each element (by index).
pub(crate) proof fn lemma_view_joins_elementwise(s: Seq<Join>)
    ensures
        view_joins(s).len() == s.len(),
        forall|i: int| 0 <= i < s.len() ==> view_joins(s)[i] == view_join(#[trigger] s[i]),
    decreases s,
{
    if s.len() > 0 {
        lemma_view_joins_elementwise(s.drop_last());
        assert forall|i: int| 0 <= i < s.len() implies view_joins(s)[i] == view_join(
            #[trigger] s[i],
        ) by {
            if i < s.len() - 1 {
                assert(s.drop_last()[i] == s[i]);
                assert(view_joins(s)[i] == view_joins(s.drop_last())[i]);
            } else {
                assert(s.last() == s[i]);
            }
        }
    }
}

/// `view_builders` agrees with viewing each element (by index).
pub(crate) proof fn lemma_view_builders_elementwise(s: Seq<MYSQLBuilder>)
    ensures
        view_builders(s).len() == s.len(),
        forall|i: int| 0 <= i < s.len() ==> view_builders(s)[i] == view_builder(#[trigger] s[i]),
    decreases s,
{
    if s.len() > 0 {
        lemma_view_builders_elementwise(s.drop_last());
        assert forall|i: int| 0 <= i < s.len() implies view_builders(s)[i] == view_builder(
            #[trigger] s[i],
        ) by {
            if i < s.len() - 1 {
                assert(s.drop_last()[i] == s[i]);
                assert(view_builders(s)[i] == view_builders(s.drop_last())[i]);
            } else {
                assert(s.last() == s[i]);
            }
        }
    }
}

/// `view_joins` distributes over `push`.
pub(crate) proof fn lemma_view_joins_push(s: Seq<Join>, j: Join)
    ensures
        view_joins(s.push(j)) == view_joins(s).push(view_join(j)),
{
    assert(s.push(j).drop_last() =~= s);
    assert(s.push(j).last() == j);
}

/// `view_builders` distributes over `push`.
pub(crate) proof fn lemma_view_builders_push(s: Seq<MYSQLBuilder>, b: MYSQLBuilder)
    ensures
        view_builders(s.push(b)) == view_builders(s).push(view_builder(b)),
{
    assert(s.push(b).drop_last() =~= s);
    assert(s.push(b).last() == b);
}

/// `view_orders` distributes over `push`.
pub(crate) proof fn lemma_view_orders_push(s: Seq<Order>, o: Order)
    ensures
        view_orders(s.push(o)) == view_orders(s).push(view_order(o)),
{
    assert(view_orders(s.push(o)) =~= view_orders(s).push(view_order(o)));
}

/// The bridges between each type's opaque view and its spec value, and the
/// push laws of the sequence views.
pub(crate) broadcast group group_view_bridges {
    crate::expressions::lemma_view_exp_is,
    crate::expressions::lemma_view_tar_is,
    crate::expressions::lemma_view_cmp_is,
    crate::expressions::lemma_view_setclause_is,
    crate::expressions::lemma_view_insert_is,
    crate::statements::lemma_view_join_is,
    crate::statements::lemma_view_groupby_is,
    crate::statements::lemma_view_select_is,
    crate::statements::lemma_view_order_is,
    crate::mysql::lemma_view_builder_is,
}

/// The arguments an optional argument vector carries: none when absent.
pub open spec fn opt_args(o: Option<Vec<crate::args::Arg>>) -> Seq<ArgV> {
    match o {
        Option::None => Seq::empty(),
        Option::Some(v) => crate::args::view_args(v@),
    }
}

// ---------------------------------------------------------------------
// Rendering: operator and keyword text
// ---------------------------------------------------------------------

/// Rendered text of a comparison operator.
pub open spec fn op_text(op: Op) -> Seq<char> {
    match op {
        Op::Eq => "="@,
        Op::Neq => "!="@,
        Op::Lt => "<"@,
        Op::Gt => ">"@,
        Op::In => "IN"@,
        Op::Is => "IS"@,
        Op::IsNot => "IS NOT"@,
        Op::Like => "LIKE"@,
    }
}

/// Rendered keyword of a join kind.
pub open spec fn join_kw(k: JoinType) -> Seq<char> {
    match k {
        JoinType::Inner => "JOIN"@,
        JoinType::Left => "LEFT JOIN"@,
        JoinType::Right => "RIGHT JOIN"@,
        JoinType::Union => "JOIN"@,
    }
}

/// Rendered keyword of an ordering direction.
pub open spec fn dir_text(d: Dir) -> Seq<char> {
    match d {
        Dir::Asc => "ASC"@,
        Dir::Desc => "DESC"@,
    }
}

// ---------------------------------------------------------------------
// Rendering: predicates
// ---------------------------------------------------------------------

/// Rendered text of a comparison operand.
pub open spec fn text_of_tar(t: ExpTarV) -> Seq<char>
    decreases t,
{
    match t {
        ExpTarV::Null => "NULL"@,
        ExpTarV::Arg(a) => match a {
            ArgV::List(items) => "("@ + placeholder_list(items.len()) + ")"@,
            _ => "?"@,
        },
        ExpTarV::Col(c) => text_of_col(c),
        ExpTarV::Sub(b) => "("@ + text_of_builder(*b) + ")"@,
    }
}

/// Arguments of a comparison operand, in placeholder order.
pub open spec fn args_of_tar(t: ExpTarV) -> Seq<ArgV>
    decreases t,
{
    match t {
        ExpTarV::Null => Seq::empty(),
        ExpTarV::Arg(a) => match a {
            ArgV::List(items) => items,
            _ => seq![a],
        },
        ExpTarV::Col(_) => Seq::empty(),
        ExpTarV::Sub(b) => args_of_builder(*b),
    }
}

/// Rendered text of a comparison.
pub open spec fn text_of_cmp(c: CmpV) -> Seq<char>
    decreases c,
{
    "("@ + text_of_tar(c.left) + " "@ + op_text(c.op) + " "@ + text_of_tar(c.right) + ")"@
}

/// Arguments of a comparison: the left operand's, then the right's.
pub open spec fn args_of_cmp(c: CmpV) -> Seq<ArgV>
    decreases c,
{
    args_of_tar(c.left) + args_of_tar(c.right)
}

/// Rendered text of a predicate.
pub open spec fn text_of_exp(e: ExpV) -> Seq<char>
    decreases e,
{
    match e {
        ExpV::Cmp(c) => text_of_cmp(c),
        ExpV::And(l, r) => "("@ + text_of_exp(*l) + " AND "@ + text_of_exp(*r) + ")"@,
        ExpV::Or(l, r) => "("@ + text_of_exp(*l) + " OR "@ + text_of_exp(*r) + ")"@,
        ExpV::Conjunction(es) => "("@ + seq_join(texts_of_exps(es), " AND "@) + ")"@,
    }
}

/// Arguments of a predicate, concatenated in rendering order.
pub open spec fn args_of_exp(e: ExpV) -> Seq<ArgV>
    decreases e,
{
    match e {
        ExpV::Cmp(c) => args_of_cmp(c),
        ExpV::And(l, r) => args_of_exp(*l) + args_of_exp(*r),
        ExpV::Or(l, r) => args_of_exp(*l) + args_of_exp(*r),
        ExpV::Conjunction(es) => args_of_exps(es),
    }
}

/// Rendered texts of a sequence of predicates, in order.
pub open spec fn texts_of_exps(s: Seq<ExpV>) -> Seq<Seq<char>>
    decreases s,
{
    if s.len() == 0 {
        Seq::empty()
    } else {
        texts_of_exps(s.drop_last()).push(text_of_exp(s.last()))
    }
}

/// Arguments of a sequence of predicates, concatenated in order.
pub open spec fn args_of_exps(s: Seq<ExpV>) -> Seq<ArgV>
    decreases s,
{
    if s.len() == 0 {
        Seq::empty()
    } else {
        args_of_exps(s.drop_last()) + args_of_exp(s.last())
    }
}

// ---------------------------------------------------------------------
// Rendering: clauses
// ---------------------------------------------------------------------

/// Rendered texts of a sequence of columns, in order.
pub open spec fn texts_of_cols(s: Seq<ColV>) -> Seq<Seq<char>> {
    s.map_values(|c: ColV| text_of_col(c))
}

/// Rendered text of a select list.
pub open spec fn text_of_select(s: SelectV) -> Seq<char> {
    "SELECT "@ + (if s.distinct {
        "DISTINCT "@
    } else {
        Seq::<char>::empty()
    }) + seq_join(texts_of_cols(s.cols), ", "@)
}

/// Rendered text of an ON predicate.
pub open spec fn text_of_on(e: ExpV) -> Seq<char> {
    "ON "@ + text_of_exp(e)
}

/// Rendered text of a join.
pub open spec fn text_of_join(j: JoinV) -> Seq<char>
    decreases j,
{
    join_kw(j.kind) + " "@ + text_of_table(j.from) + (match j.on {
        Option::None => Seq::<char>::empty(),
        Option::Some(e) => " "@ + ("ON "@ + text_of_exp(e)),
    })
}

/// Arguments of a join: its ON predicate's, if any.
pub open spec fn args_of_join(j: JoinV) -> Seq<ArgV>
    decreases j,
{
    match j.on {
        Option::None => Seq::empty(),
        Option::Some(e) => args_of_exp(e),
    }
}

/// Rendered text of a WHERE clause.
pub open spec fn text_of_where(e: ExpV) -> Seq<char> {
    "WHERE "@ + text_of_exp(e)
}

/// Rendered text of a GROUP BY clause with its optional HAVING.
pub open spec fn text_of_groupby(g: GroupByV) -> Seq<char>
    decreases g,
{
    "GROUP BY "@ + seq_join(texts_of_cols(g.cols), ", "@) + (match g.having {
        Option::None => Seq::<char>::empty(),
        Option::Some(h) => " HAVING "@ + text_of_cmp(h),
    })
}

/// Arguments of a GROUP BY clause: its HAVING comparison's, if any.
pub open spec fn args_of_groupby(g: GroupByV) -> Seq<ArgV>
    decreases g,
{
    match g.having {
        Option::None => Seq::empty(),
        Option::Some(h) => args_of_cmp(h),
    }
}

/// Rendered text of one ORDER BY entry.
pub open spec fn text_of_order(o: OrderV) -> Seq<char> {
    text_of_col(o.by) + " "@ + dir_text(o.dir)
}

/// Rendered texts of a sequence of ORDER BY entries, in order.
pub open spec fn texts_of_orders(s: Seq<OrderV>) -> Seq<Seq<char>> {
    s.map_values(|o: OrderV| text_of_order(o))
}

/// Rendered text of a LIMIT clause.
pub open spec fn text_of_limit(n: int) -> Seq<char> {
    "LIMIT "@ + dec_int(n)
}

/// Rendered placeholder group of one inserted row.
pub open spec fn row_text(row: Seq<ArgV>) -> Seq<char> {
    "("@ + placeholder_list(row.len()) + ")"@
}

/// Rendered placeholder groups of the inserted rows, in order.
pub open spec fn row_texts(rows: Seq<Seq<ArgV>>) -> Seq<Seq<char>> {
    rows.map_values(|row: Seq<ArgV>| row_text(row))
}

/// Rendered text of an INSERT payload: the declared columns, then one
/// placeholder group per row.
pub open spec fn text_of_insert(i: InsertV) -> Seq<char> {
    "("@ + seq_join(i.keys, ", "@) + ") VALUES\n "@ + seq_join(row_texts(i.rows), ",\n "@)
}

/// Arguments of an INSERT payload: the rows flattened row-major.
pub open spec fn args_of_insert(i: InsertV) -> Seq<ArgV> {
    flatten_rows(i.rows)
}

/// The rows flattened row-major: all of the first row's values in column
/// order, then the second row's, and so on.
pub open spec fn flatten_rows(rows: Seq<Seq<ArgV>>) -> Seq<ArgV>
    decreases rows,
{
    if rows.len() == 0 {
        Seq::empty()
    } else {
        flatten_rows(rows.drop_last()) + rows.last()
    }
}

/// Rendered text of a SET payload: the assignment texts comma-joined.
pub open spec fn text_of_set_list(es: Seq<ExpV>) -> Seq<char> {
    seq_join(texts_of_exps(es), ", "@)
}

// ---------------------------------------------------------------------
// Rendering: the whole builder
// ---------------------------------------------------------------------

/// Rendered text of the optional select list part.
pub open spec fn select_part(s: Option<SelectV>) -> Seq<char> {
    match s {
        Option::None => Seq::empty(),
        Option::Some(sel) => text_of_select(sel),
    }
}

/// Rendered text of the FROM part.
pub open spec fn from_part(f: Option<Seq<char>>) -> Seq<char> {
    "\nFROM "@ + (match f {
        Option::None => Seq::<char>::empty(),
        Option::Some(name) => text_of_table(name),
    })
}

/// Rendered text of the joins, each on its own line.
pub open spec fn joins_part(s: Seq<JoinV>) -> Seq<char>
    decreases s,
{
    if s.len() == 0 {
        Seq::empty()
    } else {
        joins_part(s.drop_last()) + "\n"@ + text_of_join(s.last())
    }
}

/// Arguments of the joins, concatenated in order.
pub open spec fn joins_args(s: Seq<JoinV>) -> Seq<ArgV>
    decreases s,
{
    if s.len() == 0 {
        Seq::empty()
    } else {
        joins_args(s.drop_last()) + args_of_join(s.last())
    }
}

/// Rendered text of the optional WHERE part.
pub open spec fn where_part(o: Option<ExpV>) -> Seq<char>
    decreases o,
{
    match o {
        Option::None => Seq::empty(),
        Option::Some(e) => "\n"@ + ("WHERE "@ + text_of_exp(e)),
    }
}

/// Arguments of the optional WHERE part.
pub open spec fn where_args(o: Option<ExpV>) -> Seq<ArgV>
    decreases o,
{
    match o {
        Option::None => Seq::empty(),
        Option::Some(e) => args_of_exp(e),
    }
}

/// Rendered text of the optional GROUP BY part.
pub open spec fn group_part(o: Option<GroupByV>) -> Seq<char>
    decreases o,
{
    match o {
        Option::None => Seq::empty(),
        Option::Some(g) => "\n"@ + text_of_groupby(g),
    }
}

/// Arguments of the optional GROUP BY part.
pub open spec fn group_args(o: Option<GroupByV>) -> Seq<ArgV>
    decreases o,
{
    match o {
        Option::None => Seq::empty(),
        Option::Some(g) => args_of_groupby(g),
    }
}

/// Rendered text of the ORDER BY part: absent entirely when no entry was
/// added, else one ORDER BY with the entries comma-joined.
pub open spec fn order_part(s: Seq<OrderV>) -> Seq<char> {
    if s.len() == 0 {
        Seq::empty()
    } else {
        "\nORDER BY "@ + seq_join(texts_of_orders(s), ", "@)
    }
}

/// Rendered text of the optional LIMIT part.
pub open spec fn limit_part(o: Option<int>) -> Seq<char> {
    match o {
        Option::None => Seq::empty(),
        Option::Some(n) => "\n"@ + text_of_limit(n),
    }
}

/// Rendered text of the unioned sub-queries, each fully serialized after a
/// UNION separator.
pub open spec fn unions_part(s: Seq<BuilderV>) -> Seq<char>
    decreases s,
{
    if s.len() == 0 {
        Seq::empty()
    } else {
        unions_part(s.drop_last()) + "\nUNION\n"@ + text_of_builder(s.last())
    }
}

/// Arguments of the unioned sub-queries, concatenated in order.
pub open spec fn unions_args(s: Seq<BuilderV>) -> Seq<ArgV>
    decreases s,
{
    if s.len() == 0 {
        Seq::empty()
    } else {
        unions_args(s.drop_last()) + args_of_builder(s.last())
    }
}

/// Rendered text of a whole builder, its clauses concatenated in canonical
/// order: select list, FROM, joins, WHERE, GROUP BY with HAVING, ORDER BY,
/// LIMIT, unions.  Update- and Delete-kind builders serialize to nothing.
pub open spec fn text_of_builder(b: BuilderV) -> Seq<char>
    decreases b,
{
    match b.kind {
        QueryType::Select => select_part(b.select) + from_part(b.from) + joins_part(b.joins)
            + where_part(b.where_clause) + group_part(b.group_by) + order_part(b.order)
            + limit_part(b.limit) + unions_part(b.unions),
        QueryType::Insert => "INSERT INTO "@ + (match b.from {
            Option::None => Seq::<char>::empty(),
            Option::Some(name) => text_of_table(name),
        }) + " "@ + (match b.insert {
            Option::None => Seq::<char>::empty(),
            Option::Some(i) => text_of_insert(i),
        }),
        QueryType::Update => Seq::empty(),
        QueryType::Delete => Seq::empty(),
    }
}

/// Arguments of a whole builder, concatenated to mirror the textual clause
/// order exactly: joins, WHERE, HAVING, then the unions.
pub open spec fn args_of_builder(b: BuilderV) -> Seq<ArgV>
    decreases b,
{
    match b.kind {
        QueryType::Select => joins_args(b.joins) + where_args(b.where_clause) + group_args(
            b.group_by,
        ) + unions_args(b.unions),
        QueryType::Insert => match b.insert {
            Option::None => Seq::empty(),
            Option::Some(i) => args_of_insert(i),
        },
        QueryType::Update => Seq::empty(),
        QueryType::Delete => Seq::empty(),
    }
}

// ---------------------------------------------------------------------
// Placeholder cleanliness: no identifier, alias, inlined search text or
// table name may smuggle a `?` into the rendered text
// ---------------------------------------------------------------------

/// A comparison operand whose rendered text owes a placeholder only to its
/// bound arguments.
pub open spec fn clean_tar(t: ExpTarV) -> bool
    decreases t,
{
    match t {
        ExpTarV::Arg(_) => true,
        ExpTarV::Col(c) => crate::table::col_placeholder_clean(c),
        ExpTarV::Null => true,
        ExpTarV::Sub(b) => clean_builder(*b),
    }
}

/// A comparison whose operands are both clean.
pub open spec fn clean_cmp(c: CmpV) -> bool
    decreases c,
{
    clean_tar(c.left) && clean_tar(c.right)
}

/// A predicate all of whose operands are clean.
pub open spec fn clean_exp(e: ExpV) -> bool
    decreases e,
{
    match e {
        ExpV::Cmp(c) => clean_cmp(c),
        ExpV::And(l, r) => clean_exp(*l) && clean_exp(*r),
        ExpV::Or(l, r) => clean_exp(*l) && clean_exp(*r),
        ExpV::Conjunction(es) => clean_exps(es),
    }
}

/// A sequence of clean predicates.
pub open spec fn clean_exps(s: Seq<ExpV>) -> bool
    decreases s,
{
    if s.len() == 0 {
        true
    } else {
        clean_exps(s.drop_last()) && clean_exp(s.last())
    }
}

/// A sequence of placeholder-clean columns.
pub open spec fn clean_cols(s: Seq<ColV>) -> bool {
    forall|i: int| 0 <= i < s.len() ==> crate::table::col_placeholder_clean(#[trigger] s[i])
}

/// A join whose table name and ON predicate are clean.
pub open spec fn clean_join(j: JoinV) -> bool
    decreases j,
{
    &&& crate::text::placeholder_free(j.from)
    &&& match j.on {
        Option::None => true,
        Option::Some(e) => clean_exp(e),
    }
}

/// A sequence of clean joins.
pub open spec fn clean_joins(s: Seq<JoinV>) -> bool
    decreases s,
{
    if s.len() == 0 {
        true
    } else {
        clean_joins(s.drop_last()) && clean_join(s.last())
    }
}

/// A GROUP BY clause whose columns and HAVING comparison are clean.
pub open spec fn clean_groupby(g: GroupByV) -> bool
    decreases g,
{
    &&& clean_cols(g.cols)
    &&& match g.having {
        Option::None => true,
        Option::Some(h) => clean_cmp(h),
    }
}

/// A sequence of orderings by placeholder-clean columns.
pub open spec fn clean_orders(s: Seq<OrderV>) -> bool {
    forall|i: int| 0 <= i < s.len() ==> crate::table::col_placeholder_clean((#[trigger] s[i]).by)
}

/// An INSERT payload whose declared column names are placeholder-free.
pub open spec fn clean_insert(i: InsertV) -> bool {
    forall|k: int| 0 <= k < i.keys.len() ==> crate::text::placeholder_free(#[trigger] i.keys[k])
}

/// A builder all of whose rendered identifiers and predicates are clean.
pub open spec fn clean_builder(b: BuilderV) -> bool
    decreases b,
{
    &&& match b.select {
        Option::None => true,
        Option::Some(s) => clean_cols(s.cols),
    }
    &&& match b.from {
        Option::None => true,
        Option::Some(name) => crate::text::placeholder_free(name),
    }
    &&& clean_joins(b.joins)
    &&& match b.where_clause {
        Option::None => true,
        Option::Some(e) => clean_exp(e),
    }
    &&& match b.group_by {
        Option::None => true,
        Option::Some(g) => clean_groupby(g),
    }
    &&& clean_orders(b.order)
    &&& match b.insert {
        Option::None => true,
        Option::Some(i) => clean_insert(i),
    }
    &&& clean_unions(b.unions)
}

/// A sequence of clean unioned sub-builders.
pub open spec fn clean_unions(s: Seq<BuilderV>) -> bool
    decreases s,
{
    if s.len() == 0 {
        true
    } else {
        clean_unions(s.drop_last()) && clean_builder(s.last())
    }
}

} // verus!
