//! The clause fragments a query is assembled from: select list, joins,
//! where, group-by with having, ordering and limit.

use vstd::prelude::*;

use crate::expressions::{Exp, ExpU};
use crate::model::{view_cols, view_groupby, view_join, view_order, view_select,
    GroupByV, JoinV, OrderV, SelectV};
use crate::table::{Col, Table};

verus! {

/// A LIMIT clause; the count is inlined as a literal integer, not
/// parameterized.
pub struct Limit(pub(crate) i32);

impl View for Limit {
    type V = int;

    closed spec fn view(&self) -> int {
        self.0 as int
    }
}

impl Limit {
    /// A LIMIT of `by` rows.
    pub fn new(by: i32) -> (r: Self)
        ensures
            r@ == by as int,
    {
        Limit(by)
    }
}

/// A GROUP BY clause with an optional HAVING predicate.
pub struct GroupBy {
    pub(crate) cols: Vec<Col>,
    pub(crate) having: Option<Box<ExpU>>,
}

impl View for GroupBy {
    type V = GroupByV;

    closed spec fn view(&self) -> GroupByV {
        view_groupby(*self)
    }
}

impl GroupBy {
    /// A GROUP BY over the given columns.
    pub fn new(cols: Vec<Col>) -> (r: Self)
        ensures
            r@ == (GroupByV { cols: cols.deep_view(), having: None }),
    {
        proof {
            crate::model::lemma_view_cols_is_deep(&cols);
        }
        GroupBy { cols, having: None }
    }

    /// Appends further grouping columns.
    pub fn extend(&mut self, cols: Vec<Col>)
        ensures
            final(self)@ == (GroupByV {
                cols: old(self)@.cols + cols.deep_view(),
                ..old(self)@
            }),
    {
        proof {
            crate::model::lemma_view_cols_is_deep(&cols);
        }
        let ghost added = cols@;
        let mut more = cols;
        self.cols.append(&mut more);
        proof {
            crate::model::lemma_view_cols_concat(old(self).cols@, added);
        }
    }

    /// Sets the HAVING predicate, replacing any earlier one.
    pub fn having(&mut self, exp: ExpU)
        ensures
            final(self)@ == (GroupByV { having: Some(exp@), ..old(self)@ }),
    {
        broadcast use crate::expressions::lemma_view_cmp_is;

        self.having = Some(Box::new(exp));
    }
}

/// A SELECT list: the projected columns, optionally DISTINCT.
pub struct Select {
    pub(crate) cols: Vec<Col>,
    pub(crate) distinct: bool,
}

impl View for Select {
    type V = SelectV;

    closed spec fn view(&self) -> SelectV {
        view_select(*self)
    }
}

impl Select {
    /// A SELECT list over the given columns.
    pub fn new(cols: Vec<Col>) -> (r: Self)
        ensures
            r@ == (SelectV { cols: cols.deep_view(), distinct: false }),
    {
        proof {
            crate::model::lemma_view_cols_is_deep(&cols);
        }
        Select { cols, distinct: false }
    }

    /// Appends further projected columns.
    pub fn extend(&mut self, cols: Vec<Col>)
        ensures
            final(self)@ == (SelectV {
                cols: old(self)@.cols + cols.deep_view(),
                ..old(self)@
            }),
    {
        proof {
            crate::model::lemma_view_cols_is_deep(&cols);
        }
        let ghost added = cols@;
        let mut more = cols;
        self.cols.append(&mut more);
        proof {
            crate::model::lemma_view_cols_concat(old(self).cols@, added);
        }
    }

    /// Marks the selection DISTINCT.
    pub fn distinct(&mut self)
        ensures
            final(self)@ == (SelectV { distinct: true, ..old(self)@ }),
    {
        self.distinct = true;
    }
}

/// The kind of a join.
#[derive(Debug, PartialEq, Eq, Clone, Copy)]
pub enum JoinType {
    Inner,
    Left,
    Right,
    Union,
}

/// A JOIN of a table with an optional ON predicate.
pub struct Join {
    pub(crate) from: Table,
    pub(crate) join: JoinType,
    pub(crate) on: Option<On>,
}

impl View for Join {
    type V = JoinV;

    closed spec fn view(&self) -> JoinV {
        view_join(*self)
    }
}

impl Join {
    /// A join of `from`, of the given kind, with an optional ON predicate.
    pub fn new(from: Table, join: JoinType, on: Option<On>) -> (r: Self)
        ensures
            r@ == (JoinV {
                from: from@,
                kind: join,
                on: match on {
                    Option::None => Option::None,
                    Option::Some(o) => Option::Some(o.exp@),
                },
            }),
    {
        broadcast use crate::expressions::lemma_view_exp_is;

        Join { from, join, on }
    }
}

/// An ON predicate of a join.
pub struct On {
    pub exp: Box<Exp>,
}

impl On {
    /// An ON over the given predicate.
    pub fn new(exp: Exp) -> (r: Self)
        ensures
            r.exp@ == exp@,
    {
        On { exp: Box::new(exp) }
    }
}

/// A WHERE clause holding the accumulated predicate.
pub struct Where {
    pub exp: Box<Exp>,
}

impl Where {
    /// A WHERE over the given predicate.
    pub fn new(exp: Exp) -> (r: Self)
        ensures
            r.exp@ == exp@,
    {
        Where { exp: Box::new(exp) }
    }
}

/// The direction of an ORDER BY entry.
#[derive(Debug, PartialEq, Eq, Clone, Copy)]
pub enum Dir {
    Asc,
    Desc,
}

/// One ORDER BY entry: a column and a direction.
pub struct Order {
    pub(crate) by: Col,
    pub(crate) dir: Dir,
}

impl View for Order {
    type V = OrderV;

    closed spec fn view(&self) -> OrderV {
        view_order(*self)
    }
}

impl Order {
    /// An ordering by the given column in the given direction.
    pub fn new(by: Col, dir: Dir) -> (r: Self)
        ensures
            r@ == (OrderV { by: by@, dir }),
    {
        Order { by, dir }
    }
}

impl Limit {
    /// Renders `LIMIT <n>` with the count inlined as a literal integer.
    pub fn to_sql(&self) -> (r: (String, Option<Vec<crate::args::Arg>>))
        ensures
            r.0@ == crate::model::text_of_limit(self@),
            r.1 is None,
    {
        let mut s = "LIMIT ".to_owned();
        crate::text::write_dec_i32(&mut s, self.0);
        (s, None)
    }
}

impl Dir {
    /// Renders the direction keyword; it carries no arguments.
    pub fn to_sql(&self) -> (r: (String, Option<Vec<crate::args::Arg>>))
        ensures
            r.0@ == crate::model::dir_text(*self),
            r.1 is None,
    {
        match self {
            Dir::Asc => ("ASC".to_owned(), None),
            Dir::Desc => ("DESC".to_owned(), None),
        }
    }
}

impl Order {
    /// Renders `<column> ASC|DESC`; an ordering carries no arguments.
    pub fn to_sql(&self) -> (r: (String, Option<Vec<crate::args::Arg>>))
        ensures
            r.0@ == crate::model::text_of_order(self@),
            r.1 is None,
    {
        let (col_sql, _) = self.by.to_sql();
        let (dir_sql, _) = self.dir.to_sql();
        let mut s = col_sql;
        s.append(" ");
        s.append(dir_sql.as_str());
        proof {
            assert(s@ =~= crate::model::text_of_order(self@));
        }
        (s, None)
    }
}

impl Where {
    /// Renders `WHERE <predicate>` with the predicate's arguments.
    pub fn to_sql(&self) -> (r: (String, Option<Vec<crate::args::Arg>>))
        ensures
            r.0@ == crate::model::text_of_where(self.exp@),
            crate::model::opt_args(r.1) == crate::model::args_of_exp(self.exp@),
            r.1 is Some,
        decreases self, 0int,
    {
        let (exp_sql, exp_args) = self.exp.to_sql();
        let mut s = "WHERE ".to_owned();
        s.append(exp_sql.as_str());
        (s, exp_args)
    }
}

impl On {
    /// Renders `ON <predicate>` with the predicate's arguments.
    pub fn to_sql(&self) -> (r: (String, Option<Vec<crate::args::Arg>>))
        ensures
            r.0@ == crate::model::text_of_on(self.exp@),
            crate::model::opt_args(r.1) == crate::model::args_of_exp(self.exp@),
            r.1 is Some,
        decreases self, 0int,
    {
        let (exp_sql, exp_args) = self.exp.to_sql();
        let mut s = "ON ".to_owned();
        s.append(exp_sql.as_str());
        (s, exp_args)
    }
}

impl Join {
    /// Renders `<kind> <table>[ ON <predicate>]` with the ON predicate's
    /// arguments.
    pub fn to_sql(&self) -> (r: (String, Option<Vec<crate::args::Arg>>))
        ensures
            r.0@ == crate::model::text_of_join(self@),
            crate::model::opt_args(r.1) == crate::model::args_of_join(self@),
            r.1 is Some,
        decreases self, 0int,
    {
        broadcast use crate::expressions::lemma_view_exp_is;

        let join_str: String = match self.join {
            JoinType::Inner => "JOIN".to_owned(),
            JoinType::Left => "LEFT JOIN".to_owned(),
            JoinType::Right => "RIGHT JOIN".to_owned(),
            JoinType::Union => "JOIN".to_owned(),
        };
        let mut args: Vec<crate::args::Arg> = Vec::new();
        let (from_sql, _) = self.from.to_sql();
        let mut s = join_str;
        s.append(" ");
        s.append(from_sql.as_str());
        if let Option::Some(on) = &self.on {
            let (exp_sql, exp_args_op) = on.to_sql();
            if let Option::Some(mut v) = exp_args_op {
                proof {
                    crate::args::lemma_view_args_concat(args@, v@);
                    assert(crate::args::view_args(args@) =~= Seq::<crate::args::ArgV>::empty());
                }
                args.append(&mut v);
            }
            s.append(" ");
            s.append(exp_sql.as_str());
        }
        proof {
            assert(s@ =~= crate::model::text_of_join(self@));
            assert(crate::args::view_args(args@) =~= crate::model::args_of_join(self@));
        }
        (s, Some(args))
    }
}

impl Select {
    /// Renders `SELECT [DISTINCT ]<columns comma-joined>`; plain columns
    /// carry no arguments.
    #[verifier::loop_isolation(false)]
    pub fn to_sql(&self) -> (r: (String, Option<Vec<crate::args::Arg>>))
        ensures
            r.0@ == crate::model::text_of_select(self@),
            crate::model::opt_args(r.1) == Seq::<crate::args::ArgV>::empty(),
            r.1 is Some,
    {
        let mut query = "SELECT ".to_owned();
        if self.distinct {
            query.append("DISTINCT ");
        }
        let mut selects: Vec<String> = Vec::new();
        let mut i: usize = 0;
        while i < self.cols.len()
            invariant
                i <= self.cols.len(),
                selects@.map_values(|p: String| p@) == crate::model::texts_of_cols(
                    crate::model::view_cols(self.cols@),
                ).take(i as int),
            decreases self.cols.len() - i,
        {
            let (col_query, _) = self.cols[i].to_sql();
            proof {
                assert(crate::model::texts_of_cols(crate::model::view_cols(self.cols@)).take(
                    i + 1,
                ) =~= crate::model::texts_of_cols(crate::model::view_cols(self.cols@)).take(
                    i as int,
                ).push(col_query@));
                assert((selects@.push(col_query)).map_values(|p: String| p@) =~= selects@
                    .map_values(|p: String| p@).push(col_query@));
            }
            selects.push(col_query);
            i = i + 1;
        }
        proof {
            assert(crate::model::texts_of_cols(crate::model::view_cols(self.cols@)).take(
                self.cols@.len() as int,
            ) =~= crate::model::texts_of_cols(crate::model::view_cols(self.cols@)));
        }
        let joined = crate::text::join_texts(&selects, ", ");
        query.append(joined.as_str());
        proof {
            assert(query@ =~= crate::model::text_of_select(self@));
            assert(crate::args::view_args(Seq::<crate::args::Arg>::empty())
                =~= Seq::<crate::args::ArgV>::empty());
        }
        let empty_args: Vec<crate::args::Arg> = Vec::new();
        (query, Some(empty_args))
    }
}

impl GroupBy {
    /// Renders `GROUP BY <columns comma-joined>[ HAVING <comparison>]` with
    /// the HAVING comparison's arguments.
    #[verifier::loop_isolation(false)]
    pub fn to_sql(&self) -> (r: (String, Option<Vec<crate::args::Arg>>))
        ensures
            r.0@ == crate::model::text_of_groupby(self@),
            crate::model::opt_args(r.1) == crate::model::args_of_groupby(self@),
            r.1 is Some,
        decreases self, 0int,
    {
        broadcast use crate::expressions::lemma_view_cmp_is;

        let mut col_sql: Vec<String> = Vec::new();
        let mut col_args: Vec<crate::args::Arg> = Vec::new();
        let mut i: usize = 0;
        while i < self.cols.len()
            invariant
                i <= self.cols.len(),
                col_sql@.map_values(|p: String| p@) == crate::model::texts_of_cols(
                    crate::model::view_cols(self.cols@),
                ).take(i as int),
            decreases self.cols.len() - i,
        {
            let (sql, _) = self.cols[i].to_sql();
            proof {
                assert(crate::model::texts_of_cols(crate::model::view_cols(self.cols@)).take(
                    i + 1,
                ) =~= crate::model::texts_of_cols(crate::model::view_cols(self.cols@)).take(
                    i as int,
                ).push(sql@));
                assert((col_sql@.push(sql)).map_values(|p: String| p@) =~= col_sql@.map_values(
                    |p: String| p@,
                ).push(sql@));
            }
            col_sql.push(sql);
            i = i + 1;
        }
        proof {
            assert(crate::model::texts_of_cols(crate::model::view_cols(self.cols@)).take(
                self.cols@.len() as int,
            ) =~= crate::model::texts_of_cols(crate::model::view_cols(self.cols@)));
        }
        let joined = crate::text::join_texts(&col_sql, ", ");
        let mut sql = "GROUP BY ".to_owned();
        sql.append(joined.as_str());
        if let Option::Some(having) = &self.having {
            let (having_sql, having_args) = having.to_sql();
            sql.append(" HAVING ");
            sql.append(having_sql.as_str());
            if let Option::Some(mut v) = having_args {
                proof {
                    crate::args::lemma_view_args_concat(col_args@, v@);
                    assert(crate::args::view_args(col_args@) =~= Seq::<crate::args::ArgV>::empty());
                }
                col_args.append(&mut v);
            }
        }
        proof {
            assert(sql@ =~= crate::model::text_of_groupby(self@));
            assert(crate::args::view_args(col_args@) =~= crate::model::args_of_groupby(self@));
        }
        (sql, Some(col_args))
    }
}

impl crate::traits::ToSQL for Limit {
    /// Renders `LIMIT <n>`.
    fn to_sql(&self) -> (r: (String, Option<Vec<crate::args::Arg>>))
        ensures
            r.0@ == crate::model::text_of_limit(self@),
            r.1 is None,
    {
        Limit::to_sql(self)
    }
}

impl crate::traits::ToSQL for Dir {
    /// Renders the direction keyword.
    fn to_sql(&self) -> (r: (String, Option<Vec<crate::args::Arg>>))
        ensures
            r.0@ == crate::model::dir_text(*self),
            r.1 is None,
    {
        Dir::to_sql(self)
    }
}

impl crate::traits::ToSQL for Order {
    /// Renders `<column> ASC|DESC`.
    fn to_sql(&self) -> (r: (String, Option<Vec<crate::args::Arg>>))
        ensures
            r.0@ == crate::model::text_of_order(self@),
            r.1 is None,
    {
        Order::to_sql(self)
    }
}

impl crate::traits::ToSQL for Where {
    /// Renders `WHERE <predicate>` with the predicate's arguments.
    fn to_sql(&self) -> (r: (String, Option<Vec<crate::args::Arg>>))
        ensures
            r.0@ == crate::model::text_of_where(self.exp@),
            crate::model::opt_args(r.1) == crate::model::args_of_exp(self.exp@),
            r.1 is Some,
    {
        Where::to_sql(self)
    }
}

impl crate::traits::ToSQL for On {
    /// Renders `ON <predicate>` with the predicate's arguments.
    fn to_sql(&self) -> (r: (String, Option<Vec<crate::args::Arg>>))
        ensures
            r.0@ == crate::model::text_of_on(self.exp@),
            crate::model::opt_args(r.1) == crate::model::args_of_exp(self.exp@),
            r.1 is Some,
    {
        On::to_sql(self)
    }
}

impl crate::traits::ToSQL for Join {
    /// Renders the join line with the ON predicate's arguments.
    fn to_sql(&self) -> (r: (String, Option<Vec<crate::args::Arg>>))
        ensures
            r.0@ == crate::model::text_of_join(self@),
            crate::model::opt_args(r.1) == crate::model::args_of_join(self@),
    {
        Join::to_sql(self)
    }
}

impl crate::traits::ToSQL for Select {
    /// Renders the select list; plain columns carry no arguments.
    fn to_sql(&self) -> (r: (String, Option<Vec<crate::args::Arg>>))
        ensures
            r.0@ == crate::model::text_of_select(self@),
            crate::model::opt_args(r.1) == Seq::<crate::args::ArgV>::empty(),
    {
        Select::to_sql(self)
    }
}

impl crate::traits::ToSQL for GroupBy {
    /// Renders the GROUP BY clause with the HAVING comparison's arguments.
    fn to_sql(&self) -> (r: (String, Option<Vec<crate::args::Arg>>))
        ensures
            r.0@ == crate::model::text_of_groupby(self@),
            crate::model::opt_args(r.1) == crate::model::args_of_groupby(self@),
    {
        GroupBy::to_sql(self)
    }
}

/// The view of a join is its spec value.
pub(crate) broadcast proof fn lemma_view_join_is(j: &Join)
    ensures
        #[trigger] j@ == view_join(*j),
{
}

/// The view of a GROUP BY clause is its spec value.
pub(crate) broadcast proof fn lemma_view_groupby_is(g: &GroupBy)
    ensures
        #[trigger] g@ == view_groupby(*g),
{
}

/// The view of a select list is its spec value.
pub(crate) broadcast proof fn lemma_view_select_is(s: &Select)
    ensures
        #[trigger] s@ == view_select(*s),
{
}

/// The view of an ORDER BY entry is its spec value.
pub(crate) broadcast proof fn lemma_view_order_is(o: &Order)
    ensures
        #[trigger] o@ == view_order(*o),
{
}

} // verus!
