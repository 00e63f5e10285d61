//! The predicate expression tree: comparison leaves, AND/OR pairs, n-ary
//! conjunctions, and the operands they compare.

use vstd::prelude::*;

use crate::args::{Arg, ToArg};
use crate::model::{view_cmp, view_exp, view_exps, view_insert, view_tar, CmpV, ExpTarV, ExpV,
    InsertV};
use crate::mysql::MYSQLBuilder;
use crate::table::Col;

verus! {

/// The SET payload of an update: a list of assignment expressions.
pub struct SetClause(pub(crate) Vec<Exp>);

impl View for SetClause {
    type V = Seq<ExpV>;

    closed spec fn view(&self) -> Seq<ExpV> {
        view_exps(self.0@)
    }
}

impl SetClause {
    /// A SET payload over the given expressions.
    pub fn new(val: Vec<Exp>) -> (r: Self)
        ensures
            r@ == val.deep_view(),
    {
        proof {
            lemma_view_exps_is_deep(&val);
        }
        SetClause(val)
    }
}

/// The column list and row values of an INSERT.
pub struct Insert {
    pub(crate) keys: Vec<String>,
    pub(crate) values: Vec<Vec<Arg>>,
}

impl View for Insert {
    type V = InsertV;

    closed spec fn view(&self) -> InsertV {
        view_insert(*self)
    }
}

impl Insert {
    /// An INSERT payload.  Every row must supply exactly as many values as
    /// there are declared columns.
    pub fn new(keys: Vec<String>, values: Vec<Vec<Arg>>) -> (r: Self)
        requires
            forall|i: int| 0 <= i < values@.len() ==> (#[trigger] values@[i])@.len() == keys@.len(),
        ensures
            r@ == (InsertV {
                keys: keys@.map_values(|k: String| k@),
                rows: view_rows(values@),
            }),
    {
        Insert { keys, values }
    }
}

/// The spec values of a sequence of argument rows, in order.
pub open spec fn view_rows(rows: Seq<Vec<Arg>>) -> Seq<Seq<crate::args::ArgV>>
    decreases rows,
{
    if rows.len() == 0 {
        Seq::empty()
    } else {
        view_rows(rows.drop_last()).push(crate::args::view_args(rows.last()@))
    }
}

/// A comparison operator.
#[derive(Debug, PartialEq, Eq)]
pub enum Op {
    Eq,
    Neq,
    Lt,
    Gt,
    In,
    Is,
    Like,
    IsNot,
}

/// A predicate: a comparison leaf, a binary AND/OR pair, or an n-ary
/// conjunction.
pub enum Exp {
    Exp(ExpU),
    And(And),
    Conjunction(Vec<Exp>),
    Or(Or),
}

impl View for Exp {
    type V = ExpV;

    closed spec fn view(&self) -> ExpV {
        view_exp(*self)
    }
}

impl DeepView for Exp {
    type V = ExpV;

    open spec fn deep_view(&self) -> ExpV {
        self@
    }
}

impl Exp {
    /// The AND of two predicates.
    pub fn exp_and(left: Exp, right: Exp) -> (r: Self)
        ensures
            r@ == ExpV::And(Box::new(left@), Box::new(right@)),
    {
        Exp::And(And { left: Box::new(left), right: Box::new(right) })
    }

    /// The OR of two predicates.
    pub fn exp_or(left: Exp, right: Exp) -> (r: Self)
        ensures
            r@ == ExpV::Or(Box::new(left@), Box::new(right@)),
    {
        Exp::Or(Or { left: Box::new(left), right: Box::new(right) })
    }

    /// This predicate ANDed with another, this one on the left.
    pub fn and(self, exp: Exp) -> (r: Self)
        ensures
            r@ == ExpV::And(Box::new(self@), Box::new(exp@)),
    {
        Exp::And(And { left: Box::new(self), right: Box::new(exp) })
    }

    /// This predicate ORed with another, this one on the left.
    pub fn or(self, exp: Exp) -> (r: Self)
        ensures
            r@ == ExpV::Or(Box::new(self@), Box::new(exp@)),
    {
        Exp::Or(Or { left: Box::new(self), right: Box::new(exp) })
    }
}

/// A binary AND of two predicates.
pub struct And {
    pub(crate) left: Box<Exp>,
    pub(crate) right: Box<Exp>,
}

impl View for And {
    type V = ExpV;

    closed spec fn view(&self) -> ExpV {
        ExpV::And(Box::new(view_exp(*self.left)), Box::new(view_exp(*self.right)))
    }
}

/// A binary OR of two predicates.
pub struct Or {
    pub(crate) left: Box<Exp>,
    pub(crate) right: Box<Exp>,
}

impl View for Or {
    type V = ExpV;

    closed spec fn view(&self) -> ExpV {
        ExpV::Or(Box::new(view_exp(*self.left)), Box::new(view_exp(*self.right)))
    }
}

/// One operand of a comparison: a literal argument, a column reference, an
/// explicit NULL, or a nested sub-query.
pub enum ExpTar {
    A(Arg),
    C(Col),
    Null,
    T(MYSQLBuilder),
}

impl View for ExpTar {
    type V = ExpTarV;

    closed spec fn view(&self) -> ExpTarV {
        view_tar(*self)
    }
}

/// A value that converts into a comparison operand.
pub trait ToExpTar: Sized {
    /// The operand this value stands for.
    spec fn tar_view(&self) -> ExpTarV;

    /// Converts this value into a comparison operand.
    fn to_exp_tar(self) -> (r: ExpTar)
        ensures
            r@ == self.tar_view(),
    ;
}

impl<T: ToArg> ToExpTar for T {
    open spec fn tar_view(&self) -> ExpTarV {
        ExpTarV::Arg(self.arg_view())
    }

    fn to_exp_tar(self) -> (r: ExpTar) {
        ExpTar::A(self.to_arg())
    }
}

impl ToExpTar for Col {
    open spec fn tar_view(&self) -> ExpTarV {
        ExpTarV::Col(self@)
    }

    fn to_exp_tar(self) -> (r: ExpTar) {
        ExpTar::C(self)
    }
}

/// One comparison: an operator between two operands.
pub struct ExpU {
    pub(crate) op: Op,
    pub(crate) left: ExpTar,
    pub(crate) right: ExpTar,
}

impl View for ExpU {
    type V = CmpV;

    closed spec fn view(&self) -> CmpV {
        view_cmp(*self)
    }
}

impl ExpU {
    /// The comparison `left op right`.
    pub fn new(op: Op, left: ExpTar, right: ExpTar) -> (r: Self)
        ensures
            r@ == (CmpV { op, left: left@, right: right@ }),
    {
        ExpU { op, left, right }
    }
}

impl Op {
    /// Renders the operator's text; an operator carries no arguments.
    pub fn to_sql(&self) -> (r: (String, Option<Vec<Arg>>))
        ensures
            r.0@ == crate::model::op_text(*self),
            r.1 is None,
    {
        match self {
            Op::Eq => ("=".to_owned(), None),
            Op::Neq => ("!=".to_owned(), None),
            Op::Lt => ("<".to_owned(), None),
            Op::Gt => (">".to_owned(), None),
            Op::In => ("IN".to_owned(), None),
            Op::Is => ("IS".to_owned(), None),
            Op::IsNot => ("IS NOT".to_owned(), None),
            Op::Like => ("LIKE".to_owned(), None),
        }
    }
}

impl ExpTar {
    /// Renders this operand: `NULL` as literal text, a literal argument as
    /// one placeholder (a list as a parenthesized placeholder group), a
    /// column as its own text, a sub-query in parentheses with its full
    /// argument list spliced in.
    pub fn to_sql(&self) -> (r: (String, Option<Vec<Arg>>))
        ensures
            r.0@ == crate::model::text_of_tar(self@),
            crate::model::opt_args(r.1) == crate::model::args_of_tar(self@),
            r.1 is None <==> (self@ matches crate::model::ExpTarV::Null || self@ matches
                crate::model::ExpTarV::Col(_)),
        decreases self, 0int,
    {
        broadcast use crate::model::group_view_bridges;

        match self {
            ExpTar::Null => ("NULL".to_owned(), None),
            ExpTar::A(arg) => match arg {
                Arg::List(arg_set) => {
                    let mut s = "(".to_owned();
                    crate::text::write_placeholders(&mut s, arg_set.len());
                    s.append(")");
                    let copies = crate::args::clone_args(arg_set);
                    proof {
                        crate::args::lemma_view_args_elementwise(arg_set@);
                        assert(s@ =~= "("@ + crate::text::placeholder_list(arg_set@.len()) + ")"@);
                    }
                    (s, Some(copies))
                },
                _ => {
                    let single = arg.clone();
                    let mut copies: Vec<Arg> = Vec::new();
                    copies.push(single);
                    proof {
                        reveal_with_fuel(crate::args::view_args, 3);
                        assert(copies@.drop_last() =~= Seq::<Arg>::empty());
                        assert(copies@.last() == single);
                        assert(crate::args::view_args(copies@) =~= seq![arg@]);
                    }
                    ("?".to_owned(), Some(copies))
                },
            },
            ExpTar::C(col) => (col.to_sql().0, None),
            ExpTar::T(sub_query_builder) => {
                let (sub_query, sub_args) = sub_query_builder.to_sql();
                let mut s = "(".to_owned();
                s.append(sub_query.as_str());
                s.append(")");
                proof {
                    assert(s@ =~= "("@ + crate::model::text_of_builder(sub_query_builder@) + ")"@);
                }
                (s, Some(sub_args))
            },
        }
    }
}

impl ExpU {
    /// Renders the comparison as `(<left> <op> <right>)`, the left
    /// operand's arguments first.
    pub fn to_sql(&self) -> (r: (String, Option<Vec<Arg>>))
        ensures
            r.0@ == crate::model::text_of_cmp(self@),
            crate::model::opt_args(r.1) == crate::model::args_of_cmp(self@),
            r.1 is Some,
        decreases self, 0int,
    {
        broadcast use crate::model::group_view_bridges;

        let mut args: Vec<Arg> = Vec::new();
        let (left, left_args) = self.left.to_sql();
        if let Some(mut v) = left_args {
            proof {
                crate::args::lemma_view_args_concat(args@, v@);
            }
            args.append(&mut v);
        }
        let ghost left_done = args@;
        let (right, right_args) = self.right.to_sql();
        if let Some(mut v) = right_args {
            proof {
                crate::args::lemma_view_args_concat(args@, v@);
            }
            args.append(&mut v);
        }
        let (op_sql, _) = self.op.to_sql();
        let mut s = "(".to_owned();
        s.append(left.as_str());
        s.append(" ");
        s.append(op_sql.as_str());
        s.append(" ");
        s.append(right.as_str());
        s.append(")");
        proof {
            assert(s@ =~= crate::model::text_of_cmp(self@));
            assert(crate::args::view_args(args@) =~= crate::model::args_of_cmp(self@));
        }
        (s, Some(args))
    }
}

impl And {
    /// Renders `(<left> AND <right>)`, the left side's arguments first.
    pub fn to_sql(&self) -> (r: (String, Option<Vec<Arg>>))
        ensures
            r.0@ == crate::model::text_of_exp(self@),
            crate::model::opt_args(r.1) == crate::model::args_of_exp(self@),
            r.1 is Some,
        decreases self, 0int,
    {
        broadcast use crate::model::group_view_bridges;

        let mut args: Vec<Arg> = Vec::new();
        let (left_exp, left_args) = self.left.to_sql();
        if let Some(mut a) = left_args {
            proof {
                crate::args::lemma_view_args_concat(args@, a@);
            }
            args.append(&mut a);
        }
        let (right_exp, right_args) = self.right.to_sql();
        if let Some(mut a) = right_args {
            proof {
                crate::args::lemma_view_args_concat(args@, a@);
            }
            args.append(&mut a);
        }
        let mut s = "(".to_owned();
        s.append(left_exp.as_str());
        s.append(" AND ");
        s.append(right_exp.as_str());
        s.append(")");
        proof {
            assert(s@ =~= crate::model::text_of_exp(self@));
            assert(crate::args::view_args(args@) =~= crate::model::args_of_exp(self@));
        }
        (s, Some(args))
    }
}

impl Or {
    /// Renders `(<left> OR <right>)`, the left side's arguments first.
    pub fn to_sql(&self) -> (r: (String, Option<Vec<Arg>>))
        ensures
            r.0@ == crate::model::text_of_exp(self@),
            crate::model::opt_args(r.1) == crate::model::args_of_exp(self@),
            r.1 is Some,
        decreases self, 0int,
    {
        broadcast use crate::model::group_view_bridges;

        let mut args: Vec<Arg> = Vec::new();
        let (left_exp, left_args) = self.left.to_sql();
        if let Some(mut a) = left_args {
            proof {
                crate::args::lemma_view_args_concat(args@, a@);
            }
            args.append(&mut a);
        }
        let (right_exp, right_args) = self.right.to_sql();
        if let Some(mut a) = right_args {
            proof {
                crate::args::lemma_view_args_concat(args@, a@);
            }
            args.append(&mut a);
        }
        let mut s = "(".to_owned();
        s.append(left_exp.as_str());
        s.append(" OR ");
        s.append(right_exp.as_str());
        s.append(")");
        proof {
            assert(s@ =~= crate::model::text_of_exp(self@));
            assert(crate::args::view_args(args@) =~= crate::model::args_of_exp(self@));
        }
        (s, Some(args))
    }
}

impl Exp {
    /// Renders this predicate into its text and ordered argument list; a
    /// conjunction renders its members AND-joined inside one pair of
    /// parentheses.
    #[verifier::loop_isolation(false)]
    pub fn to_sql(&self) -> (r: (String, Option<Vec<Arg>>))
        ensures
            r.0@ == crate::model::text_of_exp(self@),
            crate::model::opt_args(r.1) == crate::model::args_of_exp(self@),
            r.1 is Some,
        decreases self, 1int,
    {
        broadcast use crate::model::group_view_bridges;

        match self {
            Exp::Exp(e) => e.to_sql(),
            Exp::And(a) => a.to_sql(),
            Exp::Or(o) => o.to_sql(),
            Exp::Conjunction(v) => {
                let ghost vs = crate::model::view_exps(v@);
                proof {
                    crate::model::lemma_view_exps_elementwise(v@);
                    assert(self->Conjunction_0 == *v);
                    assert(decreases_to!(*self => self->Conjunction_0));
                }
                let mut sql: Vec<String> = Vec::new();
                let mut args: Vec<Arg> = Vec::new();
                let mut i: usize = 0;
                while i < v.len()
                    invariant
                        i <= v.len(),
                        sql@.map_values(|p: String| p@) == crate::model::texts_of_exps(
                            vs.take(i as int),
                        ),
                        crate::args::view_args(args@) == crate::model::args_of_exps(
                            vs.take(i as int),
                        ),
                    decreases v.len() - i,
                {
                    proof {
                        broadcast use vstd::std_specs::vec::axiom_vec_index_decreases;

                        assert(decreases_to!(*v => v@[i as int]));
                    }
                    let (s, a) = v[i].to_sql();
                    proof {
                        assert(vs.take(i + 1).drop_last() =~= vs.take(i as int));
                        assert(vs.take(i + 1).last() == vs[i as int]);
                        assert((sql@.push(s)).map_values(|p: String| p@) =~= sql@.map_values(
                            |p: String| p@,
                        ).push(s@));
                    }
                    sql.push(s);
                    if let Some(mut extra) = a {
                        proof {
                            crate::args::lemma_view_args_concat(args@, extra@);
                        }
                        args.append(&mut extra);
                    }
                    i = i + 1;
                }
                proof {
                    assert(vs.take(v@.len() as int) =~= vs);
                }
                let joined = crate::text::join_texts(&sql, " AND ");
                let mut s = "(".to_owned();
                s.append(joined.as_str());
                s.append(")");
                proof {
                    assert(s@ =~= crate::model::text_of_exp(self@));
                }
                (s, Some(args))
            },
        }
    }
}

impl SetClause {
    /// Renders the assignment texts comma-joined; as in the update path at
    /// large, the payload's arguments are not carried.
    pub fn to_sql(&self) -> (r: (String, Option<Vec<Arg>>))
        ensures
            r.0@ == crate::model::text_of_set_list(self@),
            r.1 is None,
    {
        broadcast use crate::model::group_view_bridges;

        let ghost vs = view_exps(self.0@);
        proof {
            crate::model::lemma_view_exps_elementwise(self.0@);
        }
        let mut sql: Vec<String> = Vec::new();
        let mut i: usize = 0;
        while i < self.0.len()
            invariant
                i <= self.0.len(),
                vs == view_exps(self.0@),
                vs.len() == self.0@.len(),
                forall|k: int| 0 <= k < self.0@.len() ==> vs[k] == view_exp(#[trigger] self.0@[k]),
                sql@.map_values(|p: String| p@) == crate::model::texts_of_exps(vs.take(i as int)),
            decreases self.0.len() - i,
        {
            let (s, _) = self.0[i].to_sql();
            proof {
                assert(vs.take(i + 1).drop_last() =~= vs.take(i as int));
                assert(vs.take(i + 1).last() == vs[i as int]);
                assert((sql@.push(s)).map_values(|p: String| p@) =~= sql@.map_values(
                    |p: String| p@,
                ).push(s@));
            }
            sql.push(s);
            i = i + 1;
        }
        proof {
            assert(vs.take(self.0@.len() as int) =~= vs);
        }
        (crate::text::join_texts(&sql, ", "), None)
    }
}

impl crate::traits::ToSQL for Op {
    /// Renders the operator's text; an operator carries no arguments.
    fn to_sql(&self) -> (r: (String, Option<Vec<Arg>>))
        ensures
            r.0@ == crate::model::op_text(*self),
            r.1 is None,
    {
        Op::to_sql(self)
    }
}

impl crate::traits::ToSQL for ExpTar {
    /// Renders this comparison operand.
    fn to_sql(&self) -> (r: (String, Option<Vec<Arg>>))
        ensures
            r.0@ == crate::model::text_of_tar(self@),
            crate::model::opt_args(r.1) == crate::model::args_of_tar(self@),
            r.1 is None <==> (self@ matches crate::model::ExpTarV::Null || self@ matches
                crate::model::ExpTarV::Col(_)),
    {
        ExpTar::to_sql(self)
    }
}

impl crate::traits::ToSQL for ExpU {
    /// Renders the comparison, the left operand's arguments first.
    fn to_sql(&self) -> (r: (String, Option<Vec<Arg>>))
        ensures
            r.0@ == crate::model::text_of_cmp(self@),
            crate::model::opt_args(r.1) == crate::model::args_of_cmp(self@),
    {
        ExpU::to_sql(self)
    }
}

impl crate::traits::ToSQL for And {
    /// Renders `(<left> AND <right>)`, the left side's arguments first.
    fn to_sql(&self) -> (r: (String, Option<Vec<Arg>>))
        ensures
            r.0@ == crate::model::text_of_exp(self@),
            crate::model::opt_args(r.1) == crate::model::args_of_exp(self@),
    {
        And::to_sql(self)
    }
}

impl crate::traits::ToSQL for Or {
    /// Renders `(<left> OR <right>)`, the left side's arguments first.
    fn to_sql(&self) -> (r: (String, Option<Vec<Arg>>))
        ensures
            r.0@ == crate::model::text_of_exp(self@),
            crate::model::opt_args(r.1) == crate::model::args_of_exp(self@),
    {
        Or::to_sql(self)
    }
}

impl crate::traits::ToSQL for Exp {
    /// Renders this predicate into its text and ordered argument list.
    fn to_sql(&self) -> (r: (String, Option<Vec<Arg>>))
        ensures
            r.0@ == crate::model::text_of_exp(self@),
            crate::model::opt_args(r.1) == crate::model::args_of_exp(self@),
    {
        Exp::to_sql(self)
    }
}

impl crate::traits::ToSQL for SetClause {
    /// Renders the assignment texts comma-joined.
    fn to_sql(&self) -> (r: (String, Option<Vec<Arg>>))
        ensures
            r.0@ == crate::model::text_of_set_list(self@),
            r.1 is None,
    {
        SetClause::to_sql(self)
    }
}

impl crate::traits::ToSQL for Insert {
    /// Renders the declared columns and one placeholder group per row.
    fn to_sql(&self) -> (r: (String, Option<Vec<Arg>>))
        ensures
            r.0@ == crate::model::text_of_insert(self@),
            crate::model::opt_args(r.1) == crate::model::args_of_insert(self@),
    {
        Insert::to_sql(self)
    }
}

/// `view_rows` agrees with viewing each row.
pub proof fn lemma_view_rows_elementwise(s: Seq<Vec<Arg>>)
    ensures
        view_rows(s).len() == s.len(),
        forall|i: int|
            0 <= i < s.len() ==> view_rows(s)[i] == crate::args::view_args((#[trigger] s[i])@),
    decreases s,
{
    if s.len() > 0 {
        lemma_view_rows_elementwise(s.drop_last());
        assert forall|i: int| 0 <= i < s.len() implies view_rows(s)[i] == crate::args::view_args(
            (#[trigger] s[i])@,
        ) by {
            if i < s.len() - 1 {
                assert(s.drop_last()[i] == s[i]);
                assert(view_rows(s)[i] == view_rows(s.drop_last())[i]);
            } else {
                assert(s.last() == s[i]);
            }
        }
    }
}

impl Insert {
    /// Renders the declared columns and one placeholder group per row, and
    /// carries the row values flattened row-major.
    #[verifier::loop_isolation(false)]
    pub fn to_sql(&self) -> (r: (String, Option<Vec<Arg>>))
        ensures
            r.0@ == crate::model::text_of_insert(self@),
            crate::model::opt_args(r.1) == crate::model::args_of_insert(self@),
            r.1 is Some,
    {
        broadcast use crate::model::group_view_bridges;

        let ghost rows_v = view_rows(self.values@);
        proof {
            lemma_view_rows_elementwise(self.values@);
        }
        let key_part = crate::text::join_texts(&self.keys, ", ");
        let mut row_strings: Vec<String> = Vec::new();
        let mut args: Vec<Arg> = Vec::new();
        let mut i: usize = 0;
        while i < self.values.len()
            invariant
                i <= self.values.len(),
                row_strings@.map_values(|p: String| p@) == crate::model::row_texts(
                    rows_v.take(i as int),
                ),
                crate::args::view_args(args@) == crate::model::flatten_rows(rows_v.take(i as int)),
            decreases self.values.len() - i,
        {
            let row = &self.values[i];
            let mut rs = "(".to_owned();
            crate::text::write_placeholders(&mut rs, row.len());
            rs.append(")");
            let mut copies = crate::args::clone_args(row);
            proof {
                crate::args::lemma_view_args_elementwise(self.values@[i as int]@);
                assert(rs@ =~= crate::model::row_text(rows_v[i as int]));
                assert(rows_v.take(i + 1).drop_last() =~= rows_v.take(i as int));
                assert((row_strings@.push(rs)).map_values(|p: String| p@)
                    =~= row_strings@.map_values(|p: String| p@).push(rs@));
                assert(crate::model::row_texts(rows_v.take(i + 1)) =~= crate::model::row_texts(
                    rows_v.take(i as int),
                ).push(crate::model::row_text(rows_v[i as int])));
                crate::args::lemma_view_args_concat(args@, copies@);
            }
            row_strings.push(rs);
            args.append(&mut copies);
            i = i + 1;
        }
        proof {
            assert(rows_v.take(self.values@.len() as int) =~= rows_v);
        }
        let values_part = crate::text::join_texts(&row_strings, ",\n ");
        let mut s = "(".to_owned();
        s.append(key_part.as_str());
        s.append(") VALUES\n ");
        s.append(values_part.as_str());
        proof {
            assert(s@ =~= crate::model::text_of_insert(self@));
        }
        (s, Some(args))
    }
}

/// `view_exps` of a vector's contents is the vector's deep view.
pub(crate) proof fn lemma_view_exps_is_deep(v: &Vec<Exp>)
    ensures
        view_exps(v@) == v.deep_view(),
{
    crate::model::lemma_view_exps_elementwise(v@);
    assert(view_exps(v@) =~= v.deep_view());
}

/// The view of a predicate is its spec value.
pub(crate) broadcast proof fn lemma_view_exp_is(e: &Exp)
    ensures
        #[trigger] e@ == view_exp(*e),
{
}

/// The view of a comparison operand is its spec value.
pub(crate) broadcast proof fn lemma_view_tar_is(t: &ExpTar)
    ensures
        #[trigger] t@ == view_tar(*t),
{
}

/// The view of a comparison is its spec value.
pub(crate) broadcast proof fn lemma_view_cmp_is(u: &ExpU)
    ensures
        #[trigger] u@ == view_cmp(*u),
{
}

/// The view of a SET payload is the spec values of its expressions.
pub(crate) broadcast proof fn lemma_view_setclause_is(s: &SetClause)
    ensures
        #[trigger] s@ == view_exps(s.0@),
{
}

/// The view of an INSERT payload is its spec value.
pub(crate) broadcast proof fn lemma_view_insert_is(i: &Insert)
    ensures
        #[trigger] i@ == view_insert(*i),
{
}

} // verus!
