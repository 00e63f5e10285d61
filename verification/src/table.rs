//! The naming model: tables, table-qualified columns, and the transform
//! chain of scalar/aggregate function wrappers around a column.

use vstd::prelude::*;

use crate::text::placeholder_free;

verus! {

/// A relation name, rendered backtick-quoted.
pub struct Table {
    name: String,
}

impl View for Table {
    type V = Seq<char>;

    closed spec fn view(&self) -> Seq<char> {
        self.name@
    }
}

/// Rendered text of a table reference.
pub open spec fn text_of_table(name: Seq<char>) -> Seq<char> {
    "`"@ + name + "`"@
}

/// Shorthand constructor for a table.
pub fn tb(table_name: &'static str) -> (t: Table)
    ensures
        t@ == table_name@,
{
    Table::new(table_name.to_owned())
}

impl Table {
    /// A table with the given name.
    pub fn new(name: String) -> (t: Self)
        ensures
            t@ == name@,
    {
        Table { name }
    }

    /// A bare reference to one of this table's columns.
    #[allow(dead_code)]
    fn col(&self, name: String) -> (c: Col)
        ensures
            c@ == (ColV {
                table: self@,
                column: name@,
                alias: None,
                chain: Seq::empty(),
            }),
    {
        Col { table_name: self.name.clone(), column: name, alias: None, wrapper: None }
    }

    /// Renders the backtick-quoted table name; a table carries no arguments.
    pub fn to_sql(&self) -> (r: (String, Option<Vec<crate::args::Arg>>))
        ensures
            r.0@ == text_of_table(self@),
            r.1 is None,
    {
        let mut s = "`".to_owned();
        s.append(self.name.as_str());
        s.append("`");
        proof {
            assert(s@ =~= text_of_table(self@));
        }
        (s, None)
    }
}

/// One wrapper of a transform chain, at spec level.  A chain is a sequence
/// of these, outermost wrapper first, applied around the bare column text.
pub enum WrapV {
    Distinct,
    Count,
    Sum,
    Max,
    Min,
    Avg,
    Concat,
    /// Holds the embedded search text, inlined as literal text in the
    /// rendered function call rather than bound as a parameter.
    Instr(Seq<char>),
    Coalesce,
}

/// One wrapper in a transform chain: a scalar/aggregate function composed
/// around the column, each node optionally holding the next-inner node.
enum Wrapper {
    Distinct(Option<Box<Wrapper>>),
    Count(Option<Box<Wrapper>>),
    Sum(Option<Box<Wrapper>>),
    Max(Option<Box<Wrapper>>),
    Min(Option<Box<Wrapper>>),
    Avg(Option<Box<Wrapper>>),
    Concat(Option<Box<Wrapper>>),
    Instr(Option<Box<Wrapper>>, String),
    Coalesce(Option<Box<Wrapper>>),
}

/// The chain a wrapper node stands for, outermost first.
spec fn view_wrapper(w: Wrapper) -> Seq<WrapV>
    decreases w,
{
    match w {
        Wrapper::Distinct(inner) => seq![WrapV::Distinct] + view_inner_chain(inner),
        Wrapper::Count(inner) => seq![WrapV::Count] + view_inner_chain(inner),
        Wrapper::Sum(inner) => seq![WrapV::Sum] + view_inner_chain(inner),
        Wrapper::Max(inner) => seq![WrapV::Max] + view_inner_chain(inner),
        Wrapper::Min(inner) => seq![WrapV::Min] + view_inner_chain(inner),
        Wrapper::Avg(inner) => seq![WrapV::Avg] + view_inner_chain(inner),
        Wrapper::Concat(inner) => seq![WrapV::Concat] + view_inner_chain(inner),
        Wrapper::Instr(inner, txt) => seq![WrapV::Instr(txt@)] + view_inner_chain(inner),
        Wrapper::Coalesce(inner) => seq![WrapV::Coalesce] + view_inner_chain(inner),
    }
}

/// The chain of an optional inner node: empty at the end of the chain.
spec fn view_inner_chain(o: Option<Box<Wrapper>>) -> Seq<WrapV>
    decreases o,
{
    match o {
        Option::None => Seq::empty(),
        Option::Some(b) => view_wrapper(*b),
    }
}

/// The chain of a column's optional outermost wrapper node.
spec fn view_opt_wrapper(o: Option<Wrapper>) -> Seq<WrapV> {
    match o {
        Option::None => Seq::empty(),
        Option::Some(w) => view_wrapper(w),
    }
}

/// The optional inner node of a wrapper node.
spec fn inner_of(w: Wrapper) -> Option<Box<Wrapper>> {
    match w {
        Wrapper::Distinct(inner) => inner,
        Wrapper::Count(inner) => inner,
        Wrapper::Sum(inner) => inner,
        Wrapper::Max(inner) => inner,
        Wrapper::Min(inner) => inner,
        Wrapper::Avg(inner) => inner,
        Wrapper::Concat(inner) => inner,
        Wrapper::Instr(inner, _) => inner,
        Wrapper::Coalesce(inner) => inner,
    }
}

/// The kind of a wrapper node, its inner chain disregarded.
spec fn wrap_kind(w: Wrapper) -> WrapV {
    match w {
        Wrapper::Distinct(_) => WrapV::Distinct,
        Wrapper::Count(_) => WrapV::Count,
        Wrapper::Sum(_) => WrapV::Sum,
        Wrapper::Max(_) => WrapV::Max,
        Wrapper::Min(_) => WrapV::Min,
        Wrapper::Avg(_) => WrapV::Avg,
        Wrapper::Concat(_) => WrapV::Concat,
        Wrapper::Instr(_, txt) => WrapV::Instr(txt@),
        Wrapper::Coalesce(_) => WrapV::Coalesce,
    }
}

/// Rendered text of a transform chain around the given base text, each
/// wrapper emitting `FUNCTION(<inner>)` (with `DISTINCT` as a bare prefix
/// and `INSTR` carrying its literal search text as a second operand).
pub open spec fn chain_text(chain: Seq<WrapV>, base: Seq<char>) -> Seq<char>
    decreases chain.len(),
{
    if chain.len() == 0 {
        base
    } else {
        let inner = chain_text(chain.drop_first(), base);
        match chain[0] {
            WrapV::Distinct => "DISTINCT "@ + inner,
            WrapV::Count => "COUNT("@ + inner + ")"@,
            WrapV::Sum => "SUM("@ + inner + ")"@,
            WrapV::Max => "MAX("@ + inner + ")"@,
            WrapV::Min => "MIN("@ + inner + ")"@,
            WrapV::Avg => "AVG("@ + inner + ")"@,
            WrapV::Concat => "GROUP_CONCAT("@ + inner + ")"@,
            WrapV::Instr(txt) => "INSTR("@ + inner + ", "@ + txt + ")"@,
            WrapV::Coalesce => "COALESCE("@ + inner + ")"@,
        }
    }
}

impl Wrapper {
    /// A structurally equal copy of this wrapper node and its inner chain.
    fn duplicate(&self) -> (r: Wrapper)
        ensures
            view_wrapper(r) == view_wrapper(*self),
        decreases self,
    {
        match self {
            Wrapper::Distinct(inner) => Wrapper::Distinct(dup_inner(inner)),
            Wrapper::Count(inner) => Wrapper::Count(dup_inner(inner)),
            Wrapper::Sum(inner) => Wrapper::Sum(dup_inner(inner)),
            Wrapper::Max(inner) => Wrapper::Max(dup_inner(inner)),
            Wrapper::Min(inner) => Wrapper::Min(dup_inner(inner)),
            Wrapper::Avg(inner) => Wrapper::Avg(dup_inner(inner)),
            Wrapper::Concat(inner) => Wrapper::Concat(dup_inner(inner)),
            Wrapper::Instr(inner, txt) => Wrapper::Instr(dup_inner(inner), txt.clone()),
            Wrapper::Coalesce(inner) => Wrapper::Coalesce(dup_inner(inner)),
        }
    }

    /// Renders this chain around the given base text.
    fn to_sql(&self, parent_sql: String) -> (r: String)
        ensures
            r@ == chain_text(view_wrapper(*self), parent_sql@),
        decreases self,
    {
        let ghost chain = view_wrapper(*self);
        match self {
            Wrapper::Distinct(inner) => {
                let mut s = "DISTINCT ".to_owned();
                let t = apply_inner(inner, parent_sql);
                s.append(t.as_str());
                proof {
                    assert(chain.drop_first() =~= view_inner_chain(*inner));
                }
                s
            },
            Wrapper::Count(inner) => {
                let r = fn_wrap("COUNT(", apply_inner(inner, parent_sql));
                proof {
                    assert(chain.drop_first() =~= view_inner_chain(*inner));
                }
                r
            },
            Wrapper::Sum(inner) => {
                let r = fn_wrap("SUM(", apply_inner(inner, parent_sql));
                proof {
                    assert(chain.drop_first() =~= view_inner_chain(*inner));
                }
                r
            },
            Wrapper::Max(inner) => {
                let r = fn_wrap("MAX(", apply_inner(inner, parent_sql));
                proof {
                    assert(chain.drop_first() =~= view_inner_chain(*inner));
                }
                r
            },
            Wrapper::Min(inner) => {
                let r = fn_wrap("MIN(", apply_inner(inner, parent_sql));
                proof {
                    assert(chain.drop_first() =~= view_inner_chain(*inner));
                }
                r
            },
            Wrapper::Avg(inner) => {
                let r = fn_wrap("AVG(", apply_inner(inner, parent_sql));
                proof {
                    assert(chain.drop_first() =~= view_inner_chain(*inner));
                }
                r
            },
            Wrapper::Concat(inner) => {
                let r = fn_wrap("GROUP_CONCAT(", apply_inner(inner, parent_sql));
                proof {
                    assert(chain.drop_first() =~= view_inner_chain(*inner));
                }
                r
            },
            Wrapper::Instr(inner, txt) => {
                let mut s = "INSTR(".to_owned();
                let t = apply_inner(inner, parent_sql);
                s.append(t.as_str());
                s.append(", ");
                s.append(txt.as_str());
                s.append(")");
                proof {
                    assert(chain.drop_first() =~= view_inner_chain(*inner));
                    assert(s@ =~= "INSTR("@ + chain_text(chain.drop_first(), parent_sql@) + ", "@
                        + txt@ + ")"@);
                }
                s
            },
            Wrapper::Coalesce(inner) => {
                let r = fn_wrap("COALESCE(", apply_inner(inner, parent_sql));
                proof {
                    assert(chain.drop_first() =~= view_inner_chain(*inner));
                }
                r
            },
        }
    }

    /// Composes `outer`'s kind as a new outermost node around this chain.
    fn wrap(self, outer: Wrapper) -> (r: Self)
        ensures
            view_wrapper(r) == seq![wrap_kind(outer)] + view_wrapper(self),
    {
        match outer {
            Wrapper::Distinct(_) => Wrapper::Distinct(Some(Box::new(self))),
            Wrapper::Count(_) => Wrapper::Count(Some(Box::new(self))),
            Wrapper::Sum(_) => Wrapper::Sum(Some(Box::new(self))),
            Wrapper::Max(_) => Wrapper::Max(Some(Box::new(self))),
            Wrapper::Min(_) => Wrapper::Min(Some(Box::new(self))),
            Wrapper::Avg(_) => Wrapper::Avg(Some(Box::new(self))),
            Wrapper::Concat(_) => Wrapper::Concat(Some(Box::new(self))),
            Wrapper::Instr(_, txt) => Wrapper::Instr(Some(Box::new(self)), txt),
            Wrapper::Coalesce(_) => Wrapper::Coalesce(Some(Box::new(self))),
        }
    }
}

/// Copies an optional inner chain.
fn dup_inner(o: &Option<Box<Wrapper>>) -> (r: Option<Box<Wrapper>>)
    ensures
        view_inner_chain(r) == view_inner_chain(*o),
    decreases o,
{
    match o {
        Option::None => Option::None,
        Option::Some(b) => Option::Some(Box::new(b.duplicate())),
    }
}

/// Renders an optional inner chain around the base text.
fn apply_inner(o: &Option<Box<Wrapper>>, parent_sql: String) -> (r: String)
    ensures
        r@ == chain_text(view_inner_chain(*o), parent_sql@),
    decreases o,
{
    match o {
        Option::None => parent_sql,
        Option::Some(b) => b.to_sql(parent_sql),
    }
}

/// Wraps the already-rendered inner text as `<prefix><inner>)`.
fn fn_wrap(prefix: &str, inner: String) -> (r: String)
    ensures
        r@ == prefix@ + inner@ + ")"@,
{
    let mut s = prefix.to_owned();
    s.append(inner.as_str());
    s.append(")");
    proof {
        assert(s@ =~= prefix@ + inner@ + ")"@);
    }
    s
}

/// Spec-level value of a column reference: qualified name, optional alias,
/// and the transform chain, outermost wrapper first.
pub struct ColV {
    pub table: Seq<char>,
    pub column: Seq<char>,
    pub alias: Option<Seq<char>>,
    pub chain: Seq<WrapV>,
}

/// A table-qualified column reference with an optional alias and an
/// optional transform chain.
pub struct Col {
    table_name: String,
    column: String,
    alias: Option<String>,
    wrapper: Option<Wrapper>,
}

impl View for Col {
    type V = ColV;

    closed spec fn view(&self) -> ColV {
        ColV {
            table: self.table_name@,
            column: self.column@,
            alias: match self.alias {
                Option::None => Option::None,
                Option::Some(a) => Option::Some(a@),
            },
            chain: view_opt_wrapper(self.wrapper),
        }
    }
}

impl Clone for Col {
    /// Copies the column reference; the copy has the same spec value.
    fn clone(&self) -> (r: Self)
        ensures
            r@ == self@,
    {
        self.duplicate()
    }
}

impl DeepView for Col {
    type V = ColV;

    open spec fn deep_view(&self) -> ColV {
        self@
    }
}

/// The bare backtick-quoted qualified name of a column.
pub open spec fn qualified_name(c: ColV) -> Seq<char> {
    "`"@ + c.table + "`.`"@ + c.column + "`"@
}

/// Rendered text of a column: the qualified name under the transform chain,
/// with the alias, if any, applied once after the whole chain.
pub open spec fn text_of_col(c: ColV) -> Seq<char> {
    let wrapped = chain_text(c.chain, qualified_name(c));
    match c.alias {
        Option::None => wrapped,
        Option::Some(a) => wrapped + " AS "@ + a,
    }
}

/// Shorthand constructor for a bare column reference.
pub fn cl(table: &'static str, col: &'static str) -> (c: Col)
    ensures
        c@ == (ColV { table: table@, column: col@, alias: None, chain: Seq::empty() }),
{
    Col::new(table, col)
}

/// The error raised when a transform chain is composed invalidly.
#[derive(Debug, PartialEq, Eq)]
pub enum TransformError {
    /// DISTINCT was composed around an existing chain; it is only valid as
    /// the innermost wrapper, directly against the column.
    DistinctNotInnermost,
}

impl Col {
    /// A bare reference to `col` in `table`.
    pub fn new(table: &'static str, col: &'static str) -> (c: Self)
        ensures
            c@ == (ColV { table: table@, column: col@, alias: None, chain: Seq::empty() }),
    {
        Col {
            table_name: table.to_owned(),
            column: col.to_owned(),
            alias: None,
            wrapper: None,
        }
    }

    /// The column's own (unqualified) name.
    pub fn name(&self) -> (r: &str)
        ensures
            r@ == self@.column,
    {
        self.column.as_str()
    }

    /// This column rendered under an alias.
    pub fn as_alias(self, val: &'static str) -> (r: Self)
        ensures
            r@ == (ColV { alias: Some(val@), ..self@ }),
    {
        let mut this = self;
        this.alias = Some(val.to_owned());
        this
    }

    /// A structurally equal copy of this column reference.
    fn duplicate(&self) -> (r: Col)
        ensures
            r@ == self@,
    {
        Col {
            table_name: self.table_name.clone(),
            column: self.column.clone(),
            alias: match &self.alias {
                Option::None => Option::None,
                Option::Some(a) => Option::Some(a.clone()),
            },
            wrapper: match &self.wrapper {
                Option::None => Option::None,
                Option::Some(w) => Option::Some(w.duplicate()),
            },
        }
    }

    /// Wraps the chain in DISTINCT.  DISTINCT is only valid as the innermost
    /// wrapper, so composing it around an existing chain is rejected.
    pub fn distinct(self) -> (r: Result<Self, TransformError>)
        ensures
            self@.chain.len() == 0 ==> (r matches Ok(c) && c@ == (ColV {
                chain: seq![WrapV::Distinct],
                ..self@
            })),
            self@.chain.len() != 0 ==> (r matches Err(e) && e
                == TransformError::DistinctNotInnermost),
    {
        match self.wrapper {
            Option::None => {
                let c = self.do_wrapper(Wrapper::Distinct(None));
                proof {
                    assert(seq![WrapV::Distinct] + Seq::<WrapV>::empty() =~= seq![WrapV::Distinct]);
                }
                Result::Ok(c)
            },
            Option::Some(_) => Result::Err(TransformError::DistinctNotInnermost),
        }
    }

    /// Wraps the chain in COUNT.
    pub fn count(self) -> (r: Self)
        ensures
            r@ == (ColV { chain: seq![WrapV::Count] + self@.chain, ..self@ }),
    {
        self.do_wrapper(Wrapper::Count(None))
    }

    /// Wraps the chain in SUM.
    pub fn sum(self) -> (r: Self)
        ensures
            r@ == (ColV { chain: seq![WrapV::Sum] + self@.chain, ..self@ }),
    {
        self.do_wrapper(Wrapper::Sum(None))
    }

    /// Wraps the chain in MAX.
    pub fn max(self) -> (r: Self)
        ensures
            r@ == (ColV { chain: seq![WrapV::Max] + self@.chain, ..self@ }),
    {
        self.do_wrapper(Wrapper::Max(None))
    }

    /// Wraps the chain in MIN.
    pub fn min(self) -> (r: Self)
        ensures
            r@ == (ColV { chain: seq![WrapV::Min] + self@.chain, ..self@ }),
    {
        self.do_wrapper(Wrapper::Min(None))
    }

    /// Wraps the chain in AVG.
    pub fn avg(self) -> (r: Self)
        ensures
            r@ == (ColV { chain: seq![WrapV::Avg] + self@.chain, ..self@ }),
    {
        self.do_wrapper(Wrapper::Avg(None))
    }

    /// Wraps the chain in GROUP_CONCAT.
    pub fn concat(self) -> (r: Self)
        ensures
            r@ == (ColV { chain: seq![WrapV::Concat] + self@.chain, ..self@ }),
    {
        self.do_wrapper(Wrapper::Concat(None))
    }

    /// Wraps the chain in INSTR with the given literal search text.  The
    /// search text is inlined into the rendered call, not bound as a
    /// parameter, so the caller must pre-validate it.
    pub fn instr(self, search: &'static str) -> (r: Self)
        ensures
            r@ == (ColV { chain: seq![WrapV::Instr(search@)] + self@.chain, ..self@ }),
    {
        self.do_wrapper(Wrapper::Instr(None, search.to_owned()))
    }

    /// Wraps the chain in COALESCE.
    pub fn coalesce(self) -> (r: Self)
        ensures
            r@ == (ColV { chain: seq![WrapV::Coalesce] + self@.chain, ..self@ }),
    {
        self.do_wrapper(Wrapper::Coalesce(None))
    }

    /// The comparison `self = <operand>`.
    pub fn eq<T: crate::expressions::ToExpTar>(self, exp: T) -> (r: crate::expressions::Exp)
        ensures
            r@ == crate::model::ExpV::Cmp(crate::model::CmpV {
                op: crate::expressions::Op::Eq,
                left: crate::model::ExpTarV::Col(self@),
                right: exp.tar_view(),
            }),
    {
        let tar = exp.to_exp_tar();
        self.make_exp(tar, crate::expressions::Op::Eq)
    }

    /// The comparison `self != <operand>`.
    pub fn neq<T: crate::expressions::ToExpTar>(&self, exp: T) -> (r: crate::expressions::Exp)
        ensures
            r@ == crate::model::ExpV::Cmp(crate::model::CmpV {
                op: crate::expressions::Op::Neq,
                left: crate::model::ExpTarV::Col(self@),
                right: exp.tar_view(),
            }),
    {
        let tar = exp.to_exp_tar();
        self.make_exp(tar, crate::expressions::Op::Neq)
    }

    /// The comparison `self < <operand>`.
    pub fn lt<T: crate::expressions::ToExpTar>(&self, exp: T) -> (r: crate::expressions::Exp)
        ensures
            r@ == crate::model::ExpV::Cmp(crate::model::CmpV {
                op: crate::expressions::Op::Lt,
                left: crate::model::ExpTarV::Col(self@),
                right: exp.tar_view(),
            }),
    {
        let tar = exp.to_exp_tar();
        self.make_exp(tar, crate::expressions::Op::Lt)
    }

    /// The comparison `self > <operand>`.
    pub fn gt<T: crate::expressions::ToExpTar>(&self, exp: T) -> (r: crate::expressions::Exp)
        ensures
            r@ == crate::model::ExpV::Cmp(crate::model::CmpV {
                op: crate::expressions::Op::Gt,
                left: crate::model::ExpTarV::Col(self@),
                right: exp.tar_view(),
            }),
    {
        let tar = exp.to_exp_tar();
        self.make_exp(tar, crate::expressions::Op::Gt)
    }

    /// The comparison `self LIKE <pattern>`, the pattern bound as an
    /// argument.
    pub fn like(&self, search: String) -> (r: crate::expressions::Exp)
        ensures
            r@ == crate::model::ExpV::Cmp(crate::model::CmpV {
                op: crate::expressions::Op::Like,
                left: crate::model::ExpTarV::Col(self@),
                right: crate::model::ExpTarV::Arg(crate::args::ArgV::Str(search@)),
            }),
    {
        let tar = crate::expressions::ToExpTar::to_exp_tar(search);
        self.make_exp(tar, crate::expressions::Op::Like)
    }

    /// The membership test `self IN <operand>`.
    pub fn is_in<T: crate::expressions::ToExpTar>(&self, exp: T) -> (r: crate::expressions::Exp)
        ensures
            r@ == crate::model::ExpV::Cmp(crate::model::CmpV {
                op: crate::expressions::Op::In,
                left: crate::model::ExpTarV::Col(self@),
                right: exp.tar_view(),
            }),
    {
        let tar = exp.to_exp_tar();
        self.make_exp(tar, crate::expressions::Op::In)
    }

    /// The test `self IS NULL`.
    pub fn is_null(&self) -> (r: crate::expressions::Exp)
        ensures
            r@ == crate::model::ExpV::Cmp(crate::model::CmpV {
                op: crate::expressions::Op::Is,
                left: crate::model::ExpTarV::Col(self@),
                right: crate::model::ExpTarV::Null,
            }),
    {
        broadcast use crate::expressions::lemma_view_tar_is;

        self.make_exp(crate::expressions::ExpTar::Null, crate::expressions::Op::Is)
    }

    /// The test `self IS NOT NULL`.
    pub fn is_not_null(&self) -> (r: crate::expressions::Exp)
        ensures
            r@ == crate::model::ExpV::Cmp(crate::model::CmpV {
                op: crate::expressions::Op::IsNot,
                left: crate::model::ExpTarV::Col(self@),
                right: crate::model::ExpTarV::Null,
            }),
    {
        broadcast use crate::expressions::lemma_view_tar_is;

        self.make_exp(crate::expressions::ExpTar::Null, crate::expressions::Op::IsNot)
    }

    /// The comparison of this column, on the left, with the operand under
    /// the given operator.
    fn make_exp(&self, comp: crate::expressions::ExpTar, op: crate::expressions::Op) -> (r:
        crate::expressions::Exp)
        ensures
            r@ == crate::model::ExpV::Cmp(crate::model::CmpV {
                op,
                left: crate::model::ExpTarV::Col(self@),
                right: comp@,
            }),
    {
        broadcast use crate::model::group_view_bridges;

        crate::expressions::Exp::Exp(crate::expressions::ExpU::new(
            op,
            crate::expressions::ExpTar::C(self.clone()),
            comp,
        ))
    }

    /// An ascending ordering by this column.
    pub fn asc(&self) -> (r: crate::statements::Order)
        ensures
            r@ == (crate::model::OrderV { by: self@, dir: crate::statements::Dir::Asc }),
    {
        crate::statements::Order::new(self.clone(), crate::statements::Dir::Asc)
    }

    /// A descending ordering by this column.
    pub fn desc(&self) -> (r: crate::statements::Order)
        ensures
            r@ == (crate::model::OrderV { by: self@, dir: crate::statements::Dir::Desc }),
    {
        crate::statements::Order::new(self.clone(), crate::statements::Dir::Desc)
    }

    /// Composes a fresh wrapper node as the new outermost element of the
    /// chain.
    fn do_wrapper(self, wrapper: Wrapper) -> (r: Self)
        requires
            inner_of(wrapper) is None,
        ensures
            r@ == (ColV { chain: seq![wrap_kind(wrapper)] + self@.chain, ..self@ }),
    {
        let ghost k = wrap_kind(wrapper);
        let mut this = self;
        match this.wrapper {
            Option::Some(inner_wrapper) => {
                this.wrapper = Some(inner_wrapper.wrap(wrapper));
            },
            Option::None => {
                proof {
                    assert(seq![k] + Seq::<WrapV>::empty() =~= seq![k]);
                }
                this.wrapper = Some(wrapper);
            },
        }
        this
    }

    /// Renders the column text; a column carries no arguments.
    pub fn to_sql(&self) -> (r: (String, Option<Vec<crate::args::Arg>>))
        ensures
            r.0@ == text_of_col(self@),
            r.1 is None,
    {
        let mut base = "`".to_owned();
        base.append(self.table_name.as_str());
        base.append("`.`");
        base.append(self.column.as_str());
        base.append("`");
        proof {
            assert(base@ =~= qualified_name(self@));
        }
        let mut sql = match &self.wrapper {
            Option::Some(wrapper) => wrapper.to_sql(base),
            Option::None => base,
        };
        if let Option::Some(val) = &self.alias {
            sql.append(" AS ");
            sql.append(val.as_str());
        }
        proof {
            assert(sql@ =~= text_of_col(self@));
        }
        (sql, None)
    }
}

impl crate::traits::ToSQL for Table {
    /// Renders the backtick-quoted table name; a table carries no
    /// arguments.
    fn to_sql(&self) -> (r: (String, Option<Vec<crate::args::Arg>>))
        ensures
            r.0@ == text_of_table(self@),
            r.1 is None,
    {
        Table::to_sql(self)
    }
}

impl crate::traits::ToSQL for Col {
    /// Renders the column text; a column carries no arguments.
    fn to_sql(&self) -> (r: (String, Option<Vec<crate::args::Arg>>))
        ensures
            r.0@ == text_of_col(self@),
            r.1 is None,
    {
        Col::to_sql(self)
    }
}

/// No identifier or inlined text of this column can smuggle a placeholder
/// into the rendered text.
pub open spec fn col_placeholder_clean(c: ColV) -> bool {
    &&& placeholder_free(c.table)
    &&& placeholder_free(c.column)
    &&& (c.alias matches Some(a) ==> placeholder_free(a))
    &&& forall|i: int|
        0 <= i < c.chain.len() ==> (#[trigger] c.chain[i] matches WrapV::Instr(txt)
            ==> placeholder_free(txt))
}

/// A transform chain over placeholder-free base text renders
/// placeholder-free.
pub proof fn lemma_chain_text_placeholder_free(chain: Seq<WrapV>, base: Seq<char>)
    requires
        placeholder_free(base),
        forall|i: int|
            0 <= i < chain.len() ==> (#[trigger] chain[i] matches WrapV::Instr(txt)
                ==> placeholder_free(txt)),
    ensures
        placeholder_free(chain_text(chain, base)),
    decreases chain.len(),
{
    reveal_strlit("DISTINCT ");
    reveal_strlit("COUNT(");
    reveal_strlit("SUM(");
    reveal_strlit("MAX(");
    reveal_strlit("MIN(");
    reveal_strlit("AVG(");
    reveal_strlit("GROUP_CONCAT(");
    reveal_strlit("INSTR(");
    reveal_strlit("COALESCE(");
    reveal_strlit(", ");
    reveal_strlit(")");
    if chain.len() > 0 {
        assert(forall|i: int|
            0 <= i < chain.drop_first().len() ==> (#[trigger] chain.drop_first()[i] matches
                WrapV::Instr(txt) ==> placeholder_free(txt)));
        lemma_chain_text_placeholder_free(chain.drop_first(), base);
        assert(chain[0] matches WrapV::Instr(txt) ==> placeholder_free(txt));
    }
}

/// A placeholder-clean column renders placeholder-free text.
pub proof fn lemma_text_of_col_placeholder_free(c: ColV)
    requires
        col_placeholder_clean(c),
    ensures
        placeholder_free(text_of_col(c)),
{
    reveal_strlit("`");
    reveal_strlit("`.`");
    reveal_strlit(" AS ");
    assert(placeholder_free(qualified_name(c)));
    lemma_chain_text_placeholder_free(c.chain, qualified_name(c));
}

} // verus!
