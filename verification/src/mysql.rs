//! The query builder: a per-query-kind accumulator of clauses that
//! serializes in canonical clause order.

use vstd::prelude::*;

use crate::args::Arg;
use crate::expressions::{Exp, ExpU, Insert, SetClause};
use crate::model::{view_builder, view_cols, BuilderV, GroupByV, SelectV};
use crate::statements::{Dir, GroupBy, Join, JoinType, Limit, On, Order, Select, Where};
use crate::table::{Col, Table};

verus! {

/// The kind of query a builder accumulates: mutually exclusive, selected by
/// the first kind-defining call and fixed by the last one before
/// serialization.
#[derive(Debug, PartialEq, Eq, Clone, Copy)]
pub enum QueryType {
    Select,
    Insert,
    Delete,
    Update,
}

/// The whole query under construction.  Every clause-adding call consumes
/// the builder and returns the updated value, so independent builders never
/// share state.
pub struct MYSQLBuilder {
    pub(crate) from: Option<Table>,
    pub(crate) select: Option<Select>,
    pub(crate) joins: Vec<Join>,
    pub(crate) unions: Vec<MYSQLBuilder>,
    pub(crate) where_clause: Option<Where>,
    pub(crate) set_list: Option<SetClause>,
    pub(crate) insert: Option<Insert>,
    pub(crate) order: Vec<Order>,
    pub(crate) limit: Option<Limit>,
    pub(crate) group_by: Option<GroupBy>,
    pub(crate) query_type: QueryType,
}

impl View for MYSQLBuilder {
    type V = BuilderV;

    closed spec fn view(&self) -> BuilderV {
        view_builder(*self)
    }
}

/// The view of an empty Select-kind builder.
pub open spec fn empty_builder() -> BuilderV {
    BuilderV {
        kind: QueryType::Select,
        from: None,
        select: None,
        joins: Seq::empty(),
        unions: Seq::empty(),
        where_clause: None,
        set_list: None,
        insert: None,
        order: Seq::empty(),
        limit: None,
        group_by: None,
    }
}

impl MYSQLBuilder {
    /// An empty Select-kind builder.
    pub fn new() -> (r: Self)
        ensures
            r@ == empty_builder(),
    {
        proof {
            assert(crate::model::view_orders(Seq::<Order>::empty())
                =~= Seq::<crate::model::OrderV>::empty());
        }
        MYSQLBuilder {
            select: None,
            from: None,
            joins: Vec::new(),
            unions: Vec::new(),
            where_clause: None,
            set_list: None,
            insert: None,
            order: Vec::new(),
            limit: None,
            group_by: None,
            query_type: QueryType::Select,
        }
    }

    /// Sets the FROM table.
    pub fn from(self, table_name: &'static str) -> (r: Self)
        ensures
            r@ == (BuilderV { from: Some(table_name@), ..self@ }),
    {
        let mut this = self;
        this.from = Some(Table::new(table_name.to_owned()));
        this
    }

    /// Adds columns to the select list (creating it if absent) and makes
    /// this a Select-kind builder.
    pub fn select(self, cols: Vec<Col>) -> (r: Self)
        ensures
            r@ == (BuilderV {
                kind: QueryType::Select,
                select: Some(SelectV {
                    cols: (match self@.select {
                        Option::None => Seq::empty(),
                        Option::Some(s) => s.cols,
                    }) + cols.deep_view(),
                    distinct: match self@.select {
                        Option::None => false,
                        Option::Some(s) => s.distinct,
                    },
                }),
                ..self@
            }),
    {
        broadcast use crate::model::group_view_bridges;

        let mut this = self;
        match this.select {
            Option::Some(sel) => {
                let mut grown = sel;
                grown.extend(cols);
                this.select = Some(grown);
            },
            Option::None => {
                this.select = Some(Select::new(cols));
                proof {
                    assert(Seq::<crate::table::ColV>::empty() + view_cols(cols@) =~= view_cols(
                        cols@,
                    ));
                }
            },
        }
        this.query_type = QueryType::Select;
        this
    }

    /// Marks the select list DISTINCT; without a select list this changes
    /// nothing.
    pub fn distinct(self) -> (r: Self)
        ensures
            r@ == (BuilderV {
                select: match self@.select {
                    Option::None => Option::None,
                    Option::Some(s) => Option::Some(SelectV { distinct: true, ..s }),
                },
                ..self@
            }),
    {
        broadcast use crate::model::group_view_bridges;

        let mut this = self;
        match this.select {
            Option::Some(sel) => {
                let mut marked = sel;
                marked.distinct();
                this.select = Some(marked);
            },
            Option::None => {},
        }
        this
    }

    /// Adds an inner join with its ON predicate.
    pub fn join(self, table: Table, on: On) -> (r: Self)
        ensures
            r@ == (BuilderV {
                joins: self@.joins.push(crate::model::JoinV {
                    from: table@,
                    kind: JoinType::Inner,
                    on: Some(on.exp@),
                }),
                ..self@
            }),
    {
        self.do_join(table, *on.exp, JoinType::Inner)
    }

    /// Adds a left join with its ON predicate.
    pub fn left_join(self, table: Table, on: Exp) -> (r: Self)
        ensures
            r@ == (BuilderV {
                joins: self@.joins.push(crate::model::JoinV {
                    from: table@,
                    kind: JoinType::Left,
                    on: Some(on@),
                }),
                ..self@
            }),
    {
        self.do_join(table, on, JoinType::Left)
    }

    /// Adds a right join with its ON predicate.
    pub fn right_join(self, table: Table, on: Exp) -> (r: Self)
        ensures
            r@ == (BuilderV {
                joins: self@.joins.push(crate::model::JoinV {
                    from: table@,
                    kind: JoinType::Right,
                    on: Some(on@),
                }),
                ..self@
            }),
    {
        self.do_join(table, on, JoinType::Right)
    }

    /// Appends a unioned sub-query, serialized after all other clauses.
    pub fn union(self, query: Self) -> (r: Self)
        ensures
            r@ == (BuilderV { unions: self@.unions.push(query@), ..self@ }),
    {
        broadcast use crate::model::group_view_bridges;

        let mut this = self;
        proof {
            crate::model::lemma_view_builders_push(this.unions@, query);
        }
        this.unions.push(query);
        this
    }

    /// Adds a grouping column (creating the GROUP BY clause if absent).
    pub fn group_by(self, by: Col) -> (r: Self)
        ensures
            r@ == (BuilderV {
                group_by: Some(GroupByV {
                    cols: (match self@.group_by {
                        Option::None => Seq::empty(),
                        Option::Some(g) => g.cols,
                    }).push(by@),
                    having: match self@.group_by {
                        Option::None => Option::None,
                        Option::Some(g) => g.having,
                    },
                }),
                ..self@
            }),
    {
        broadcast use crate::model::group_view_bridges;

        let mut this = self;
        let ghost by_view = by@;
        let mut singleton = Vec::new();
        singleton.push(by);
        proof {
            assert(view_cols(singleton@) =~= seq![by_view]);
        }
        match this.group_by {
            Option::Some(g) => {
                let mut grown = g;
                grown.extend(singleton);
                this.group_by = Some(grown);
                proof {
                    assert(this@.group_by->Some_0.cols =~= self@.group_by->Some_0.cols.push(
                        by_view,
                    ));
                }
            },
            Option::None => {
                this.group_by = Some(GroupBy::new(singleton));
                proof {
                    assert(this@.group_by->Some_0.cols =~= Seq::<crate::table::ColV>::empty().push(
                        by_view,
                    ));
                }
            },
        }
        this
    }

    /// Sets the HAVING predicate of the GROUP BY clause; without one this
    /// changes nothing.
    pub fn having(self, exp: ExpU) -> (r: Self)
        ensures
            r@ == (BuilderV {
                group_by: match self@.group_by {
                    Option::None => Option::None,
                    Option::Some(g) => Option::Some(GroupByV { having: Some(exp@), ..g }),
                },
                ..self@
            }),
    {
        broadcast use crate::model::group_view_bridges;

        let mut this = self;
        match this.group_by {
            Option::Some(g) => {
                let mut grown = g;
                grown.having(exp);
                this.group_by = Some(grown);
            },
            Option::None => {},
        }
        this
    }

    /// Appends one ORDER BY entry.
    pub fn order(self, by: Col, dir: Dir) -> (r: Self)
        ensures
            r@ == (BuilderV {
                order: self@.order.push(crate::model::OrderV { by: by@, dir }),
                ..self@
            }),
    {
        broadcast use crate::model::group_view_bridges;

        let mut this = self;
        let entry = Order::new(by, dir);
        proof {
            crate::model::lemma_view_orders_push(this.order@, entry);
        }
        this.order.push(entry);
        this
    }

    /// Sets the LIMIT, replacing any earlier one.
    pub fn limit(self, by: i32) -> (r: Self)
        ensures
            r@ == (BuilderV { limit: Some(by as int), ..self@ }),
    {
        let mut this = self;
        this.limit = Some(Limit::new(by));
        this
    }

    /// ANDs a predicate onto the accumulated WHERE clause, the accumulated
    /// predicate on the left; the first call just installs the predicate.
    pub fn and_where(self, exp: Exp) -> (r: Self)
        ensures
            r@ == (BuilderV { where_clause: Some(with_where(self@.where_clause, exp@)), ..self@ }),
    {
        broadcast use crate::model::group_view_bridges;

        let mut this = self;
        match this.where_clause {
            Option::Some(where_clause) => {
                let prior: Exp = *where_clause.exp;
                this.where_clause = Some(Where { exp: Box::new(prior.and(exp)) });
            },
            Option::None => {
                this.where_clause = Some(Where { exp: Box::new(exp) });
            },
        }
        this
    }

    /// Makes this an Update-kind builder on the given table.
    pub fn update(self, table: Table) -> (r: Self)
        ensures
            r@ == (BuilderV { kind: QueryType::Update, from: Some(table@), ..self@ }),
    {
        let mut this = self;
        this.from = Some(table);
        this.query_type = QueryType::Update;
        this
    }

    /// Sets the SET payload of an update.
    pub fn set(self, set: Vec<Exp>) -> (r: Self)
        ensures
            r@ == (BuilderV { set_list: Some(set.deep_view()), ..self@ }),
    {
        broadcast use crate::model::group_view_bridges;

        let mut this = self;
        this.set_list = Some(SetClause::new(set));
        this
    }

    /// Makes this a Delete-kind builder on the given table.
    pub fn delete(self, table: Table) -> (r: Self)
        ensures
            r@ == (BuilderV { kind: QueryType::Delete, from: Some(table@), ..self@ }),
    {
        let mut this = self;
        this.from = Some(table);
        this.query_type = QueryType::Delete;
        this
    }

    /// Makes this an Insert-kind builder into the given table.
    pub fn insert(self, table: Table) -> (r: Self)
        ensures
            r@ == (BuilderV { kind: QueryType::Insert, from: Some(table@), ..self@ }),
    {
        let mut this = self;
        this.from = Some(table);
        this.query_type = QueryType::Insert;
        this
    }

    /// Sets the inserted column names and row values.  Every row must
    /// supply exactly as many values as there are declared columns.
    pub fn rows(self, keys: Vec<&'static str>, values: Vec<Vec<Arg>>) -> (r: Self)
        requires
            forall|i: int| 0 <= i < values@.len() ==> (#[trigger] values@[i])@.len() == keys@.len(),
        ensures
            r@ == (BuilderV {
                insert: Some(crate::model::InsertV {
                    keys: keys@.map_values(|k: &str| k@),
                    rows: crate::expressions::view_rows(values@),
                }),
                ..self@
            }),
    {
        broadcast use crate::model::group_view_bridges;

        let mut this = self;
        let mut key_strings: Vec<String> = Vec::new();
        let mut i: usize = 0;
        while i < keys.len()
            invariant
                i <= keys.len(),
                key_strings@.map_values(|k: String| k@) =~= keys@.take(i as int).map_values(
                    |k: &str| k@,
                ),
            decreases keys.len() - i,
        {
            key_strings.push(keys[i].to_owned());
            proof {
                assert(keys@.take(i + 1).map_values(|k: &str| k@) =~= keys@.take(
                    i as int,
                ).map_values(|k: &str| k@).push(keys@[i as int]@));
                assert(key_strings@.map_values(|k: String| k@) =~= key_strings@.drop_last(
                ).map_values(|k: String| k@).push(key_strings@.last()@));
            }
            i = i + 1;
        }
        proof {
            assert(keys@.take(keys@.len() as int) =~= keys@);
        }
        this.insert = Some(Insert::new(key_strings, values));
        this
    }

    /// Serializes the accumulated query into its text and its positionally
    /// ordered argument list; pure, so repeated calls give identical
    /// output.
    pub fn to_sql(&self) -> (r: (String, Vec<Arg>))
        ensures
            r.0@ == crate::model::text_of_builder(self@),
            crate::args::view_args(r.1@) == crate::model::args_of_builder(self@),
        decreases self, 2int,
    {
        match self.query_type {
            QueryType::Select => self.to_select_sql(),
            QueryType::Update => self.to_update_sql(),
            QueryType::Insert => self.to_insert_sql(),
            QueryType::Delete => self.to_delete_sql(),
        }
    }

    /// Renders the join lines, each preceded by a line break, with their
    /// arguments concatenated in order.
    #[verifier::loop_isolation(false)]
    fn joins_block(&self) -> (r: (String, Vec<Arg>))
        ensures
            r.0@ == crate::model::joins_part(self@.joins),
            crate::args::view_args(r.1@) == crate::model::joins_args(self@.joins),
        decreases self, 0int,
    {
        broadcast use crate::model::group_view_bridges;

        let ghost jv = self@.joins;
        proof {
            crate::model::lemma_view_joins_elementwise(self.joins@);
        }
        let mut query = String::new();
        let mut args: Vec<Arg> = Vec::new();
        let mut i: usize = 0;
        while i < self.joins.len()
            invariant
                i <= self.joins.len(),
                query@ == crate::model::joins_part(jv.take(i as int)),
                crate::args::view_args(args@) == crate::model::joins_args(jv.take(i as int)),
            decreases self.joins.len() - i,
        {
            proof {
                broadcast use vstd::std_specs::vec::axiom_vec_index_decreases;

                assert(decreases_to!(self.joins => self.joins@[i as int]));
            }
            let (join_query, join_args) = self.joins[i].to_sql();
            query.append("\n");
            query.append(join_query.as_str());
            if let Option::Some(mut v) = join_args {
                proof {
                    crate::args::lemma_view_args_concat(args@, v@);
                }
                args.append(&mut v);
            }
            proof {
                assert(jv.take(i + 1).drop_last() =~= jv.take(i as int));
                assert(jv.take(i + 1).last() == jv[i as int]);
                assert(query@ =~= crate::model::joins_part(jv.take(i + 1)));
            }
            i = i + 1;
        }
        proof {
            assert(jv.take(jv.len() as int) =~= jv);
        }
        (query, args)
    }

    /// Renders the ORDER BY part: empty without entries, else one ORDER BY
    /// with the entries comma-joined; orderings carry no arguments.
    #[verifier::loop_isolation(false)]
    fn order_block(&self) -> (r: String)
        ensures
            r@ == crate::model::order_part(self@.order),
    {
        broadcast use crate::model::group_view_bridges;

        let ghost ov = self@.order;
        let mut order_strings: Vec<String> = Vec::new();
        let mut k: usize = 0;
        while k < self.order.len()
            invariant
                k <= self.order.len(),
                order_strings@.map_values(|p: String| p@) == crate::model::texts_of_orders(
                    ov,
                ).take(k as int),
            decreases self.order.len() - k,
        {
            let (order_query, _) = self.order[k].to_sql();
            proof {
                assert(crate::model::texts_of_orders(ov).take(k + 1)
                    =~= crate::model::texts_of_orders(ov).take(k as int).push(order_query@));
                assert((order_strings@.push(order_query)).map_values(|p: String| p@)
                    =~= order_strings@.map_values(|p: String| p@).push(order_query@));
            }
            order_strings.push(order_query);
            k = k + 1;
        }
        proof {
            assert(crate::model::texts_of_orders(ov).take(self.order@.len() as int)
                =~= crate::model::texts_of_orders(ov));
            assert(ov.len() == self.order@.len());
        }
        let mut query = String::new();
        if order_strings.len() > 0 {
            query.append("\nORDER BY ");
            let joined = crate::text::join_texts(&order_strings, ", ");
            query.append(joined.as_str());
            proof {
                assert(query@ =~= crate::model::order_part(ov));
            }
        }
        query
    }

    /// Renders the unioned sub-queries, each fully serialized after a UNION
    /// separator, their arguments concatenated in order.
    #[verifier::loop_isolation(false)]
    fn unions_block(&self) -> (r: (String, Vec<Arg>))
        ensures
            r.0@ == crate::model::unions_part(self@.unions),
            crate::args::view_args(r.1@) == crate::model::unions_args(self@.unions),
        decreases self, 0int,
    {
        let ghost uv = self@.unions;
        proof {
            crate::model::lemma_view_builders_elementwise(self.unions@);
        }
        let mut query = String::new();
        let mut args: Vec<Arg> = Vec::new();
        let mut u: usize = 0;
        while u < self.unions.len()
            invariant
                u <= self.unions.len(),
                query@ == crate::model::unions_part(uv.take(u as int)),
                crate::args::view_args(args@) == crate::model::unions_args(uv.take(u as int)),
            decreases self.unions.len() - u,
        {
            proof {
                broadcast use vstd::std_specs::vec::axiom_vec_index_decreases;

                assert(decreases_to!(self.unions => self.unions@[u as int]));
            }
            let (union_query, union_args) = self.unions[u].to_sql();
            query.append("\nUNION\n");
            query.append(union_query.as_str());
            let mut v = union_args;
            proof {
                crate::args::lemma_view_args_concat(args@, v@);
            }
            args.append(&mut v);
            proof {
                assert(uv.take(u + 1).drop_last() =~= uv.take(u as int));
                assert(uv.take(u + 1).last() == uv[u as int]);
                assert(query@ =~= crate::model::unions_part(uv.take(u + 1)));
                assert(crate::args::view_args(args@) =~= crate::model::unions_args(
                    uv.take(u + 1),
                ));
            }
            u = u + 1;
        }
        proof {
            assert(uv.take(uv.len() as int) =~= uv);
        }
        (query, args)
    }

    /// Serializes a Select-kind builder in canonical clause order.
    fn to_select_sql(&self) -> (r: (String, Vec<Arg>))
        requires
            self.query_type == QueryType::Select,
        ensures
            r.0@ == crate::model::text_of_builder(self@),
            crate::args::view_args(r.1@) == crate::model::args_of_builder(self@),
        decreases self, 1int,
    {
        broadcast use crate::model::group_view_bridges;

        let ghost bv = self@;
        let mut query: String = match &self.select {
            Option::Some(sel) => sel.to_sql().0,
            Option::None => String::new(),
        };
        let mut args: Vec<Arg> = Vec::new();
        query.append("\nFROM ");
        if let Option::Some(t) = &self.from {
            let (from_query, _) = t.to_sql();
            query.append(from_query.as_str());
        }
        proof {
            assert(query@ =~= crate::model::select_part(bv.select) + crate::model::from_part(
                bv.from,
            ));
        }
        let (joins_query, mut joins_args) = self.joins_block();
        query.append(joins_query.as_str());
        proof {
            crate::args::lemma_view_args_concat(args@, joins_args@);
            assert(crate::args::view_args(args@) =~= Seq::<crate::args::ArgV>::empty());
        }
        args.append(&mut joins_args);
        if let Option::Some(w) = &self.where_clause {
            let (where_query, where_args_op) = w.to_sql();
            query.append("\n");
            query.append(where_query.as_str());
            if let Option::Some(mut v) = where_args_op {
                proof {
                    crate::args::lemma_view_args_concat(args@, v@);
                }
                args.append(&mut v);
            }
        }
        proof {
            assert(query@ =~= crate::model::select_part(bv.select) + crate::model::from_part(
                bv.from,
            ) + crate::model::joins_part(bv.joins) + crate::model::where_part(bv.where_clause));
            assert(crate::args::view_args(args@) =~= crate::model::joins_args(bv.joins)
                + crate::model::where_args(bv.where_clause));
        }
        let ghost pre_group = query@;
        if let Option::Some(g) = &self.group_by {
            let (group_query, group_args_op) = g.to_sql();
            query.append("\n");
            query.append(group_query.as_str());
            if let Option::Some(mut v) = group_args_op {
                proof {
                    crate::args::lemma_view_args_concat(args@, v@);
                }
                args.append(&mut v);
            }
        }
        proof {
            assert(query@ =~= pre_group + crate::model::group_part(bv.group_by));
            assert(crate::args::view_args(args@) =~= crate::model::joins_args(bv.joins)
                + crate::model::where_args(bv.where_clause) + crate::model::group_args(
                bv.group_by,
            ));
        }
        let order_query = self.order_block();
        query.append(order_query.as_str());
        let ghost pre_limit = query@;
        if let Option::Some(l) = &self.limit {
            let (limit_query, _) = l.to_sql();
            query.append("\n");
            query.append(limit_query.as_str());
        }
        proof {
            assert(query@ =~= pre_limit + crate::model::limit_part(bv.limit));
        }
        let (unions_query, mut more_args) = self.unions_block();
        query.append(unions_query.as_str());
        proof {
            crate::args::lemma_view_args_concat(args@, more_args@);
        }
        args.append(&mut more_args);
        proof {
            assert(query@ =~= crate::model::text_of_builder(bv));
            assert(crate::args::view_args(args@) =~= crate::model::args_of_builder(bv));
        }
        (query, args)
    }

    /// Serializes an Update-kind builder; the update path emits nothing.
    fn to_update_sql(&self) -> (r: (String, Vec<Arg>))
        requires
            self.query_type == QueryType::Update,
        ensures
            r.0@ == crate::model::text_of_builder(self@),
            crate::args::view_args(r.1@) == crate::model::args_of_builder(self@),
    {
        (String::new(), Vec::new())
    }

    /// Serializes an Insert-kind builder: `INSERT INTO <table> <payload>`
    /// with the payload's row values flattened row-major.
    fn to_insert_sql(&self) -> (r: (String, Vec<Arg>))
        requires
            self.query_type == QueryType::Insert,
        ensures
            r.0@ == crate::model::text_of_builder(self@),
            crate::args::view_args(r.1@) == crate::model::args_of_builder(self@),
        decreases self, 0int,
    {
        broadcast use crate::model::group_view_bridges;

        let mut args: Vec<Arg> = Vec::new();
        let from_query: String = match &self.from {
            Option::Some(t) => t.to_sql().0,
            Option::None => String::new(),
        };
        let mut query = "INSERT INTO ".to_owned();
        query.append(from_query.as_str());
        query.append(" ");
        if let Option::Some(ins) = &self.insert {
            let (column_query, column_args) = ins.to_sql();
            query.append(column_query.as_str());
            if let Option::Some(mut v) = column_args {
                proof {
                    crate::args::lemma_view_args_concat(args@, v@);
                }
                args.append(&mut v);
            }
        }
        proof {
            assert(query@ =~= crate::model::text_of_builder(self@));
            assert(crate::args::view_args(args@) =~= crate::model::args_of_builder(self@));
        }
        (query, args)
    }

    /// Serializes a Delete-kind builder; the delete path emits nothing.
    fn to_delete_sql(&self) -> (r: (String, Vec<Arg>))
        requires
            self.query_type == QueryType::Delete,
        ensures
            r.0@ == crate::model::text_of_builder(self@),
            crate::args::view_args(r.1@) == crate::model::args_of_builder(self@),
    {
        (String::new(), Vec::new())
    }

    /// Adds a join of the given kind with its ON predicate.
    fn do_join(self, table: Table, on: Exp, join: JoinType) -> (r: Self)
        ensures
            r@ == (BuilderV {
                joins: self@.joins.push(crate::model::JoinV {
                    from: table@,
                    kind: join,
                    on: Some(on@),
                }),
                ..self@
            }),
    {
        broadcast use crate::model::group_view_bridges;

        let mut this = self;
        let new_join = Join::new(table, join, Some(On::new(on)));
        proof {
            crate::model::lemma_view_joins_push(this.joins@, new_join);
        }
        this.joins.push(new_join);
        this
    }
}

/// The predicate a repeated WHERE call accumulates: the first call installs
/// the predicate, later calls AND the new predicate onto the accumulated
/// one, left-biased.
pub open spec fn with_where(prior: Option<crate::model::ExpV>, e: crate::model::ExpV)
    -> crate::model::ExpV {
    match prior {
        Option::None => e,
        Option::Some(w) => crate::model::ExpV::And(Box::new(w), Box::new(e)),
    }
}

impl crate::traits::QueryBuilder for MYSQLBuilder {
    /// An empty Select-kind builder.
    fn query() -> (r: Self)
        ensures
            r@ == empty_builder(),
    {
        MYSQLBuilder::new()
    }

    /// Serializes the accumulated query; pure, so repeated calls give
    /// identical output.
    fn to_sql(&self) -> (r: (String, Vec<Arg>))
        ensures
            r.0@ == crate::model::text_of_builder(self@),
            crate::args::view_args(r.1@) == crate::model::args_of_builder(self@),
    {
        MYSQLBuilder::to_sql(self)
    }
}

impl crate::traits::FetchQBuilder for MYSQLBuilder {
    /// Sets the FROM table.
    fn from(self, table_name: &'static str) -> (r: Self)
        ensures
            r@ == (BuilderV { from: Some(table_name@), ..self@ }),
    {
        MYSQLBuilder::from(self, table_name)
    }

    /// Adds columns to the select list and makes this a Select-kind
    /// builder.
    fn select(self, cols: Vec<Col>) -> (r: Self)
        ensures
            r@ == (BuilderV {
                kind: QueryType::Select,
                select: Some(SelectV {
                    cols: (match self@.select {
                        Option::None => Seq::empty(),
                        Option::Some(s) => s.cols,
                    }) + cols.deep_view(),
                    distinct: match self@.select {
                        Option::None => false,
                        Option::Some(s) => s.distinct,
                    },
                }),
                ..self@
            }),
    {
        MYSQLBuilder::select(self, cols)
    }

    /// Marks the select list DISTINCT; without a select list this changes
    /// nothing.
    fn distinct(self) -> (r: Self)
        ensures
            r@ == (BuilderV {
                select: match self@.select {
                    Option::None => Option::None,
                    Option::Some(s) => Option::Some(SelectV { distinct: true, ..s }),
                },
                ..self@
            }),
    {
        MYSQLBuilder::distinct(self)
    }

    /// Adds an inner join with its ON predicate.
    fn join(self, table: Table, on: On) -> (r: Self)
        ensures
            r@ == (BuilderV {
                joins: self@.joins.push(crate::model::JoinV {
                    from: table@,
                    kind: JoinType::Inner,
                    on: Some(on.exp@),
                }),
                ..self@
            }),
    {
        MYSQLBuilder::join(self, table, on)
    }

    /// Adds a left join with its ON predicate.
    fn left_join(self, table: Table, on: Exp) -> (r: Self)
        ensures
            r@ == (BuilderV {
                joins: self@.joins.push(crate::model::JoinV {
                    from: table@,
                    kind: JoinType::Left,
                    on: Some(on@),
                }),
                ..self@
            }),
    {
        MYSQLBuilder::left_join(self, table, on)
    }

    /// Adds a right join with its ON predicate.
    fn right_join(self, table: Table, on: Exp) -> (r: Self)
        ensures
            r@ == (BuilderV {
                joins: self@.joins.push(crate::model::JoinV {
                    from: table@,
                    kind: JoinType::Right,
                    on: Some(on@),
                }),
                ..self@
            }),
    {
        MYSQLBuilder::right_join(self, table, on)
    }

    /// Appends a unioned sub-query.
    fn union(self, query: Self) -> (r: Self)
        ensures
            r@ == (BuilderV { unions: self@.unions.push(query@), ..self@ }),
    {
        MYSQLBuilder::union(self, query)
    }

    /// Appends one ORDER BY entry.
    fn order(self, by: Col, dir: Dir) -> (r: Self)
        ensures
            r@ == (BuilderV {
                order: self@.order.push(crate::model::OrderV { by: by@, dir }),
                ..self@
            }),
    {
        MYSQLBuilder::order(self, by, dir)
    }

    /// Adds a grouping column.
    fn group_by(self, by: Col) -> (r: Self)
        ensures
            r@ == (BuilderV {
                group_by: Some(GroupByV {
                    cols: (match self@.group_by {
                        Option::None => Seq::empty(),
                        Option::Some(g) => g.cols,
                    }).push(by@),
                    having: match self@.group_by {
                        Option::None => Option::None,
                        Option::Some(g) => g.having,
                    },
                }),
                ..self@
            }),
    {
        MYSQLBuilder::group_by(self, by)
    }

    /// Sets the HAVING predicate of the GROUP BY clause; without one this
    /// changes nothing.
    fn having(self, exp: ExpU) -> (r: Self)
        ensures
            r@ == (BuilderV {
                group_by: match self@.group_by {
                    Option::None => Option::None,
                    Option::Some(g) => Option::Some(GroupByV { having: Some(exp@), ..g }),
                },
                ..self@
            }),
    {
        MYSQLBuilder::having(self, exp)
    }

    /// Sets the LIMIT, replacing any earlier one.
    fn limit(self, by: i32) -> (r: Self)
        ensures
            r@ == (BuilderV { limit: Some(by as int), ..self@ }),
    {
        MYSQLBuilder::limit(self, by)
    }
}

impl crate::traits::WhereQBuilder for MYSQLBuilder {
    /// ANDs a predicate onto the accumulated WHERE clause, the accumulated
    /// predicate on the left.
    fn and_where(self, exp: Exp) -> (r: Self)
        ensures
            r@ == (BuilderV { where_clause: Some(with_where(self@.where_clause, exp@)), ..self@ }),
    {
        MYSQLBuilder::and_where(self, exp)
    }
}

impl crate::traits::UpdateQBuilder for MYSQLBuilder {
    /// Makes this an Update-kind builder on the given table.
    fn update(self, table: Table) -> (r: Self)
        ensures
            r@ == (BuilderV { kind: QueryType::Update, from: Some(table@), ..self@ }),
    {
        MYSQLBuilder::update(self, table)
    }

    /// Sets the SET payload of an update.
    fn set(self, set: Vec<Exp>) -> (r: Self)
        ensures
            r@ == (BuilderV { set_list: Some(set.deep_view()), ..self@ }),
    {
        MYSQLBuilder::set(self, set)
    }
}

impl crate::traits::InsertQBuilder for MYSQLBuilder {
    /// Makes this an Insert-kind builder into the given table.
    fn insert(self, table: Table) -> (r: Self)
        ensures
            r@ == (BuilderV { kind: QueryType::Insert, from: Some(table@), ..self@ }),
    {
        MYSQLBuilder::insert(self, table)
    }

    /// Sets the inserted column names and row values.
    fn rows(self, keys: Vec<&'static str>, values: Vec<Vec<Arg>>) -> (r: Self)
        ensures
            r@ == (BuilderV {
                insert: Some(crate::model::InsertV {
                    keys: keys@.map_values(|k: &str| k@),
                    rows: crate::expressions::view_rows(values@),
                }),
                ..self@
            }),
    {
        MYSQLBuilder::rows(self, keys, values)
    }
}

impl crate::traits::DeleteQBuilder for MYSQLBuilder {
    /// Makes this a Delete-kind builder on the given table.
    fn delete(self, table: Table) -> (r: Self)
        ensures
            r@ == (BuilderV { kind: QueryType::Delete, from: Some(table@), ..self@ }),
    {
        MYSQLBuilder::delete(self, table)
    }
}

/// The view of a builder is its spec value.
pub(crate) broadcast proof fn lemma_view_builder_is(b: &MYSQLBuilder)
    ensures
        #[trigger] b@ == view_builder(*b),
{
}

} // verus!
