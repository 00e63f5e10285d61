//! The load-bearing laws of the crate, proved over the model: for every
//! rendered fragment the number of `?` placeholders in the text equals the
//! length of the returned argument list, conjunctions flatten argument
//! lists exactly as manual nesting does, NULL operands bind nothing,
//! serialization is deterministic, and chained WHERE calls accumulate
//! left-biased.

use vstd::prelude::*;

use crate::args::ArgV;
use crate::model::{args_of_builder, args_of_cmp, args_of_exp, args_of_exps, args_of_groupby,
    args_of_insert, args_of_join, args_of_tar, clean_builder, clean_cmp, clean_cols, clean_exp,
    clean_exps, clean_groupby, clean_insert, clean_join, clean_joins, clean_orders, clean_tar,
    clean_unions, dir_text, flatten_rows, from_part, group_args, group_part, joins_args,
    joins_part, limit_part, op_text, order_part, row_text, row_texts, select_part,
    text_of_builder, text_of_cmp, text_of_exp, text_of_groupby, text_of_insert, text_of_join,
    text_of_limit, text_of_order, text_of_select, text_of_tar, texts_of_cols, texts_of_exps,
    texts_of_orders, unions_args, unions_part, where_args, where_part, BuilderV, CmpV, ExpTarV,
    ExpV, GroupByV, InsertV, JoinV, OrderV, SelectV};
use crate::mysql::{with_where, MYSQLBuilder, QueryType};
use crate::expressions::Op;
use crate::statements::{Dir, JoinType};
use crate::table::{col_placeholder_clean, lemma_text_of_col_placeholder_free, text_of_col,
    text_of_table, ColV};
use crate::text::{lemma_dec_int_placeholder_free, lemma_placeholder_count_concat,
    lemma_placeholder_free_count, lemma_placeholder_list_count, lemma_seq_join_placeholder_free,
    placeholder_count, placeholder_free, placeholder_list, seq_join};

verus! {

/// A concatenation of placeholder-free texts is placeholder-free.
proof fn lemma_free_concat(a: Seq<char>, b: Seq<char>)
    requires
        placeholder_free(a),
        placeholder_free(b),
    ensures
        placeholder_free(a + b),
{
    assert forall|i: int| 0 <= i < (a + b).len() implies (a + b)[i] != '?' by {
        if i < a.len() {
            assert((a + b)[i] == a[i]);
        } else {
            assert((a + b)[i] == b[i - a.len()]);
        }
    }
}

/// Operator text never holds a placeholder.
proof fn lemma_op_text_free(op: Op)
    ensures
        placeholder_free(op_text(op)),
{
    reveal_strlit("=");
    reveal_strlit("!=");
    reveal_strlit("<");
    reveal_strlit(">");
    reveal_strlit("IN");
    reveal_strlit("IS");
    reveal_strlit("IS NOT");
    reveal_strlit("LIKE");
}

/// Join keywords never hold a placeholder.
proof fn lemma_join_kw_free(k: JoinType)
    ensures
        placeholder_free(crate::model::join_kw(k)),
{
    reveal_strlit("JOIN");
    reveal_strlit("LEFT JOIN");
    reveal_strlit("RIGHT JOIN");
}

/// A table reference over a placeholder-free name renders placeholder-free.
proof fn lemma_table_text_free(name: Seq<char>)
    requires
        placeholder_free(name),
    ensures
        placeholder_free(text_of_table(name)),
{
    reveal_strlit("`");
    lemma_free_concat("`"@, name);
    lemma_free_concat("`"@ + name, "`"@);
}

/// The single placeholder counts as one.
proof fn lemma_single_placeholder_count()
    ensures
        placeholder_count("?"@) == 1,
{
    reveal_strlit("?");
    reveal_with_fuel(placeholder_count, 3);
    assert("?"@.drop_last() =~= Seq::<char>::empty());
}

/// Texts of placeholder-clean columns are placeholder-free, and their
/// comma-join counts no placeholder.
proof fn lemma_cols_join_count(s: Seq<ColV>)
    requires
        clean_cols(s),
    ensures
        placeholder_count(seq_join(texts_of_cols(s), ", "@)) == 0,
{
    reveal_strlit(", ");
    assert forall|i: int| 0 <= i < texts_of_cols(s).len() implies placeholder_free(
        #[trigger] texts_of_cols(s)[i],
    ) by {
        lemma_text_of_col_placeholder_free(s[i]);
    }
    lemma_seq_join_placeholder_free(texts_of_cols(s), ", "@);
    lemma_placeholder_free_count(seq_join(texts_of_cols(s), ", "@));
}

/// Placeholder/argument alignment of one comparison operand: the operand's
/// text claims exactly as many arguments as it returns.
pub proof fn lemma_tar_alignment(t: ExpTarV)
    requires
        clean_tar(t),
    ensures
        placeholder_count(text_of_tar(t)) == args_of_tar(t).len(),
    decreases t,
{
    reveal_strlit("NULL");
    reveal_strlit("(");
    reveal_strlit(")");
    match t {
        ExpTarV::Null => {
            assert(placeholder_free("NULL"@));
            lemma_placeholder_free_count("NULL"@);
        },
        ExpTarV::Arg(a) => {
            match a {
                ArgV::List(items) => {
                    lemma_placeholder_list_count(items.len());
                    lemma_placeholder_free_count("("@);
                    lemma_placeholder_free_count(")"@);
                    lemma_placeholder_count_concat("("@, placeholder_list(items.len()));
                    lemma_placeholder_count_concat("("@ + placeholder_list(items.len()), ")"@);
                },
                _ => {
                    lemma_single_placeholder_count();
                },
            }
        },
        ExpTarV::Col(c) => {
            lemma_text_of_col_placeholder_free(c);
            lemma_placeholder_free_count(text_of_col(c));
        },
        ExpTarV::Sub(b) => {
            lemma_builder_alignment(*b);
            lemma_placeholder_free_count("("@);
            lemma_placeholder_free_count(")"@);
            lemma_placeholder_count_concat("("@, text_of_builder(*b));
            lemma_placeholder_count_concat("("@ + text_of_builder(*b), ")"@);
        },
    }
}

/// Placeholder/argument alignment of one comparison.
pub proof fn lemma_cmp_alignment(c: CmpV)
    requires
        clean_cmp(c),
    ensures
        placeholder_count(text_of_cmp(c)) == args_of_cmp(c).len(),
    decreases c,
{
    reveal_strlit("(");
    reveal_strlit(")");
    reveal_strlit(" ");
    lemma_tar_alignment(c.left);
    lemma_tar_alignment(c.right);
    lemma_op_text_free(c.op);
    lemma_placeholder_free_count(op_text(c.op));
    lemma_placeholder_free_count("("@);
    lemma_placeholder_free_count(")"@);
    lemma_placeholder_free_count(" "@);
    let tl = text_of_tar(c.left);
    let tr = text_of_tar(c.right);
    let ot = op_text(c.op);
    lemma_placeholder_count_concat("("@, tl);
    lemma_placeholder_count_concat("("@ + tl, " "@);
    lemma_placeholder_count_concat("("@ + tl + " "@, ot);
    lemma_placeholder_count_concat("("@ + tl + " "@ + ot, " "@);
    lemma_placeholder_count_concat("("@ + tl + " "@ + ot + " "@, tr);
    lemma_placeholder_count_concat("("@ + tl + " "@ + ot + " "@ + tr, ")"@);
}

/// The texts of a sequence of predicates are as many as the predicates.
proof fn lemma_texts_of_exps_len(s: Seq<ExpV>)
    ensures
        texts_of_exps(s).len() == s.len(),
    decreases s,
{
    if s.len() > 0 {
        lemma_texts_of_exps_len(s.drop_last());
    }
}

/// Placeholder/argument alignment of one predicate: the core invariant of
/// the crate, at the expression level.
pub proof fn lemma_exp_alignment(e: ExpV)
    requires
        clean_exp(e),
    ensures
        placeholder_count(text_of_exp(e)) == args_of_exp(e).len(),
    decreases e,
{
    reveal_strlit("(");
    reveal_strlit(")");
    reveal_strlit(" AND ");
    reveal_strlit(" OR ");
    lemma_placeholder_free_count("("@);
    lemma_placeholder_free_count(")"@);
    match e {
        ExpV::Cmp(c) => {
            lemma_cmp_alignment(c);
        },
        ExpV::And(l, r) => {
            lemma_exp_alignment(*l);
            lemma_exp_alignment(*r);
            lemma_placeholder_free_count(" AND "@);
            let tl = text_of_exp(*l);
            let tr = text_of_exp(*r);
            lemma_placeholder_count_concat("("@, tl);
            lemma_placeholder_count_concat("("@ + tl, " AND "@);
            lemma_placeholder_count_concat("("@ + tl + " AND "@, tr);
            lemma_placeholder_count_concat("("@ + tl + " AND "@ + tr, ")"@);
        },
        ExpV::Or(l, r) => {
            lemma_exp_alignment(*l);
            lemma_exp_alignment(*r);
            lemma_placeholder_free_count(" OR "@);
            let tl = text_of_exp(*l);
            let tr = text_of_exp(*r);
            lemma_placeholder_count_concat("("@, tl);
            lemma_placeholder_count_concat("("@ + tl, " OR "@);
            lemma_placeholder_count_concat("("@ + tl + " OR "@, tr);
            lemma_placeholder_count_concat("("@ + tl + " OR "@ + tr, ")"@);
        },
        ExpV::Conjunction(es) => {
            lemma_conjunction_alignment(es);
            let joined = seq_join(texts_of_exps(es), " AND "@);
            lemma_placeholder_count_concat("("@, joined);
            lemma_placeholder_count_concat("("@ + joined, ")"@);
        },
    }
}

/// Placeholder/argument alignment of an AND-joined sequence of predicates.
pub proof fn lemma_conjunction_alignment(s: Seq<ExpV>)
    requires
        clean_exps(s),
    ensures
        placeholder_count(seq_join(texts_of_exps(s), " AND "@)) == args_of_exps(s).len(),
    decreases s,
{
    reveal_strlit(" AND ");
    lemma_texts_of_exps_len(s);
    if s.len() == 0 {
    } else if s.len() == 1 {
        lemma_exp_alignment(s.last());
        assert(s.drop_last() =~= Seq::<ExpV>::empty());
        assert(texts_of_exps(s)[0] == text_of_exp(s.last()));
        assert(args_of_exps(s.drop_last()) =~= Seq::<ArgV>::empty());
        assert(args_of_exps(s) =~= args_of_exp(s.last()));
    } else {
        lemma_conjunction_alignment(s.drop_last());
        lemma_exp_alignment(s.last());
        lemma_texts_of_exps_len(s.drop_last());
        assert(texts_of_exps(s).drop_last() =~= texts_of_exps(s.drop_last()));
        assert(texts_of_exps(s).last() == text_of_exp(s.last()));
        lemma_placeholder_free_count(" AND "@);
        let prior = seq_join(texts_of_exps(s.drop_last()), " AND "@);
        lemma_placeholder_count_concat(prior, " AND "@);
        lemma_placeholder_count_concat(prior + " AND "@, text_of_exp(s.last()));
    }
}

/// Placeholder/argument alignment of one join line.
pub proof fn lemma_join_alignment(j: JoinV)
    requires
        clean_join(j),
    ensures
        placeholder_count(text_of_join(j)) == args_of_join(j).len(),
    decreases j,
{
    reveal_strlit(" ");
    reveal_strlit("ON ");
    lemma_join_kw_free(j.kind);
    lemma_table_text_free(j.from);
    lemma_free_concat(crate::model::join_kw(j.kind), " "@);
    lemma_free_concat(crate::model::join_kw(j.kind) + " "@, text_of_table(j.from));
    let head = crate::model::join_kw(j.kind) + " "@ + text_of_table(j.from);
    lemma_placeholder_free_count(head);
    match j.on {
        Option::None => {
            assert(text_of_join(j) =~= head);
        },
        Option::Some(e) => {
            lemma_exp_alignment(e);
            lemma_placeholder_free_count(" "@);
            lemma_placeholder_free_count("ON "@);
            lemma_placeholder_count_concat(" "@, "ON "@ + text_of_exp(e));
            lemma_placeholder_count_concat("ON "@, text_of_exp(e));
            lemma_placeholder_count_concat(head, " "@ + ("ON "@ + text_of_exp(e)));
        },
    }
}

/// Placeholder/argument alignment of the whole joins block.
pub proof fn lemma_joins_alignment(s: Seq<JoinV>)
    requires
        clean_joins(s),
    ensures
        placeholder_count(joins_part(s)) == joins_args(s).len(),
    decreases s,
{
    reveal_strlit("\n");
    if s.len() > 0 {
        lemma_joins_alignment(s.drop_last());
        lemma_join_alignment(s.last());
        lemma_placeholder_free_count("\n"@);
        lemma_placeholder_count_concat(joins_part(s.drop_last()), "\n"@);
        lemma_placeholder_count_concat(joins_part(s.drop_last()) + "\n"@, text_of_join(s.last()));
    }
}

/// Placeholder/argument alignment of a GROUP BY clause with its HAVING.
pub proof fn lemma_groupby_alignment(g: GroupByV)
    requires
        clean_groupby(g),
    ensures
        placeholder_count(text_of_groupby(g)) == args_of_groupby(g).len(),
    decreases g,
{
    reveal_strlit("GROUP BY ");
    reveal_strlit(" HAVING ");
    lemma_cols_join_count(g.cols);
    lemma_placeholder_free_count("GROUP BY "@);
    let cols_text = seq_join(texts_of_cols(g.cols), ", "@);
    lemma_placeholder_count_concat("GROUP BY "@, cols_text);
    match g.having {
        Option::None => {
            assert(text_of_groupby(g) =~= "GROUP BY "@ + cols_text);
        },
        Option::Some(h) => {
            lemma_cmp_alignment(h);
            lemma_placeholder_free_count(" HAVING "@);
            lemma_placeholder_count_concat(" HAVING "@, text_of_cmp(h));
            lemma_placeholder_count_concat(
                "GROUP BY "@ + cols_text,
                " HAVING "@ + text_of_cmp(h),
            );
        },
    }
}

/// A select list over placeholder-clean columns claims no argument.
pub proof fn lemma_select_count(s: SelectV)
    requires
        clean_cols(s.cols),
    ensures
        placeholder_count(text_of_select(s)) == 0,
{
    reveal_strlit("SELECT ");
    reveal_strlit("DISTINCT ");
    lemma_cols_join_count(s.cols);
    let cols_text = seq_join(texts_of_cols(s.cols), ", "@);
    lemma_placeholder_free_count("SELECT "@);
    if s.distinct {
        lemma_placeholder_free_count("DISTINCT "@);
        lemma_placeholder_count_concat("SELECT "@, "DISTINCT "@);
        lemma_placeholder_count_concat("SELECT "@ + "DISTINCT "@, cols_text);
    } else {
        assert("SELECT "@ + Seq::<char>::empty() =~= "SELECT "@);
        lemma_placeholder_count_concat("SELECT "@ + Seq::<char>::empty(), cols_text);
    }
}

/// The ORDER BY part over placeholder-clean columns claims no argument.
pub proof fn lemma_order_part_count(s: Seq<OrderV>)
    requires
        clean_orders(s),
    ensures
        placeholder_count(order_part(s)) == 0,
{
    reveal_strlit("\nORDER BY ");
    reveal_strlit(", ");
    reveal_strlit(" ");
    reveal_strlit("ASC");
    reveal_strlit("DESC");
    if s.len() > 0 {
        assert forall|i: int| 0 <= i < texts_of_orders(s).len() implies placeholder_free(
            #[trigger] texts_of_orders(s)[i],
        ) by {
            lemma_text_of_col_placeholder_free(s[i].by);
            lemma_free_concat(text_of_col(s[i].by), " "@);
            assert(placeholder_free(dir_text(s[i].dir)));
            lemma_free_concat(text_of_col(s[i].by) + " "@, dir_text(s[i].dir));
        }
        lemma_seq_join_placeholder_free(texts_of_orders(s), ", "@);
        lemma_free_concat("\nORDER BY "@, seq_join(texts_of_orders(s), ", "@));
        lemma_placeholder_free_count(order_part(s));
    }
}

/// Placeholder/argument alignment of one inserted row's placeholder group.
proof fn lemma_row_alignment(row: Seq<ArgV>)
    ensures
        placeholder_count(row_text(row)) == row.len(),
{
    reveal_strlit("(");
    reveal_strlit(")");
    lemma_placeholder_list_count(row.len());
    lemma_placeholder_free_count("("@);
    lemma_placeholder_free_count(")"@);
    lemma_placeholder_count_concat("("@, placeholder_list(row.len()));
    lemma_placeholder_count_concat("("@ + placeholder_list(row.len()), ")"@);
}

/// Placeholder/argument alignment of the joined row groups: the flattened
/// row-major argument list matches the placeholders exactly.
proof fn lemma_rows_alignment(rows: Seq<Seq<ArgV>>)
    ensures
        placeholder_count(seq_join(row_texts(rows), ",\n "@)) == flatten_rows(rows).len(),
    decreases rows,
{
    reveal_strlit(",\n ");
    if rows.len() == 0 {
    } else if rows.len() == 1 {
        lemma_row_alignment(rows.last());
        assert(rows.drop_last() =~= Seq::<Seq<ArgV>>::empty());
        assert(row_texts(rows)[0] == row_text(rows[0]));
        assert(flatten_rows(rows.drop_last()) =~= Seq::<ArgV>::empty());
        assert(flatten_rows(rows) =~= rows.last());
    } else {
        lemma_rows_alignment(rows.drop_last());
        lemma_row_alignment(rows.last());
        assert(row_texts(rows).drop_last() =~= row_texts(rows.drop_last()));
        assert(row_texts(rows).last() == row_text(rows.last()));
        lemma_placeholder_free_count(",\n "@);
        let prior = seq_join(row_texts(rows.drop_last()), ",\n "@);
        lemma_placeholder_count_concat(prior, ",\n "@);
        lemma_placeholder_count_concat(prior + ",\n "@, row_text(rows.last()));
    }
}

/// Placeholder/argument alignment of an INSERT payload.
pub proof fn lemma_insert_alignment(i: InsertV)
    requires
        clean_insert(i),
    ensures
        placeholder_count(text_of_insert(i)) == args_of_insert(i).len(),
{
    reveal_strlit("(");
    reveal_strlit(", ");
    reveal_strlit(") VALUES\n ");
    lemma_seq_join_placeholder_free(i.keys, ", "@);
    lemma_free_concat("("@, seq_join(i.keys, ", "@));
    lemma_free_concat("("@ + seq_join(i.keys, ", "@), ") VALUES\n "@);
    let head = "("@ + seq_join(i.keys, ", "@) + ") VALUES\n "@;
    lemma_placeholder_free_count(head);
    lemma_rows_alignment(i.rows);
    lemma_placeholder_count_concat(head, seq_join(row_texts(i.rows), ",\n "@));
}

/// Placeholder/argument alignment of a whole serialized builder: the count
/// of `?` in the full query text equals the length of the full argument
/// list, through every level of nesting.
pub proof fn lemma_builder_alignment(b: BuilderV)
    requires
        clean_builder(b),
    ensures
        placeholder_count(text_of_builder(b)) == args_of_builder(b).len(),
    decreases b,
{
    match b.kind {
        QueryType::Select => {
            reveal_strlit("\nFROM ");
            reveal_strlit("\n");
            reveal_strlit("WHERE ");
            reveal_strlit("LIMIT ");
            match b.select {
                Option::None => {},
                Option::Some(s) => {
                    lemma_select_count(s);
                },
            }
            assert(placeholder_count(select_part(b.select)) == 0);
            match b.from {
                Option::None => {
                    assert("\nFROM "@ + Seq::<char>::empty() =~= "\nFROM "@);
                },
                Option::Some(name) => {
                    lemma_table_text_free(name);
                    lemma_free_concat("\nFROM "@, text_of_table(name));
                },
            }
            lemma_placeholder_free_count(from_part(b.from));
            lemma_joins_alignment(b.joins);
            match b.where_clause {
                Option::None => {},
                Option::Some(e) => {
                    lemma_exp_alignment(e);
                    lemma_placeholder_free_count("\n"@);
                    lemma_placeholder_free_count("WHERE "@);
                    lemma_placeholder_count_concat("WHERE "@, text_of_exp(e));
                    lemma_placeholder_count_concat("\n"@, "WHERE "@ + text_of_exp(e));
                },
            }
            assert(placeholder_count(where_part(b.where_clause)) == where_args(
                b.where_clause,
            ).len());
            match b.group_by {
                Option::None => {},
                Option::Some(g) => {
                    lemma_groupby_alignment(g);
                    lemma_placeholder_free_count("\n"@);
                    lemma_placeholder_count_concat("\n"@, text_of_groupby(g));
                },
            }
            assert(placeholder_count(group_part(b.group_by)) == group_args(b.group_by).len());
            lemma_order_part_count(b.order);
            match b.limit {
                Option::None => {},
                Option::Some(n) => {
                    lemma_dec_int_placeholder_free(n);
                    lemma_placeholder_free_count("\n"@);
                    lemma_placeholder_free_count("LIMIT "@);
                    lemma_free_concat("LIMIT "@, crate::text::dec_int(n));
                    lemma_placeholder_free_count(text_of_limit(n));
                    lemma_placeholder_count_concat("\n"@, text_of_limit(n));
                },
            }
            assert(placeholder_count(limit_part(b.limit)) == 0);
            lemma_unions_alignment(b.unions);
            let p1 = select_part(b.select);
            let p2 = from_part(b.from);
            let p3 = joins_part(b.joins);
            let p4 = where_part(b.where_clause);
            let p5 = group_part(b.group_by);
            let p6 = order_part(b.order);
            let p7 = limit_part(b.limit);
            let p8 = unions_part(b.unions);
            lemma_placeholder_count_concat(p1, p2);
            lemma_placeholder_count_concat(p1 + p2, p3);
            lemma_placeholder_count_concat(p1 + p2 + p3, p4);
            lemma_placeholder_count_concat(p1 + p2 + p3 + p4, p5);
            lemma_placeholder_count_concat(p1 + p2 + p3 + p4 + p5, p6);
            lemma_placeholder_count_concat(p1 + p2 + p3 + p4 + p5 + p6, p7);
            lemma_placeholder_count_concat(p1 + p2 + p3 + p4 + p5 + p6 + p7, p8);
        },
        QueryType::Insert => {
            reveal_strlit("INSERT INTO ");
            reveal_strlit(" ");
            let table_text = match b.from {
                Option::None => Seq::<char>::empty(),
                Option::Some(name) => text_of_table(name),
            };
            match b.from {
                Option::None => {},
                Option::Some(name) => {
                    lemma_table_text_free(name);
                },
            }
            lemma_free_concat("INSERT INTO "@, table_text);
            lemma_free_concat("INSERT INTO "@ + table_text, " "@);
            let head = "INSERT INTO "@ + table_text + " "@;
            lemma_placeholder_free_count(head);
            match b.insert {
                Option::None => {
                    assert(head + Seq::<char>::empty() =~= head);
                    lemma_placeholder_count_concat(head, Seq::<char>::empty());
                },
                Option::Some(i) => {
                    lemma_insert_alignment(i);
                    lemma_placeholder_count_concat(head, text_of_insert(i));
                },
            }
        },
        QueryType::Update => {},
        QueryType::Delete => {},
    }
}

/// Placeholder/argument alignment of the unioned sub-queries.
pub proof fn lemma_unions_alignment(s: Seq<BuilderV>)
    requires
        clean_unions(s),
    ensures
        placeholder_count(unions_part(s)) == unions_args(s).len(),
    decreases s,
{
    reveal_strlit("\nUNION\n");
    if s.len() > 0 {
        lemma_unions_alignment(s.drop_last());
        lemma_builder_alignment(s.last());
        lemma_placeholder_free_count("\nUNION\n"@);
        lemma_placeholder_count_concat(unions_part(s.drop_last()), "\nUNION\n"@);
        lemma_placeholder_count_concat(
            unions_part(s.drop_last()) + "\nUNION\n"@,
            text_of_builder(s.last()),
        );
    }
}

/// A three-member conjunction renders as the members AND-joined inside one
/// pair of parentheses, and its arguments are the members' arguments
/// concatenated in list order: exactly the argument order of the manually
/// nested AND chains.
pub proof fn lemma_conjunction_of_three(e1: ExpV, e2: ExpV, e3: ExpV)
    ensures
        text_of_exp(ExpV::Conjunction(seq![e1, e2, e3])) == "("@ + text_of_exp(e1) + " AND "@
            + text_of_exp(e2) + " AND "@ + text_of_exp(e3) + ")"@,
        args_of_exp(ExpV::Conjunction(seq![e1, e2, e3])) == args_of_exp(e1) + args_of_exp(e2)
            + args_of_exp(e3),
        args_of_exp(ExpV::Conjunction(seq![e1, e2, e3])) == args_of_exp(
            ExpV::And(Box::new(ExpV::And(Box::new(e1), Box::new(e2))), Box::new(e3)),
        ),
        args_of_exp(ExpV::Conjunction(seq![e1, e2, e3])) == args_of_exp(
            ExpV::And(Box::new(e1), Box::new(ExpV::And(Box::new(e2), Box::new(e3)))),
        ),
{
    let s = seq![e1, e2, e3];
    reveal_with_fuel(args_of_exp, 3);
    assert(s.drop_last() =~= seq![e1, e2]);
    assert(seq![e1, e2].drop_last() =~= seq![e1]);
    assert(seq![e1].drop_last() =~= Seq::<ExpV>::empty());
    lemma_texts_of_exps_len(s);
    lemma_texts_of_exps_len(seq![e1, e2]);
    lemma_texts_of_exps_len(seq![e1]);
    assert(texts_of_exps(s).drop_last() =~= texts_of_exps(seq![e1, e2]));
    assert(texts_of_exps(seq![e1, e2]).drop_last() =~= texts_of_exps(seq![e1]));
    assert(texts_of_exps(seq![e1])[0] == text_of_exp(e1));
    assert(seq_join(texts_of_exps(seq![e1]), " AND "@) == text_of_exp(e1));
    assert(seq_join(texts_of_exps(seq![e1, e2]), " AND "@) =~= text_of_exp(e1) + " AND "@
        + text_of_exp(e2));
    assert(seq_join(texts_of_exps(s), " AND "@) =~= text_of_exp(e1) + " AND "@ + text_of_exp(e2)
        + " AND "@ + text_of_exp(e3));
    assert(text_of_exp(ExpV::Conjunction(s)) =~= "("@ + text_of_exp(e1) + " AND "@ + text_of_exp(
        e2,
    ) + " AND "@ + text_of_exp(e3) + ")"@);
    assert(args_of_exps(Seq::<ExpV>::empty()) =~= Seq::<ArgV>::empty());
    assert(args_of_exps(seq![e1]) =~= args_of_exp(e1));
    assert(args_of_exps(seq![e1, e2]) =~= args_of_exp(e1) + args_of_exp(e2));
    assert(args_of_exps(s) =~= args_of_exp(e1) + args_of_exp(e2) + args_of_exp(e3));
    assert(args_of_exp(ExpV::And(Box::new(ExpV::And(Box::new(e1), Box::new(e2))), Box::new(e3)))
        =~= args_of_exp(e1) + args_of_exp(e2) + args_of_exp(e3));
    assert(args_of_exp(ExpV::And(Box::new(e1), Box::new(ExpV::And(Box::new(e2), Box::new(e3)))))
        =~= args_of_exp(e1) + args_of_exp(e2) + args_of_exp(e3));
}

/// A NULL operand never contributes an argument, whatever the operator and
/// whatever stands on the other side.
pub proof fn lemma_null_operand_binds_nothing(op: Op, other: ExpTarV)
    ensures
        args_of_tar(ExpTarV::Null) == Seq::<ArgV>::empty(),
        args_of_cmp(CmpV { op, left: other, right: ExpTarV::Null }) == args_of_tar(other),
        args_of_cmp(CmpV { op, left: ExpTarV::Null, right: other }) == args_of_tar(other),
{
    assert(args_of_tar(other) + Seq::<ArgV>::empty() =~= args_of_tar(other));
    assert(Seq::<ArgV>::empty() + args_of_tar(other) =~= args_of_tar(other));
}

/// Serialization is a pure function of the builder's accumulated state: any
/// two outcomes of serializing one builder value are byte-identical in text
/// and element-identical in arguments.
pub proof fn lemma_serialize_deterministic(
    b: &MYSQLBuilder,
    r1: (String, Vec<crate::args::Arg>),
    r2: (String, Vec<crate::args::Arg>),
)
    requires
        call_ensures(MYSQLBuilder::to_sql, (b,), r1),
        call_ensures(MYSQLBuilder::to_sql, (b,), r2),
    ensures
        r1.0@ == r2.0@,
        crate::args::view_args(r1.1@) == crate::args::view_args(r2.1@),
{
    assert(r1.0@ == text_of_builder(b@));
    assert(r2.0@ == text_of_builder(b@));
}

/// Two chained WHERE calls on a builder without a prior WHERE accumulate
/// exactly the predicate a single call with the left-biased AND of the two
/// would install, so the serialized text and arguments coincide.
pub proof fn lemma_where_chain(b: BuilderV, p1: ExpV, p2: ExpV)
    requires
        b.where_clause is None,
    ensures
        (BuilderV {
            where_clause: Some(
                with_where(
                    (BuilderV { where_clause: Some(with_where(b.where_clause, p1)), ..b })
                        .where_clause,
                    p2,
                ),
            ),
            ..b
        }) == (BuilderV {
            where_clause: Some(with_where(b.where_clause, ExpV::And(Box::new(p1), Box::new(p2)))),
            ..b
        }),
        text_of_builder(
            BuilderV {
                where_clause: Some(
                    with_where(
                        (BuilderV { where_clause: Some(with_where(b.where_clause, p1)), ..b })
                            .where_clause,
                        p2,
                    ),
                ),
                ..b
            },
        ) == text_of_builder(
            BuilderV {
                where_clause: Some(
                    with_where(b.where_clause, ExpV::And(Box::new(p1), Box::new(p2))),
                ),
                ..b
            },
        ),
        args_of_builder(
            BuilderV {
                where_clause: Some(
                    with_where(
                        (BuilderV { where_clause: Some(with_where(b.where_clause, p1)), ..b })
                            .where_clause,
                        p2,
                    ),
                ),
                ..b
            },
        ) == args_of_builder(
            BuilderV {
                where_clause: Some(
                    with_where(b.where_clause, ExpV::And(Box::new(p1), Box::new(p2))),
                ),
                ..b
            },
        ),
{
}

} // verus!
