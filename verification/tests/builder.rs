//! Whole-query assembly: clause order, argument order, query kinds.

use sqlbuilder::args::Arg;
use sqlbuilder::expressions::{Exp, ExpTar, ExpU, Op};
use sqlbuilder::mysql::MYSQLBuilder;
use sqlbuilder::statements::{Dir, On};
use sqlbuilder::table::{cl, tb};
use sqlbuilder::traits::QueryBuilder;

#[test]
fn select_where_scenario() {
    let (text, args) = MYSQLBuilder::query()
        .from("T")
        .select(vec![cl("T", "A"), cl("T", "B")])
        .and_where(Exp::exp_and(cl("T", "A").eq(true), cl("T", "B").gt(7u64)))
        .to_sql();
    assert_eq!(
        text,
        "SELECT `T`.`A`, `T`.`B`\nFROM `T`\nWHERE ((`T`.`A` = ?) AND (`T`.`B` > ?))"
    );
    assert_eq!(args, vec![Arg::Bool(true), Arg::Uint(7)]);
}

#[test]
fn insert_scenario_flattens_rows_row_major() {
    let (text, args) = MYSQLBuilder::query()
        .insert(tb("user"))
        .rows(
            vec!["name", "age", "active"],
            vec![
                vec![Arg::Str(String::from("Jake")), Arg::Uint(23), Arg::Bool(false)],
                vec![Arg::Str(String::from("Sally")), Arg::Uint(42), Arg::Bool(true)],
            ],
        )
        .to_sql();
    assert_eq!(
        text,
        "INSERT INTO `user` (name, age, active) VALUES\n (?, ?, ?),\n (?, ?, ?)"
    );
    assert_eq!(
        args,
        vec![
            Arg::Str(String::from("Jake")),
            Arg::Uint(23),
            Arg::Bool(false),
            Arg::Str(String::from("Sally")),
            Arg::Uint(42),
            Arg::Bool(true),
        ]
    );
}

#[test]
fn serializing_twice_is_byte_identical() {
    let builder = MYSQLBuilder::query()
        .from("T")
        .select(vec![cl("T", "A")])
        .and_where(cl("T", "A").gt(3u64))
        .limit(10);
    let (text1, args1) = builder.to_sql();
    let (text2, args2) = builder.to_sql();
    assert_eq!(text1, text2);
    assert_eq!(args1, args2);
}

#[test]
fn chained_wheres_equal_single_anded_where() {
    let p1 = || cl("T", "A").eq(true);
    let p2 = || cl("T", "B").gt(7u64);
    let chained = MYSQLBuilder::query()
        .from("T")
        .select(vec![cl("T", "A")])
        .and_where(p1())
        .and_where(p2())
        .to_sql();
    let single = MYSQLBuilder::query()
        .from("T")
        .select(vec![cl("T", "A")])
        .and_where(p1().and(p2()))
        .to_sql();
    assert_eq!(chained.0, single.0);
    assert_eq!(chained.1, single.1);
}

#[test]
fn join_renders_on_its_own_line_with_predicate() {
    let (text, args) = MYSQLBuilder::query()
        .from("user")
        .select(vec![cl("user", "id")])
        .join(
            tb("comment"),
            On::new(Exp::exp_and(
                cl("comment", "user_id").eq(cl("user", "id")),
                cl("comment", "deleted").is_null(),
            )),
        )
        .to_sql();
    assert_eq!(
        text,
        "SELECT `user`.`id`\nFROM `user`\nJOIN `comment` ON ((`comment`.`user_id` = `user`.`id`) AND (`comment`.`deleted` IS NULL))"
    );
    assert_eq!(args, vec![]);
}

#[test]
fn left_and_right_joins_render_their_keywords() {
    let (text, _) = MYSQLBuilder::query()
        .from("a")
        .select(vec![cl("a", "x")])
        .left_join(tb("b"), cl("b", "y").eq(cl("a", "x")))
        .right_join(tb("c"), cl("c", "z").eq(cl("a", "x")))
        .to_sql();
    assert_eq!(
        text,
        "SELECT `a`.`x`\nFROM `a`\nLEFT JOIN `b` ON (`b`.`y` = `a`.`x`)\nRIGHT JOIN `c` ON (`c`.`z` = `a`.`x`)"
    );
}

#[test]
fn join_predicate_arguments_precede_where_arguments() {
    let (text, args) = MYSQLBuilder::query()
        .from("a")
        .select(vec![cl("a", "x")])
        .join(tb("b"), On::new(cl("b", "y").eq(1u64)))
        .and_where(cl("a", "x").eq(2u64))
        .to_sql();
    let placeholder_count = text.chars().filter(|c| *c == '?').count();
    assert_eq!(placeholder_count, args.len());
    assert_eq!(args, vec![Arg::Uint(1), Arg::Uint(2)]);
}

#[test]
fn group_by_and_having_render_after_where() {
    let having = ExpU::new(
        Op::Gt,
        ExpTar::C(cl("user", "score").sum()),
        ExpTar::A(Arg::Uint(100)),
    );
    let (text, args) = MYSQLBuilder::query()
        .from("user")
        .select(vec![cl("user", "team")])
        .and_where(cl("user", "active").eq(true))
        .group_by(cl("user", "team"))
        .having(having)
        .to_sql();
    assert_eq!(
        text,
        "SELECT `user`.`team`\nFROM `user`\nWHERE (`user`.`active` = ?)\nGROUP BY `user`.`team` HAVING (SUM(`user`.`score`) > ?)"
    );
    assert_eq!(args, vec![Arg::Bool(true), Arg::Uint(100)]);
}

#[test]
fn orders_render_comma_joined_under_one_order_by() {
    let (text, _) = MYSQLBuilder::query()
        .from("user")
        .select(vec![cl("user", "id")])
        .order(cl("user", "join_date"), Dir::Asc)
        .order(cl("user", "name"), Dir::Desc)
        .to_sql();
    assert_eq!(
        text,
        "SELECT `user`.`id`\nFROM `user`\nORDER BY `user`.`join_date` ASC, `user`.`name` DESC"
    );
}

#[test]
fn order_helpers_build_entries() {
    let asc = cl("t", "a").asc();
    let desc = cl("t", "a").desc();
    assert_eq!(asc.to_sql().0, "`t`.`a` ASC");
    assert_eq!(desc.to_sql().0, "`t`.`a` DESC");
}

#[test]
fn limit_inlines_its_count() {
    let (text, args) = MYSQLBuilder::query()
        .from("user")
        .select(vec![cl("user", "id")])
        .limit(12345)
        .to_sql();
    assert_eq!(text, "SELECT `user`.`id`\nFROM `user`\nLIMIT 12345");
    assert_eq!(args, vec![]);
}

#[test]
fn negative_limit_renders_with_sign() {
    let (text, _) = MYSQLBuilder::query().from("t").select(vec![cl("t", "c")]).limit(-7).to_sql();
    assert_eq!(text, "SELECT `t`.`c`\nFROM `t`\nLIMIT -7");
    let (text, _) = MYSQLBuilder::query().from("t").select(vec![cl("t", "c")]).limit(0).to_sql();
    assert_eq!(text, "SELECT `t`.`c`\nFROM `t`\nLIMIT 0");
}

#[test]
fn distinct_marks_the_select_list() {
    let (text, _) = MYSQLBuilder::query()
        .from("user")
        .select(vec![cl("user", "team")])
        .distinct()
        .to_sql();
    assert_eq!(text, "SELECT DISTINCT `user`.`team`\nFROM `user`");
}

#[test]
fn repeated_select_extends_the_list() {
    let (text, _) = MYSQLBuilder::query()
        .from("t")
        .select(vec![cl("t", "a")])
        .select(vec![cl("t", "b")])
        .to_sql();
    assert_eq!(text, "SELECT `t`.`a`, `t`.`b`\nFROM `t`");
}

#[test]
fn union_appends_fully_serialized_sub_queries() {
    let second = MYSQLBuilder::query()
        .from("b")
        .select(vec![cl("b", "x")])
        .and_where(cl("b", "x").gt(1u64));
    let (text, args) = MYSQLBuilder::query()
        .from("a")
        .select(vec![cl("a", "x")])
        .and_where(cl("a", "x").gt(2u64))
        .union(second)
        .to_sql();
    assert_eq!(
        text,
        "SELECT `a`.`x`\nFROM `a`\nWHERE (`a`.`x` > ?)\nUNION\nSELECT `b`.`x`\nFROM `b`\nWHERE (`b`.`x` > ?)"
    );
    assert_eq!(args, vec![Arg::Uint(2), Arg::Uint(1)]);
}

#[test]
fn sub_query_target_splices_its_arguments() {
    let sub = MYSQLBuilder::query()
        .from("banned")
        .select(vec![cl("banned", "user_id")])
        .and_where(cl("banned", "level").gt(3u64));
    let e = Exp::Exp(ExpU::new(
        Op::In,
        ExpTar::C(cl("user", "id")),
        ExpTar::T(sub),
    ));
    let (text, args) = e.to_sql();
    assert_eq!(
        text,
        "(`user`.`id` IN (SELECT `banned`.`user_id`\nFROM `banned`\nWHERE (`banned`.`level` > ?)))"
    );
    assert_eq!(args, Some(vec![Arg::Uint(3)]));
}

#[test]
fn delete_and_update_serialize_empty() {
    let (text, args) = MYSQLBuilder::query()
        .delete(tb("user"))
        .and_where(cl("user", "active").neq(true))
        .to_sql();
    assert_eq!(text, "");
    assert_eq!(args, vec![]);
    let (text, args) = MYSQLBuilder::query()
        .update(tb("user"))
        .set(vec![cl("user", "active").eq(false)])
        .to_sql();
    assert_eq!(text, "");
    assert_eq!(args, vec![]);
}

#[test]
fn select_without_columns_still_emits_from() {
    let (text, args) = MYSQLBuilder::query().from("t").to_sql();
    assert_eq!(text, "\nFROM `t`");
    assert_eq!(args, vec![]);
}

#[test]
fn whole_query_placeholders_match_arguments() {
    let (text, args) = MYSQLBuilder::query()
        .from("user")
        .select(vec![cl("user", "id")])
        .join(tb("comment"), On::new(cl("comment", "likes").gt(10u64)))
        .and_where(cl("user", "score").is_in(vec![1usize, 2, 3]))
        .group_by(cl("user", "team"))
        .having(ExpU::new(
            Op::Gt,
            ExpTar::C(cl("user", "id").count()),
            ExpTar::A(Arg::Uint(2)),
        ))
        .order(cl("user", "id"), Dir::Asc)
        .limit(50)
        .to_sql();
    let placeholder_count = text.chars().filter(|c| *c == '?').count();
    assert_eq!(placeholder_count, args.len());
    assert_eq!(
        args,
        vec![Arg::Uint(10), Arg::Uint(1), Arg::Uint(2), Arg::Uint(3), Arg::Uint(2)]
    );
}
