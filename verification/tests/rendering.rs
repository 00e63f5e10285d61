//! Rendering of columns, operands and predicate trees.

use sqlbuilder::args::{Arg, ToArg};
use sqlbuilder::expressions::{Exp, ExpTar, ExpU, Op};
use sqlbuilder::table::{cl, tb, Col, TransformError};

#[test]
fn table_renders_backtick_quoted() {
    let (text, args) = tb("user").to_sql();
    assert_eq!(text, "`user`");
    assert!(args.is_none());
}

#[test]
fn bare_column_renders_qualified() {
    let (text, args) = cl("user", "id").to_sql();
    assert_eq!(text, "`user`.`id`");
    assert!(args.is_none());
}

#[test]
fn column_alias_applies_after_chain() {
    let (text, _) = cl("user", "id").count().as_alias("n").to_sql();
    assert_eq!(text, "COUNT(`user`.`id`) AS n");
}

#[test]
fn column_name_accessor() {
    assert_eq!(cl("user", "id").name(), "id");
}

#[test]
fn transform_chain_wraps_outermost_last() {
    let col = cl("user", "id").max().min().count().instr("hello");
    let (text, _) = col.to_sql();
    assert_eq!(text, "INSTR(COUNT(MIN(MAX(`user`.`id`))), hello)");
}

#[test]
fn every_wrapper_renders_its_function() {
    assert_eq!(cl("t", "c").sum().to_sql().0, "SUM(`t`.`c`)");
    assert_eq!(cl("t", "c").avg().to_sql().0, "AVG(`t`.`c`)");
    assert_eq!(cl("t", "c").concat().to_sql().0, "GROUP_CONCAT(`t`.`c`)");
    assert_eq!(cl("t", "c").coalesce().to_sql().0, "COALESCE(`t`.`c`)");
}

#[test]
fn distinct_is_valid_innermost() {
    let col = cl("user", "id").distinct().unwrap();
    assert_eq!(col.to_sql().0, "DISTINCT `user`.`id`");
    let counted = cl("user", "id").distinct().unwrap().count();
    assert_eq!(counted.to_sql().0, "COUNT(DISTINCT `user`.`id`)");
}

#[test]
fn distinct_outside_aggregate_is_rejected() {
    let res = cl("user", "id").count().distinct();
    assert_eq!(res.err(), Some(TransformError::DistinctNotInnermost));
    let res = cl("user", "id").distinct().unwrap().distinct();
    assert_eq!(res.err(), Some(TransformError::DistinctNotInnermost));
}

#[test]
fn operators_render_their_text() {
    assert_eq!(Op::Eq.to_sql().0, "=");
    assert_eq!(Op::Neq.to_sql().0, "!=");
    assert_eq!(Op::Lt.to_sql().0, "<");
    assert_eq!(Op::Gt.to_sql().0, ">");
    assert_eq!(Op::In.to_sql().0, "IN");
    assert_eq!(Op::Is.to_sql().0, "IS");
    assert_eq!(Op::IsNot.to_sql().0, "IS NOT");
    assert_eq!(Op::Like.to_sql().0, "LIKE");
}

#[test]
fn null_target_renders_without_arguments() {
    let (text, args) = ExpTar::Null.to_sql();
    assert_eq!(text, "NULL");
    assert!(args.is_none());
}

#[test]
fn scalar_target_renders_one_placeholder() {
    let (text, args) = ExpTar::A(42u64.to_arg()).to_sql();
    assert_eq!(text, "?");
    assert_eq!(args, Some(vec![Arg::Uint(42)]));
}

#[test]
fn in_target_renders_one_placeholder_per_element() {
    let values: Vec<usize> = vec![7, 9, 11];
    let (text, args) = ExpTar::A(values.to_arg()).to_sql();
    assert_eq!(text, "(?, ?, ?)");
    assert_eq!(args, Some(vec![Arg::Uint(7), Arg::Uint(9), Arg::Uint(11)]));
}

#[test]
fn empty_in_target_renders_empty_group() {
    let values: Vec<usize> = vec![];
    let (text, args) = ExpTar::A(values.to_arg()).to_sql();
    assert_eq!(text, "()");
    assert_eq!(args, Some(vec![]));
}

#[test]
fn comparison_renders_left_operator_right() {
    let (text, args) = cl("user", "active").eq(true).to_sql();
    assert_eq!(text, "(`user`.`active` = ?)");
    assert_eq!(args, Some(vec![Arg::Bool(true)]));
}

#[test]
fn null_check_contributes_no_argument() {
    let (text, args) = cl("comment", "deleted").is_null().to_sql();
    assert_eq!(text, "(`comment`.`deleted` IS NULL)");
    assert_eq!(args, Some(vec![]));
    let (text, args) = cl("comment", "deleted").is_not_null().to_sql();
    assert_eq!(text, "(`comment`.`deleted` IS NOT NULL)");
    assert_eq!(args, Some(vec![]));
}

#[test]
fn like_binds_its_pattern() {
    let (text, args) = cl("user", "name").like(String::from("Ja%")).to_sql();
    assert_eq!(text, "(`user`.`name` LIKE ?)");
    assert_eq!(args, Some(vec![Arg::Str(String::from("Ja%"))]));
}

#[test]
fn in_list_binds_each_element_in_order() {
    let values: Vec<isize> = vec![3, -1, 12];
    let (text, args) = cl("user", "score").is_in(values).to_sql();
    assert_eq!(text, "(`user`.`score` IN (?, ?, ?))");
    assert_eq!(args, Some(vec![Arg::Int(3), Arg::Int(-1), Arg::Int(12)]));
}

#[test]
fn and_or_combine_left_arguments_first() {
    let e = Exp::exp_and(cl("t", "a").eq(1u64), cl("t", "b").gt(2u64));
    let (text, args) = e.to_sql();
    assert_eq!(text, "((`t`.`a` = ?) AND (`t`.`b` > ?))");
    assert_eq!(args, Some(vec![Arg::Uint(1), Arg::Uint(2)]));

    let e = Exp::exp_or(cl("t", "a").eq(1u64), cl("t", "b").gt(2u64));
    let (text, args) = e.to_sql();
    assert_eq!(text, "((`t`.`a` = ?) OR (`t`.`b` > ?))");
    assert_eq!(args, Some(vec![Arg::Uint(1), Arg::Uint(2)]));
}

#[test]
fn conjunction_renders_and_joined() {
    let e = Exp::Conjunction(vec![
        cl("t", "a").eq(1u64),
        cl("t", "b").gt(2u64),
        cl("t", "c").lt(3u64),
    ]);
    let (text, args) = e.to_sql();
    assert_eq!(text, "((`t`.`a` = ?) AND (`t`.`b` > ?) AND (`t`.`c` < ?))");
    assert_eq!(args, Some(vec![Arg::Uint(1), Arg::Uint(2), Arg::Uint(3)]));
}

#[test]
fn conjunction_argument_order_matches_manual_nesting() {
    let conjunction = Exp::Conjunction(vec![
        cl("t", "a").eq(1u64),
        cl("t", "b").gt(2u64),
        cl("t", "c").lt(3u64),
    ]);
    let nested = Exp::exp_and(
        Exp::exp_and(cl("t", "a").eq(1u64), cl("t", "b").gt(2u64)),
        cl("t", "c").lt(3u64),
    );
    let (_, conj_args) = conjunction.to_sql();
    let (_, nested_args) = nested.to_sql();
    assert_eq!(conj_args, nested_args);
}

#[test]
fn placeholders_match_arguments_in_a_mixed_tree() {
    let e = Exp::exp_or(
        cl("t", "a").is_in(vec![1usize, 2, 3]),
        Exp::exp_and(cl("t", "b").eq(String::from("x")), cl("t", "c").is_null()),
    );
    let (text, args) = e.to_sql();
    let placeholder_count = text.chars().filter(|c| *c == '?').count();
    assert_eq!(placeholder_count, args.unwrap().len());
}

#[test]
fn column_operand_renders_its_text_not_a_placeholder() {
    let (text, args) = cl("comment", "likes").eq(cl("comment", "dislikes")).to_sql();
    assert_eq!(text, "(`comment`.`likes` = `comment`.`dislikes`)");
    assert_eq!(args, Some(vec![]));
}

#[test]
fn explicit_comparison_builds_like_column_helpers() {
    let via_helper = cl("t", "a").neq(5u64);
    let explicit = Exp::Exp(ExpU::new(
        Op::Neq,
        ExpTar::C(Col::new("t", "a")),
        ExpTar::A(Arg::Uint(5)),
    ));
    assert_eq!(via_helper.to_sql().0, explicit.to_sql().0);
}
