//! The argument model: conversions, copying, and the set-clause payload.

use sqlbuilder::args::{Arg, ToArg};
use sqlbuilder::expressions::SetClause;
use sqlbuilder::mysql::MYSQLBuilder;
use sqlbuilder::table::cl;
use sqlbuilder::table::tb;
use sqlbuilder::traits::QueryBuilder;

#[test]
fn scalar_conversions_tag_their_values() {
    assert_eq!(7usize.to_arg(), Arg::Uint(7));
    assert_eq!((-7isize).to_arg(), Arg::Int(-7));
    assert_eq!(7u32.to_arg(), Arg::Uint(7));
    assert_eq!((-7i32).to_arg(), Arg::Int(-7));
    assert_eq!(7u64.to_arg(), Arg::Uint(7));
    assert_eq!((-7i64).to_arg(), Arg::Int(-7));
    assert_eq!(true.to_arg(), Arg::Bool(true));
    assert_eq!(String::from("x").to_arg(), Arg::Str(String::from("x")));
}

#[test]
fn list_conversions_preserve_element_order() {
    let unsigned: Vec<usize> = vec![3, 1, 2];
    assert_eq!(
        unsigned.to_arg(),
        Arg::List(vec![Arg::Uint(3), Arg::Uint(1), Arg::Uint(2)])
    );
    let signed: Vec<isize> = vec![-1, 0, 1];
    assert_eq!(
        signed.to_arg(),
        Arg::List(vec![Arg::Int(-1), Arg::Int(0), Arg::Int(1)])
    );
    let flags: Vec<bool> = vec![true, false];
    assert_eq!(flags.to_arg(), Arg::List(vec![Arg::Bool(true), Arg::Bool(false)]));
    let names: Vec<String> = vec![String::from("a"), String::from("b")];
    assert_eq!(
        names.to_arg(),
        Arg::List(vec![Arg::Str(String::from("a")), Arg::Str(String::from("b"))])
    );
}

#[test]
fn cloning_preserves_every_variant() {
    let values = vec![
        Arg::Uint(1),
        Arg::Int(-2),
        Arg::Bool(true),
        Arg::Str(String::from("s")),
        Arg::Float(0x4045000000000000),
        Arg::List(vec![Arg::Uint(9), Arg::Null]),
        Arg::Null,
    ];
    for v in &values {
        assert_eq!(&v.clone(), v);
    }
}

#[test]
fn float_arguments_carry_their_bit_pattern() {
    let bits = 42.0f64.to_bits();
    let arg = Arg::Float(bits);
    if let Arg::Float(stored) = &arg {
        assert_eq!(f64::from_bits(*stored), 42.0f64);
    } else {
        panic!("expected a float argument");
    }
}

#[test]
fn float_rows_bind_like_any_other_value() {
    let bits = 71.5f64.to_bits();
    let (text, args) = MYSQLBuilder::query()
        .insert(tb("m"))
        .rows(vec!["v"], vec![vec![Arg::Float(bits)]])
        .to_sql();
    assert_eq!(text, "INSERT INTO `m` (v) VALUES\n (?)");
    assert_eq!(args, vec![Arg::Float(bits)]);
}

#[test]
fn set_clause_joins_assignment_texts() {
    let set = SetClause::new(vec![cl("u", "a").eq(1u64), cl("u", "b").eq(2u64)]);
    let (text, args) = set.to_sql();
    assert_eq!(text, "(`u`.`a` = ?), (`u`.`b` = ?)");
    assert!(args.is_none());
}
