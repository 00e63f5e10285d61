//! The builder capabilities, split by query kind, and the rendering
//! interface every clause fragment offers.

use vstd::prelude::*;

use crate::args::Arg;
use crate::expressions::{Exp, ExpU};
use crate::statements::{Dir, On};
use crate::table::{Col, Table};

verus! {

/// A query builder: constructed empty, serialized into text plus an ordered
/// argument list.
pub trait QueryBuilder: Sized {
    /// An empty builder.
    fn query() -> Self;

    /// Serializes the accumulated query.
    fn to_sql(&self) -> (String, Vec<Arg>);
}

/// The operations of a Select-kind query.
pub trait FetchQBuilder: Sized {
    /// Sets the FROM table.
    fn from(self, table_name: &'static str) -> Self;

    /// Adds columns to the select list.
    fn select(self, cols: Vec<Col>) -> Self;

    /// Marks the select list DISTINCT.
    fn distinct(self) -> Self;

    /// Adds an inner join.
    fn join(self, table: Table, on: On) -> Self;

    /// Adds a left join.
    fn left_join(self, table: Table, on: Exp) -> Self;

    /// Adds a right join.
    fn right_join(self, table: Table, on: Exp) -> Self;

    /// Appends a unioned sub-query.
    fn union(self, query: Self) -> Self;

    /// Appends one ORDER BY entry.
    fn order(self, by: Col, dir: Dir) -> Self;

    /// Adds a grouping column.
    fn group_by(self, by: Col) -> Self;

    /// Sets the HAVING predicate of the GROUP BY clause.
    fn having(self, exp: ExpU) -> Self;

    /// Sets the LIMIT.
    fn limit(self, by: i32) -> Self;
}

/// The WHERE operation, valid on Select-, Update- and Delete-kind queries.
pub trait WhereQBuilder: Sized {
    /// ANDs a predicate onto the accumulated WHERE clause.
    fn and_where(self, exp: Exp) -> Self;
}

/// The operations of an Update-kind query.
pub trait UpdateQBuilder: Sized {
    /// Makes this an Update-kind builder on the given table.
    fn update(self, table: Table) -> Self;

    /// Sets the SET payload.
    fn set(self, set: Vec<Exp>) -> Self;
}

/// The operations of an Insert-kind query.
pub trait InsertQBuilder: Sized {
    /// Makes this an Insert-kind builder into the given table.
    fn insert(self, table: Table) -> Self;

    /// Sets the inserted column names and row values.  Every row must
    /// supply exactly as many values as there are declared columns.
    fn rows(self, keys: Vec<&'static str>, values: Vec<Vec<Arg>>) -> Self
        requires
            forall|i: int| 0 <= i < values@.len() ==> (#[trigger] values@[i])@.len() == keys@.len(),
    ;
}

/// The operation of a Delete-kind query.
pub trait DeleteQBuilder: Sized {
    /// Makes this a Delete-kind builder on the given table.
    fn delete(self, table: Table) -> Self;
}

/// A renderable query fragment: text plus an optional ordered argument
/// list.
pub trait ToSQL {
    /// Renders this fragment.
    fn to_sql(&self) -> (String, Option<Vec<Arg>>);
}

} // verus!
