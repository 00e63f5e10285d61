//! The argument model: a closed tagged value used both as a literal bind
//! value and as the ordered payload of a membership test.

use vstd::prelude::*;

verus! {

/// Spec-level value of one bind argument.
pub enum ArgV {
    Uint(u64),
    Int(i64),
    Bool(bool),
    Str(Seq<char>),
    /// The IEEE 754 bit pattern of a floating-point bind value.
    Float(u64),
    List(Seq<ArgV>),
    Null,
}

/// A literal value to bind at one `?` placeholder.  `List` carries the
/// ordered payload of a membership test; the conversions below only ever
/// build flat lists, so lists never nest.
#[derive(Debug, PartialEq, Eq)]
pub enum Arg {
    Uint(u64),
    Int(i64),
    Bool(bool),
    Str(String),
    /// A floating-point bind value, carried as its IEEE 754 bit pattern so
    /// that this crate stays free of floating-point arithmetic; the caller
    /// reconstructs the number when binding.
    Float(u64),
    List(Vec<Arg>),
    Null,
}

/// The spec value of one argument.
pub open spec fn view_arg(a: Arg) -> ArgV
    decreases a,
{
    match a {
        Arg::Uint(v) => ArgV::Uint(v),
        Arg::Int(v) => ArgV::Int(v),
        Arg::Bool(v) => ArgV::Bool(v),
        Arg::Str(s) => ArgV::Str(s@),
        Arg::Float(bits) => ArgV::Float(bits),
        Arg::List(items) => ArgV::List(view_args(items@)),
        Arg::Null => ArgV::Null,
    }
}

/// The spec values of a sequence of arguments, in order.
pub open spec fn view_args(s: Seq<Arg>) -> Seq<ArgV>
    decreases s,
{
    if s.len() == 0 {
        Seq::empty()
    } else {
        view_args(s.drop_last()).push(view_arg(s.last()))
    }
}

impl View for Arg {
    type V = ArgV;

    open spec fn view(&self) -> ArgV {
        view_arg(*self)
    }
}

/// `view_args` agrees with mapping `view_arg` over the sequence.
pub proof fn lemma_view_args_elementwise(s: Seq<Arg>)
    ensures
        view_args(s).len() == s.len(),
        forall|i: int| 0 <= i < s.len() ==> view_args(s)[i] == #[trigger] s[i]@,
    decreases s,
{
    if s.len() > 0 {
        lemma_view_args_elementwise(s.drop_last());
        assert forall|i: int| 0 <= i < s.len() implies view_args(s)[i] == #[trigger] s[i]@ by {
            if i < s.len() - 1 {
                assert(s.drop_last()[i] == s[i]);
                assert(view_args(s)[i] == view_args(s.drop_last())[i]);
            } else {
                assert(s.last() == s[i]);
            }
        }
    }
}

/// `view_args` distributes over concatenation.
pub proof fn lemma_view_args_concat(a: Seq<Arg>, b: Seq<Arg>)
    ensures
        view_args(a + b) == view_args(a) + view_args(b),
    decreases b,
{
    if b.len() == 0 {
        assert(a + b =~= a);
        assert(view_args(a) + view_args(b) =~= view_args(a));
    } else {
        lemma_view_args_concat(a, b.drop_last());
        assert((a + b).drop_last() =~= a + b.drop_last());
        assert((a + b).last() == b.last());
        assert(view_args(a) + view_args(b) =~= (view_args(a) + view_args(b.drop_last())).push(
            view_arg(b.last()),
        ));
    }
}

/// `view_args` distributes over `push`.
pub proof fn lemma_view_args_push(s: Seq<Arg>, a: Arg)
    ensures
        view_args(s.push(a)) == view_args(s).push(a@),
{
    assert(s.push(a).drop_last() =~= s);
    assert(s.push(a).last() == a);
}

impl Arg {
    /// A structurally equal copy of this argument.
    fn duplicate(&self) -> (r: Arg)
        ensures
            r@ == self@,
        decreases self,
    {
        match self {
            Arg::Uint(v) => Arg::Uint(*v),
            Arg::Int(v) => Arg::Int(*v),
            Arg::Bool(v) => Arg::Bool(*v),
            Arg::Str(s) => Arg::Str(s.clone()),
            Arg::Float(bits) => Arg::Float(*bits),
            Arg::List(items) => {
                proof {
                    assert(self->List_0 == *items);
                    assert(decreases_to!(*self => self->List_0));
                }
                Arg::List(clone_args(items))
            },
            Arg::Null => Arg::Null,
        }
    }
}

/// Copies a vector of arguments; the copies have the same spec values.
#[verifier::loop_isolation(false)]
pub fn clone_args(items: &Vec<Arg>) -> (r: Vec<Arg>)
    ensures
        view_args(r@) == view_args(items@),
    decreases items,
{
    let mut copies: Vec<Arg> = Vec::new();
    let mut i: usize = 0;
    while i < items.len()
        invariant
            i <= items.len(),
            view_args(copies@) == view_args(items@.take(i as int)),
        decreases items.len() - i,
    {
        proof {
            broadcast use vstd::std_specs::vec::axiom_vec_index_decreases;

            assert(decreases_to!(*items => items@[i as int]));
        }
        let c = items[i].duplicate();
        proof {
            lemma_view_args_push(copies@, c);
            lemma_view_args_push(items@.take(i as int), items@[i as int]);
            assert(items@.take(i + 1) =~= items@.take(i as int).push(items@[i as int]));
        }
        copies.push(c);
        i = i + 1;
    }
    proof {
        assert(items@.take(items@.len() as int) =~= items@);
    }
    copies
}

impl Clone for Arg {
    /// Copies the argument; the copy has the same spec value.
    fn clone(&self) -> (r: Self)
        ensures
            r@ == self@,
    {
        self.duplicate()
    }
}

/// A native value that converts, totally and infallibly, into an argument.
pub trait ToArg: Sized {
    /// The argument value this native value stands for.
    spec fn arg_view(&self) -> ArgV;

    /// Converts the native value into an argument.
    fn to_arg(self) -> (r: Arg)
        ensures
            r@ == self.arg_view(),
    ;
}

/// A borrowed native value that converts into an argument.
pub trait RefToArg {
    /// Converts the borrowed native value into an argument.
    fn to_arg(&self) -> Arg;
}

impl ToArg for usize {
    open spec fn arg_view(&self) -> ArgV {
        ArgV::Uint(*self as u64)
    }

    fn to_arg(self) -> (r: Arg) {
        Arg::Uint(self as u64)
    }
}

impl ToArg for isize {
    open spec fn arg_view(&self) -> ArgV {
        ArgV::Int(*self as i64)
    }

    fn to_arg(self) -> (r: Arg) {
        Arg::Int(self as i64)
    }
}

impl ToArg for u32 {
    open spec fn arg_view(&self) -> ArgV {
        ArgV::Uint(*self as u64)
    }

    fn to_arg(self) -> (r: Arg) {
        Arg::Uint(self as u64)
    }
}

impl ToArg for i32 {
    open spec fn arg_view(&self) -> ArgV {
        ArgV::Int(*self as i64)
    }

    fn to_arg(self) -> (r: Arg) {
        Arg::Int(self as i64)
    }
}

impl ToArg for u64 {
    open spec fn arg_view(&self) -> ArgV {
        ArgV::Uint(*self)
    }

    fn to_arg(self) -> (r: Arg) {
        Arg::Uint(self)
    }
}

impl ToArg for i64 {
    open spec fn arg_view(&self) -> ArgV {
        ArgV::Int(*self)
    }

    fn to_arg(self) -> (r: Arg) {
        Arg::Int(self)
    }
}

impl ToArg for bool {
    open spec fn arg_view(&self) -> ArgV {
        ArgV::Bool(*self)
    }

    fn to_arg(self) -> (r: Arg) {
        Arg::Bool(self)
    }
}

impl ToArg for String {
    open spec fn arg_view(&self) -> ArgV {
        ArgV::Str(self@)
    }

    fn to_arg(self) -> (r: Arg) {
        Arg::Str(self)
    }
}

impl ToArg for Vec<usize> {
    open spec fn arg_view(&self) -> ArgV {
        ArgV::List(self@.map_values(|x: usize| ArgV::Uint(x as u64)))
    }

    fn to_arg(self) -> (r: Arg) {
        let mut items: Vec<Arg> = Vec::new();
        let mut i: usize = 0;
        while i < self.len()
            invariant
                i <= self.len(),
                view_args(items@) =~= self@.take(i as int).map_values(
                    |x: usize| ArgV::Uint(x as u64),
                ),
            decreases self.len() - i,
        {
            proof {
                lemma_view_args_push(items@, Arg::Uint(self@[i as int] as u64));
                assert(self@.take(i + 1).map_values(|x: usize| ArgV::Uint(x as u64)) =~= self@.take(
                    i as int,
                ).map_values(|x: usize| ArgV::Uint(x as u64)).push(
                    ArgV::Uint(self@[i as int] as u64),
                ));
            }
            items.push(Arg::Uint(self[i] as u64));
            i = i + 1;
        }
        proof {
            assert(self@.take(self@.len() as int) =~= self@);
        }
        Arg::List(items)
    }
}

impl ToArg for Vec<isize> {
    open spec fn arg_view(&self) -> ArgV {
        ArgV::List(self@.map_values(|x: isize| ArgV::Int(x as i64)))
    }

    fn to_arg(self) -> (r: Arg) {
        let mut items: Vec<Arg> = Vec::new();
        let mut i: usize = 0;
        while i < self.len()
            invariant
                i <= self.len(),
                view_args(items@) =~= self@.take(i as int).map_values(
                    |x: isize| ArgV::Int(x as i64),
                ),
            decreases self.len() - i,
        {
            proof {
                lemma_view_args_push(items@, Arg::Int(self@[i as int] as i64));
                assert(self@.take(i + 1).map_values(|x: isize| ArgV::Int(x as i64)) =~= self@.take(
                    i as int,
                ).map_values(|x: isize| ArgV::Int(x as i64)).push(
                    ArgV::Int(self@[i as int] as i64),
                ));
            }
            items.push(Arg::Int(self[i] as i64));
            i = i + 1;
        }
        proof {
            assert(self@.take(self@.len() as int) =~= self@);
        }
        Arg::List(items)
    }
}

impl ToArg for Vec<bool> {
    open spec fn arg_view(&self) -> ArgV {
        ArgV::List(self@.map_values(|x: bool| ArgV::Bool(x)))
    }

    fn to_arg(self) -> (r: Arg) {
        let mut items: Vec<Arg> = Vec::new();
        let mut i: usize = 0;
        while i < self.len()
            invariant
                i <= self.len(),
                view_args(items@) =~= self@.take(i as int).map_values(|x: bool| ArgV::Bool(x)),
            decreases self.len() - i,
        {
            proof {
                lemma_view_args_push(items@, Arg::Bool(self@[i as int]));
                assert(self@.take(i + 1).map_values(|x: bool| ArgV::Bool(x)) =~= self@.take(
                    i as int,
                ).map_values(|x: bool| ArgV::Bool(x)).push(ArgV::Bool(self@[i as int])));
            }
            items.push(self[i].to_arg());
            i = i + 1;
        }
        proof {
            assert(self@.take(self@.len() as int) =~= self@);
        }
        Arg::List(items)
    }
}

impl ToArg for Vec<String> {
    open spec fn arg_view(&self) -> ArgV {
        ArgV::List(self@.map_values(|x: String| ArgV::Str(x@)))
    }

    fn to_arg(self) -> (r: Arg) {
        let mut items: Vec<Arg> = Vec::new();
        let mut i: usize = 0;
        while i < self.len()
            invariant
                i <= self.len(),
                view_args(items@) =~= self@.take(i as int).map_values(|x: String| ArgV::Str(x@)),
            decreases self.len() - i,
        {
            let s = self[i].clone();
            proof {
                lemma_view_args_push(items@, Arg::Str(s));
                assert(self@.take(i + 1).map_values(|x: String| ArgV::Str(x@)) =~= self@.take(
                    i as int,
                ).map_values(|x: String| ArgV::Str(x@)).push(ArgV::Str(self@[i as int]@)));
            }
            items.push(Arg::Str(s));
            i = i + 1;
        }
        proof {
            assert(self@.take(self@.len() as int) =~= self@);
        }
        Arg::List(items)
    }
}

} // verus!
