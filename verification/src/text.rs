//! Character-level model of rendered query text: counting `?` placeholders,
//! joining fragments with a separator, and decimal rendering of integers.

use vstd::prelude::*;

verus! {

/// Number of `?` placeholders in a piece of rendered text.
pub open spec fn placeholder_count(s: Seq<char>) -> nat
    decreases s.len(),
{
    if s.len() == 0 {
        0
    } else {
        placeholder_count(s.drop_last()) + if s.last() == '?' {
            1nat
        } else {
            0nat
        }
    }
}

/// Text that contains no `?` of its own, so it can never claim an argument.
pub open spec fn placeholder_free(s: Seq<char>) -> bool {
    forall|i: int| 0 <= i < s.len() ==> s[i] != '?'
}

/// Placeholders in a concatenation are the placeholders of both halves.
pub proof fn lemma_placeholder_count_concat(a: Seq<char>, b: Seq<char>)
    ensures
        placeholder_count(a + b) == placeholder_count(a) + placeholder_count(b),
    decreases b.len(),
{
    if b.len() == 0 {
        assert(a + b =~= a);
    } else {
        lemma_placeholder_count_concat(a, b.drop_last());
        assert((a + b).drop_last() =~= a + b.drop_last());
    }
}

/// Placeholder-free text contributes no placeholders.
pub proof fn lemma_placeholder_free_count(s: Seq<char>)
    requires
        placeholder_free(s),
    ensures
        placeholder_count(s) == 0,
    decreases s.len(),
{
    if s.len() > 0 {
        assert(placeholder_free(s.drop_last()));
        lemma_placeholder_free_count(s.drop_last());
    }
}

/// Fragments joined with a separator, the separator standing between
/// neighbouring fragments only.
pub open spec fn seq_join(parts: Seq<Seq<char>>, sep: Seq<char>) -> Seq<char>
    decreases parts.len(),
{
    if parts.len() == 0 {
        Seq::empty()
    } else if parts.len() == 1 {
        parts[0]
    } else {
        seq_join(parts.drop_last(), sep) + sep + parts.last()
    }
}

/// A join of placeholder-free fragments with a placeholder-free separator
/// stays placeholder-free.
pub proof fn lemma_seq_join_placeholder_free(parts: Seq<Seq<char>>, sep: Seq<char>)
    requires
        forall|i: int| 0 <= i < parts.len() ==> placeholder_free(#[trigger] parts[i]),
        placeholder_free(sep),
    ensures
        placeholder_free(seq_join(parts, sep)),
    decreases parts.len(),
{
    if parts.len() > 1 {
        assert(forall|i: int|
            0 <= i < parts.len() - 1 ==> placeholder_free(#[trigger] parts.drop_last()[i]));
        lemma_seq_join_placeholder_free(parts.drop_last(), sep);
        assert(parts.last() == parts[parts.len() - 1]);
    }
}

/// Joins the given fragments with the separator.
pub fn join_texts(parts: &Vec<String>, sep: &str) -> (r: String)
    ensures
        r@ == seq_join(parts@.map_values(|p: String| p@), sep@),
{
    let ghost views = parts@.map_values(|p: String| p@);
    let mut r = String::new();
    let mut i: usize = 0;
    while i < parts.len()
        invariant
            i <= parts.len(),
            views == parts@.map_values(|p: String| p@),
            r@ == seq_join(views.take(i as int), sep@),
        decreases parts.len() - i,
    {
        if i > 0 {
            r.append(sep);
        }
        r.append(parts[i].as_str());
        proof {
            assert(views.take(i + 1).drop_last() =~= views.take(i as int));
            assert(views.take(i + 1).last() == views[i as int]);
            if i == 0 {
                assert(r@ =~= seq_join(views.take(i + 1), sep@));
            }
        }
        i = i + 1;
    }
    proof {
        assert(views.take(parts.len() as int) =~= views);
    }
    r
}

/// `n` placeholders, comma-joined: the body of an IN list or of one row of
/// inserted values.
pub open spec fn placeholder_list(n: nat) -> Seq<char>
    decreases n,
{
    if n == 0 {
        Seq::empty()
    } else if n == 1 {
        "?"@
    } else {
        placeholder_list((n - 1) as nat) + ", "@ + "?"@
    }
}

/// A list of `n` placeholders holds exactly `n` of them.
pub proof fn lemma_placeholder_list_count(n: nat)
    ensures
        placeholder_count(placeholder_list(n)) == n,
    decreases n,
{
    reveal_strlit("?");
    reveal_strlit(", ");
    reveal_with_fuel(placeholder_count, 3);
    if n == 1 {
        assert(placeholder_list(1).drop_last() =~= Seq::<char>::empty());
    } else if n > 1 {
        lemma_placeholder_list_count((n - 1) as nat);
        assert(placeholder_free(", "@));
        lemma_placeholder_free_count(", "@);
        lemma_placeholder_count_concat(placeholder_list((n - 1) as nat), ", "@);
        lemma_placeholder_count_concat(placeholder_list((n - 1) as nat) + ", "@, "?"@);
        assert("?"@.drop_last() =~= Seq::<char>::empty());
    }
}

/// Appends `n` comma-joined placeholders to `out`.
pub fn write_placeholders(out: &mut String, n: usize)
    ensures
        final(out)@ == old(out)@ + placeholder_list(n as nat),
{
    let mut i: usize = 0;
    while i < n
        invariant
            i <= n,
            out@ == old(out)@ + placeholder_list(i as nat),
        decreases n - i,
    {
        if i == 0 {
            out.append("?");
        } else {
            out.append(", ?");
            proof {
                reveal_strlit(", ?");
                reveal_strlit(", ");
                reveal_strlit("?");
                assert(", ?"@ =~= ", "@ + "?"@);
                assert(old(out)@ + placeholder_list((i + 1) as nat) =~= (old(out)@
                    + placeholder_list(i as nat) + ", "@) + "?"@);
            }
        }
        i = i + 1;
    }
    proof {
        if n == 0 {
            assert(old(out)@ + placeholder_list(0) =~= old(out)@);
        }
    }
}

/// The decimal digit character for `d < 10`.
pub open spec fn dec_digit(d: nat) -> char {
    if d == 0 {
        '0'
    } else if d == 1 {
        '1'
    } else if d == 2 {
        '2'
    } else if d == 3 {
        '3'
    } else if d == 4 {
        '4'
    } else if d == 5 {
        '5'
    } else if d == 6 {
        '6'
    } else if d == 7 {
        '7'
    } else if d == 8 {
        '8'
    } else {
        '9'
    }
}

/// Decimal rendering of a natural number, most significant digit first.
pub open spec fn dec_nat(n: nat) -> Seq<char>
    decreases n,
{
    if n < 10 {
        seq![dec_digit(n)]
    } else {
        dec_nat(n / 10) + seq![dec_digit(n % 10)]
    }
}

/// Decimal rendering of an integer, with a leading minus sign when negative.
pub open spec fn dec_int(i: int) -> Seq<char> {
    if i < 0 {
        seq!['-'] + dec_nat((-i) as nat)
    } else {
        dec_nat(i as nat)
    }
}

/// Decimal digit characters are never placeholders.
pub proof fn lemma_dec_nat_placeholder_free(n: nat)
    ensures
        placeholder_free(dec_nat(n)),
    decreases n,
{
    if n >= 10 {
        lemma_dec_nat_placeholder_free(n / 10);
        assert forall|i: int| 0 <= i < dec_nat(n).len() implies dec_nat(n)[i] != '?' by {
            if i < dec_nat(n / 10).len() {
                assert(dec_nat(n)[i] == dec_nat(n / 10)[i]);
            }
        }
    }
}

/// Decimal renderings, sign included, are placeholder-free.
pub proof fn lemma_dec_int_placeholder_free(i: int)
    ensures
        placeholder_free(dec_int(i)),
{
    if i < 0 {
        lemma_dec_nat_placeholder_free((-i) as nat);
        assert(forall|k: int|
            0 <= k < dec_int(i).len() ==> dec_int(i)[k] == (seq!['-'] + dec_nat((-i) as nat))[k]);
    } else {
        lemma_dec_nat_placeholder_free(i as nat);
    }
}

/// Appends the decimal digit character for `d < 10` to `out`.
fn write_digit(out: &mut String, d: u64)
    requires
        d < 10,
    ensures
        final(out)@ == old(out)@ + seq![dec_digit(d as nat)],
{
    let lit = if d == 0 {
        "0"
    } else if d == 1 {
        "1"
    } else if d == 2 {
        "2"
    } else if d == 3 {
        "3"
    } else if d == 4 {
        "4"
    } else if d == 5 {
        "5"
    } else if d == 6 {
        "6"
    } else if d == 7 {
        "7"
    } else if d == 8 {
        "8"
    } else {
        "9"
    };
    proof {
        reveal_strlit("0");
        reveal_strlit("1");
        reveal_strlit("2");
        reveal_strlit("3");
        reveal_strlit("4");
        reveal_strlit("5");
        reveal_strlit("6");
        reveal_strlit("7");
        reveal_strlit("8");
        reveal_strlit("9");
        assert(lit@ =~= seq![dec_digit(d as nat)]);
    }
    out.append(lit);
}

/// Appends the decimal rendering of `n` to `out`.
pub fn write_dec_u64(out: &mut String, n: u64)
    ensures
        final(out)@ == old(out)@ + dec_nat(n as nat),
    decreases n,
{
    if n >= 10 {
        write_dec_u64(out, n / 10);
    }
    write_digit(out, n % 10);
    proof {
        if n >= 10 {
            assert(old(out)@ + dec_nat(n as nat) =~= (old(out)@ + dec_nat((n / 10) as nat)) + seq![
                dec_digit((n % 10) as nat),
            ]);
        }
    }
}

/// Appends the decimal rendering of `v` to `out`, minus sign included.
pub fn write_dec_i32(out: &mut String, v: i32)
    ensures
        final(out)@ == old(out)@ + dec_int(v as int),
{
    if v < 0 {
        out.append("-");
        let m: u64 = (-(v as i64)) as u64;
        write_dec_u64(out, m);
        proof {
            reveal_strlit("-");
            assert("-"@ =~= seq!['-']);
            assert((old(out)@ + "-"@) + dec_nat(m as nat) =~= old(out)@ + dec_int(v as int));
        }
    } else {
        write_dec_u64(out, v as u64);
    }
}

} // verus!
