//! Verified text building blocks used by the query compilers: string
//! equality, separator joins and decimal rendering of integers.

use vstd::prelude::*;

verus! {

/// Character-sequence views of a sequence of strings.
pub open spec fn seq_views(parts: Seq<String>) -> Seq<Seq<char>> {
    parts.map_values(|s: String| s@)
}

/// The first `n` parts joined with `sep` between neighbours.
pub open spec fn join_prefix(parts: Seq<Seq<char>>, sep: Seq<char>, n: int) -> Seq<char>
    decreases n,
{
    if n <= 0 {
        Seq::empty()
    } else if n == 1 {
        parts[0]
    } else {
        join_prefix(parts, sep, n - 1) + sep + parts[n - 1]
    }
}

/// All parts joined with `sep` between neighbours.
pub open spec fn join_model(parts: Seq<Seq<char>>, sep: Seq<char>) -> Seq<char> {
    join_prefix(parts, sep, parts.len() as int)
}

/// Whether two string slices hold the same characters.
pub fn str_eq(a: &str, b: &str) -> (r: bool)
    ensures
        r == (a@ == b@),
{
    let sa = String::from_str(a);
    let sb = String::from_str(b);
    sa == sb
}

/// Join the parts with the separator, in order.
pub fn join_with(parts: &Vec<String>, sep: &str) -> (r: String)
    ensures
        r@ == join_model(seq_views(parts@), sep@),
{
    let mut out = String::new();
    let mut i: usize = 0;
    while i < parts.len()
        invariant
            i <= parts@.len(),
            out@ == join_prefix(seq_views(parts@), sep@, i as int),
        decreases parts@.len() - i,
    {
        if i > 0 {
            out.append(sep);
        }
        out.append(parts[i].as_str());
        proof {
            assert(seq_views(parts@)[i as int] == parts@[i as int]@);
        }
        i += 1;
    }
    out
}

/// The decimal digit character for `d`.
pub open spec fn dec_digit(d: int) -> char {
    if d == 0 {
        '0'
    } else if d == 1 {
        '1'
    } else if d == 2 {
        '2'
    } else if d == 3 {
        '3'
    } else if d == 4 {
        '4'
    } else if d == 5 {
        '5'
    } else if d == 6 {
        '6'
    } else if d == 7 {
        '7'
    } else if d == 8 {
        '8'
    } else {
        '9'
    }
}

/// Decimal rendering of a non-negative integer, most significant digit first.
pub open spec fn dec_model(n: nat) -> Seq<char>
    decreases n,
{
    if n < 10 {
        seq![dec_digit(n as int)]
    } else {
        dec_model(n / 10) + seq![dec_digit((n % 10) as int)]
    }
}

fn digit_str(d: usize) -> (r: &'static str)
    requires
        d < 10,
    ensures
        r@ == seq![dec_digit(d as int)],
{
    proof {
        reveal_strlit("0");
        reveal_strlit("1");
        reveal_strlit("2");
        reveal_strlit("3");
        reveal_strlit("4");
        reveal_strlit("5");
        reveal_strlit("6");
        reveal_strlit("7");
        reveal_strlit("8");
        reveal_strlit("9");
    }
    let r: &'static str = if d == 0 {
        "0"
    } else if d == 1 {
        "1"
    } else if d == 2 {
        "2"
    } else if d == 3 {
        "3"
    } else if d == 4 {
        "4"
    } else if d == 5 {
        "5"
    } else if d == 6 {
        "6"
    } else if d == 7 {
        "7"
    } else if d == 8 {
        "8"
    } else {
        "9"
    };
    proof {
        assert(r@ =~= seq![dec_digit(d as int)]);
    }
    r
}

/// Render a non-negative integer in decimal.
pub fn decimal_of(n: usize) -> (r: String)
    ensures
        r@ == dec_model(n as nat),
    decreases n,
{
    if n < 10 {
        String::from_str(digit_str(n))
    } else {
        decimal_of(n / 10).concat(digit_str(n % 10))
    }
}

} // verus!
