//! Verified text rendering: decimal numerals and space-joined tag lists.

use vstd::prelude::*;
use vstd::string::StringExecFns;

verus! {

/// The character for a single decimal digit value.
pub open spec fn dec_digit(d: nat) -> char {
    if d == 0 {
        '0'
    } else if d == 1 {
        '1'
    } else if d == 2 {
        '2'
    } else if d == 3 {
        '3'
    } else if d == 4 {
        '4'
    } else if d == 5 {
        '5'
    } else if d == 6 {
        '6'
    } else if d == 7 {
        '7'
    } else if d == 8 {
        '8'
    } else {
        '9'
    }
}

/// Decimal rendering of a natural number, most significant digit first,
/// with no leading zeros (zero itself renders as "0").
pub open spec fn dec_str(n: nat) -> Seq<char>
    decreases n,
{
    if n < 10 {
        seq![dec_digit(n)]
    } else {
        dec_str(n / 10) + seq![dec_digit(n % 10)]
    }
}

/// Appends the character for one digit value to `out`.
fn push_digit(d: u32, out: &mut String)
    requires
        d < 10,
    ensures
        final(out)@ == old(out)@ + seq![dec_digit(d as nat)],
{
    let s: &str = if d == 0 {
        "0"
    } else if d == 1 {
        "1"
    } else if d == 2 {
        "2"
    } else if d == 3 {
        "3"
    } else if d == 4 {
        "4"
    } else if d == 5 {
        "5"
    } else if d == 6 {
        "6"
    } else if d == 7 {
        "7"
    } else if d == 8 {
        "8"
    } else {
        "9"
    };
    proof {
        reveal_strlit("0");
        reveal_strlit("1");
        reveal_strlit("2");
        reveal_strlit("3");
        reveal_strlit("4");
        reveal_strlit("5");
        reveal_strlit("6");
        reveal_strlit("7");
        reveal_strlit("8");
        reveal_strlit("9");
        assert(s@ =~= seq![dec_digit(d as nat)]);
    }
    out.append(s);
}

/// Appends the decimal rendering of `n` to `out`.
fn push_dec(n: u32, out: &mut String)
    ensures
        final(out)@ == old(out)@ + dec_str(n as nat),
    decreases n,
{
    if n >= 10 {
        push_dec(n / 10, out);
    }
    push_digit(n % 10, out);
    proof {
        if n >= 10 {
            assert(old(out)@ + dec_str((n / 10) as nat) + seq![dec_digit((n % 10) as nat)] =~= old(
                out,
            )@ + dec_str(n as nat));
        }
    }
}

/// The exact decimal numeral for `n`, as the remote API expects it.
pub fn u32_to_dec(n: u32) -> (r: String)
    ensures
        r@ == dec_str(n as nat),
{
    let mut out = String::new();
    push_dec(n, &mut out);
    proof {
        assert(out@ =~= dec_str(n as nat));
    }
    out
}

/// The views of a sequence of strings.
pub open spec fn str_views(tags: Seq<String>) -> Seq<Seq<char>> {
    tags.map_values(|t: String| t@)
}

/// Space-joined concatenation of the given tokens, in order: the remote
/// query language's tag-string form.
pub open spec fn join_spaced(tokens: Seq<Seq<char>>) -> Seq<char>
    decreases tokens.len(),
{
    if tokens.len() == 0 {
        Seq::empty()
    } else if tokens.len() == 1 {
        tokens[0]
    } else {
        join_spaced(tokens.drop_last()) + seq![' '] + tokens.last()
    }
}

/// Joins the given tag strings with single spaces, preserving order.
pub fn join_tags(tags: &Vec<String>) -> (r: String)
    ensures
        r@ == join_spaced(str_views(tags@)),
{
    let ghost sv = str_views(tags@);
    let mut out = String::new();
    let mut i: usize = 0;
    while i < tags.len()
        invariant
            i <= tags.len(),
            sv == str_views(tags@),
            sv.len() == tags@.len(),
            out@ == join_spaced(sv.take(i as int)),
        decreases tags.len() - i,
    {
        if i > 0 {
            out.append(" ");
        }
        out.append(tags[i].as_str());
        proof {
            reveal_strlit(" ");
            assert(sv.take(i + 1).drop_last() =~= sv.take(i as int));
            assert(sv.take(i + 1).last() == sv[i as int]);
            if i == 0 {
                assert(out@ =~= join_spaced(sv.take(1)));
            } else {
                assert(out@ =~= join_spaced(sv.take(i as int)) + seq![' '] + sv[i as int]);
            }
        }
        i += 1;
    }
    proof {
        assert(sv.take(tags@.len() as int) =~= sv);
    }
    out
}

} // verus!
