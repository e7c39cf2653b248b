//! Verified text building: decimal renderings of unsigned integers and
//! comma-joined name lists, used by the reply and log messages.
use vstd::prelude::*;
use vstd::string::StringExecFns;

verus! {

/// The decimal digit character for `d` (meaningful for `d < 10`).
pub open spec fn digit_char(d: nat) -> char {
    if d == 0 {
        '0'
    } else if d == 1 {
        '1'
    } else if d == 2 {
        '2'
    } else if d == 3 {
        '3'
    } else if d == 4 {
        '4'
    } else if d == 5 {
        '5'
    } else if d == 6 {
        '6'
    } else if d == 7 {
        '7'
    } else if d == 8 {
        '8'
    } else {
        '9'
    }
}

/// The decimal rendering of `n`, most significant digit first, no padding.
pub open spec fn dec_str(n: nat) -> Seq<char>
    decreases n,
{
    if n < 10 {
        seq![digit_char(n)]
    } else {
        dec_str(n / 10) + seq![digit_char(n % 10)]
    }
}

/// `n` rendered as exactly two digits, zero-padded (meaningful for `n < 100`).
pub open spec fn two_digit_str(n: nat) -> Seq<char> {
    seq![digit_char(n / 10), digit_char(n % 10)]
}

/// The parts joined with a comma and a space between neighbours.
pub open spec fn comma_join(parts: Seq<Seq<char>>) -> Seq<char>
    decreases parts.len(),
{
    if parts.len() == 0 {
        Seq::empty()
    } else if parts.len() == 1 {
        parts[0]
    } else {
        comma_join(parts.drop_last()) + ", "@ + parts.last()
    }
}

fn digit_label(d: u64) -> (r: &'static str)
    requires
        d < 10,
    ensures
        r@ == seq![digit_char(d as nat)],
{
    let r: &'static str = match d {
        0 => "0",
        1 => "1",
        2 => "2",
        3 => "3",
        4 => "4",
        5 => "5",
        6 => "6",
        7 => "7",
        8 => "8",
        _ => "9",
    };
    proof {
        reveal_strlit("0");
        reveal_strlit("1");
        reveal_strlit("2");
        reveal_strlit("3");
        reveal_strlit("4");
        reveal_strlit("5");
        reveal_strlit("6");
        reveal_strlit("7");
        reveal_strlit("8");
        reveal_strlit("9");
        assert(r@ =~= seq![digit_char(d as nat)]);
    }
    r
}

/// Appends the decimal rendering of `n` to `out`.
pub(crate) fn push_decimal(out: &mut String, n: u64)
    ensures
        final(out)@ == old(out)@ + dec_str(n as nat),
    decreases n,
{
    if n < 10 {
        out.append(digit_label(n));
    } else {
        proof {
            assert(n / 10 < n && n % 10 < 10) by (nonlinear_arith)
                requires
                    n >= 10,
            ;
        }
        push_decimal(out, n / 10);
        out.append(digit_label(n % 10));
        proof {
            assert(old(out)@ + dec_str((n / 10) as nat) + seq![digit_char((n % 10) as nat)] =~= old(
                out,
            )@ + dec_str(n as nat));
        }
    }
}

/// Appends the two-digit zero-padded rendering of `n` to `out`.
pub(crate) fn push_two_digits(out: &mut String, n: u64)
    requires
        n < 100,
    ensures
        final(out)@ == old(out)@ + two_digit_str(n as nat),
{
    out.append(digit_label(n / 10));
    out.append(digit_label(n % 10));
    proof {
        assert(old(out)@ + seq![digit_char((n / 10) as nat)] + seq![
            digit_char((n % 10) as nat),
        ] =~= old(out)@ + two_digit_str(n as nat));
    }
}

/// Appends the parts joined with ", " to `out`.
pub(crate) fn push_comma_joined(out: &mut String, parts: &Vec<String>)
    ensures
        final(out)@ == old(out)@ + comma_join(parts.deep_view()),
{
    let n = parts.len();
    let mut i: usize = 0;
    while i < n
        invariant
            n == parts.len(),
            i <= n,
            out@ == old(out)@ + comma_join(parts.deep_view().take(i as int)),
        decreases n - i,
    {
        if i > 0 {
            out.append(", ");
        }
        out.append(parts[i].as_str());
        proof {
            let pv = parts.deep_view();
            assert(pv.take(i + 1).drop_last() =~= pv.take(i as int));
            assert(pv.take(i + 1).last() == pv[i as int]);
            if i == 0 {
                assert(comma_join(pv.take(1)) == pv[0]);
                assert(old(out)@ + Seq::<char>::empty() + pv[0] =~= old(out)@ + comma_join(
                    pv.take(1),
                ));
            } else {
                assert(comma_join(pv.take(i + 1)) == comma_join(pv.take(i as int)) + ", "@
                    + pv[i as int]);
                assert(old(out)@ + comma_join(pv.take(i as int)) + ", "@ + pv[i as int] =~= old(
                    out,
                )@ + comma_join(pv.take(i + 1)));
            }
        }
        i = i + 1;
    }
    proof {
        assert(parts.deep_view().take(n as int) =~= parts.deep_view());
    }
}

} // verus!
