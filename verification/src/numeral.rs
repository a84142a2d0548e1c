use vstd::prelude::*;
use vstd::string::StringExecFns;

verus! {

/// The character for one decimal digit: `digit_char(3) == '3'`.
pub open spec fn digit_char(d: int) -> char {
    ((48 + d) as u8) as char
}

/// The decimal numeral of `n`, most significant digit first, no sign
/// and no leading zeros (a single `'0'` for zero).
pub open spec fn dec_rep(n: nat) -> Seq<char>
    decreases n,
{
    if n < 10 {
        seq![digit_char(n as int)]
    } else {
        dec_rep((n / 10) as nat).push(digit_char((n % 10) as int))
    }
}

/// The decimal numeral of a signed value: a leading `'-'` when negative.
pub open spec fn dec_rep_i64(i: int) -> Seq<char> {
    if i < 0 {
        seq!['-'] + dec_rep((-i) as nat)
    } else {
        dec_rep(i as nat)
    }
}

fn digit_str(d: u64) -> (r: &'static str)
    requires
        d < 10,
    ensures
        r@ == seq![digit_char(d as int)],
{
    let r: &'static str = if d == 0 {
        "0"
    } else if d == 1 {
        "1"
    } else if d == 2 {
        "2"
    } else if d == 3 {
        "3"
    } else if d == 4 {
        "4"
    } else if d == 5 {
        "5"
    } else if d == 6 {
        "6"
    } else if d == 7 {
        "7"
    } else if d == 8 {
        "8"
    } else {
        "9"
    };
    proof {
        reveal_strlit("0");
        reveal_strlit("1");
        reveal_strlit("2");
        reveal_strlit("3");
        reveal_strlit("4");
        reveal_strlit("5");
        reveal_strlit("6");
        reveal_strlit("7");
        reveal_strlit("8");
        reveal_strlit("9");
        assert(r@ =~= seq![digit_char(d as int)]);
    }
    r
}

fn push_dec_u64(s: &mut String, n: u64)
    ensures
        final(s)@ == old(s)@ + dec_rep(n as nat),
    decreases n,
{
    if n < 10 {
        s.append(digit_str(n));
        proof {
            assert(s@ =~= old(s)@ + dec_rep(n as nat));
        }
    } else {
        push_dec_u64(s, n / 10);
        s.append(digit_str(n % 10));
        proof {
            assert(s@ =~= old(s)@ + dec_rep(n as nat));
        }
    }
}

/// The decimal numeral of `n` as a string, `-` first for negative values.
pub fn i64_dec_string(n: i64) -> (r: String)
    ensures
        r@ == dec_rep_i64(n as int),
{
    let mut s = String::new();
    if n < 0 {
        s.append("-");
        let m: u64 = (-(n as i128)) as u64;
        proof {
            reveal_strlit("-");
            assert(m as nat == (-(n as int)) as nat);
        }
        push_dec_u64(&mut s, m);
        proof {
            assert("-"@ =~= seq!['-']);
            assert(s@ =~= dec_rep_i64(n as int));
        }
    } else {
        push_dec_u64(&mut s, n as u64);
        proof {
            assert(s@ =~= dec_rep_i64(n as int));
        }
    }
    s
}

} // verus!
