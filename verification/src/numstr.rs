//! Decimal numerals as character sequences, used when building query
//! strings and display text.

use vstd::prelude::*;
use vstd::string::*;

verus! {

/// The character for the decimal digit `d`.
pub open spec fn spec_digit(d: int) -> char {
    if d == 0 {
        '0'
    } else if d == 1 {
        '1'
    } else if d == 2 {
        '2'
    } else if d == 3 {
        '3'
    } else if d == 4 {
        '4'
    } else if d == 5 {
        '5'
    } else if d == 6 {
        '6'
    } else if d == 7 {
        '7'
    } else if d == 8 {
        '8'
    } else {
        '9'
    }
}

/// The decimal numeral of `n`, most significant digit first, without
/// leading zeros (except for `n == 0` itself).
pub open spec fn spec_dec(n: nat) -> Seq<char>
    decreases n,
{
    if n < 10 {
        seq![spec_digit(n as int)]
    } else {
        spec_dec(n / 10) + seq![spec_digit((n % 10) as int)]
    }
}

/// Appends the character for the single digit `d` to `out`.
pub fn append_digit(out: &mut String, d: u64)
    requires
        d < 10,
    ensures
        final(out)@ == old(out)@ + seq![spec_digit(d as int)],
{
    if d == 0 {
        proof {
            reveal_strlit("0");
            assert(("0")@ =~= seq![spec_digit(0)]);
        }
        out.append("0");
    } else if d == 1 {
        proof {
            reveal_strlit("1");
            assert(("1")@ =~= seq![spec_digit(1)]);
        }
        out.append("1");
    } else if d == 2 {
        proof {
            reveal_strlit("2");
            assert(("2")@ =~= seq![spec_digit(2)]);
        }
        out.append("2");
    } else if d == 3 {
        proof {
            reveal_strlit("3");
            assert(("3")@ =~= seq![spec_digit(3)]);
        }
        out.append("3");
    } else if d == 4 {
        proof {
            reveal_strlit("4");
            assert(("4")@ =~= seq![spec_digit(4)]);
        }
        out.append("4");
    } else if d == 5 {
        proof {
            reveal_strlit("5");
            assert(("5")@ =~= seq![spec_digit(5)]);
        }
        out.append("5");
    } else if d == 6 {
        proof {
            reveal_strlit("6");
            assert(("6")@ =~= seq![spec_digit(6)]);
        }
        out.append("6");
    } else if d == 7 {
        proof {
            reveal_strlit("7");
            assert(("7")@ =~= seq![spec_digit(7)]);
        }
        out.append("7");
    } else if d == 8 {
        proof {
            reveal_strlit("8");
            assert(("8")@ =~= seq![spec_digit(8)]);
        }
        out.append("8");
    } else {
        proof {
            reveal_strlit("9");
            assert(("9")@ =~= seq![spec_digit(9)]);
        }
        out.append("9");
    }
}

/// Appends the decimal numeral of `n` to `out`.
pub fn append_dec(out: &mut String, n: u64)
    ensures
        final(out)@ == old(out)@ + spec_dec(n as nat),
    decreases n,
{
    if n < 10 {
        append_digit(out, n);
    } else {
        append_dec(out, n / 10);
        append_digit(out, n % 10);
        proof {
            assert(out@ =~= old(out)@ + spec_dec(n as nat));
        }
    }
}

/// The decimal numeral of `n` as a fresh string.
pub fn u64_to_string(n: u64) -> (r: String)
    ensures
        r@ == spec_dec(n as nat),
{
    let mut s = String::new();
    append_dec(&mut s, n);
    proof {
        assert(s@ =~= spec_dec(n as nat));
    }
    s
}

} // verus!
