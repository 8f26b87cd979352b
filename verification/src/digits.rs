//! Decimal rendering of small integers.
//!
//! Every numeric parameter in an SGR sequence is written in decimal, so the
//! rest of the crate states its contracts over [`dec_str`], the mathematical
//! decimal representation of a natural number.

use vstd::prelude::*;

verus! {

use vstd::string::StringExecFns;

/// The character for a single decimal digit.
pub open spec fn digit_char(d: nat) -> char {
    if d == 0 {
        '0'
    } else if d == 1 {
        '1'
    } else if d == 2 {
        '2'
    } else if d == 3 {
        '3'
    } else if d == 4 {
        '4'
    } else if d == 5 {
        '5'
    } else if d == 6 {
        '6'
    } else if d == 7 {
        '7'
    } else if d == 8 {
        '8'
    } else {
        '9'
    }
}

/// The decimal representation of `n`, most significant digit first,
/// without leading zeros (`0` itself is the single character `'0'`).
pub open spec fn dec_str(n: nat) -> Seq<char>
    decreases n,
{
    if n < 10 {
        seq![digit_char(n)]
    } else {
        dec_str(n / 10) + seq![digit_char(n % 10)]
    }
}

/// Every character of a decimal representation is a digit; in particular
/// none is the `';'` separator.
pub proof fn lemma_dec_str_digits(n: nat)
    ensures
        forall|i: int| 0 <= i < dec_str(n).len() ==> ('0' <= #[trigger] dec_str(n)[i] <= '9'),
    decreases n,
{
    if n < 10 {
        assert(dec_str(n) =~= seq![digit_char(n)]);
        assert('0' <= digit_char(n) <= '9');
    } else {
        lemma_dec_str_digits(n / 10);
        assert(dec_str(n) =~= dec_str(n / 10) + seq![digit_char(n % 10)]);
        assert('0' <= digit_char(n % 10) <= '9');
        assert forall|i: int| 0 <= i < dec_str(n).len() implies
            ('0' <= #[trigger] dec_str(n)[i] <= '9') by {
            if i < dec_str(n / 10).len() {
                assert(dec_str(n)[i] == dec_str(n / 10)[i]);
            } else {
                assert(dec_str(n)[i] == digit_char(n % 10));
            }
        }
    }
}

/// The single character of a one-digit decimal representation.
fn digit_str(d: u8) -> (r: &'static str)
    requires
        d < 10,
    ensures
        r@ == seq![digit_char(d as nat)],
{
    let r: &'static str = if d == 0 {
        "0"
    } else if d == 1 {
        "1"
    } else if d == 2 {
        "2"
    } else if d == 3 {
        "3"
    } else if d == 4 {
        "4"
    } else if d == 5 {
        "5"
    } else if d == 6 {
        "6"
    } else if d == 7 {
        "7"
    } else if d == 8 {
        "8"
    } else {
        "9"
    };
    proof {
        reveal_strlit("0");
        reveal_strlit("1");
        reveal_strlit("2");
        reveal_strlit("3");
        reveal_strlit("4");
        reveal_strlit("5");
        reveal_strlit("6");
        reveal_strlit("7");
        reveal_strlit("8");
        reveal_strlit("9");
        assert(r@ =~= seq![digit_char(d as nat)]);
    }
    r
}

/// The decimal representation of a byte, as a `String`.
pub fn decimal_u8(n: u8) -> (r: String)
    ensures
        r@ == dec_str(n as nat),
{
    if n < 10 {
        let r = digit_str(n).to_owned();
        proof {
            assert(r@ =~= dec_str(n as nat));
        }
        r
    } else if n < 100 {
        let mut r = digit_str(n / 10).to_owned();
        r.append(digit_str(n % 10));
        proof {
            assert(dec_str((n / 10) as nat) =~= seq![digit_char((n / 10) as nat)]);
            assert(r@ =~= dec_str(n as nat));
        }
        r
    } else {
        let q = n / 10;
        let mut r = digit_str(q / 10).to_owned();
        r.append(digit_str(q % 10));
        r.append(digit_str(n % 10));
        proof {
            assert(dec_str((q / 10) as nat) =~= seq![digit_char((q / 10) as nat)]);
            assert(dec_str(q as nat) =~= seq![
                digit_char((q / 10) as nat),
                digit_char((q % 10) as nat),
            ]);
            assert(r@ =~= dec_str(n as nat));
        }
        r
    }
}

} // verus!
