//! Verified decimal rendering of unsigned integers, used when building
//! pragma statements.

use vstd::prelude::*;

verus! {

/// The character for one decimal digit.
pub open spec fn digit_char(d: nat) -> char {
    if d == 0 {
        '0'
    } else if d == 1 {
        '1'
    } else if d == 2 {
        '2'
    } else if d == 3 {
        '3'
    } else if d == 4 {
        '4'
    } else if d == 5 {
        '5'
    } else if d == 6 {
        '6'
    } else if d == 7 {
        '7'
    } else if d == 8 {
        '8'
    } else {
        '9'
    }
}

/// The decimal representation of `n`, most significant digit first, with no
/// leading zeros (`0` itself is `"0"`).
pub open spec fn dec_chars(n: nat) -> Seq<char>
    decreases n,
{
    if n < 10 {
        seq![digit_char(n)]
    } else {
        dec_chars(n / 10) + seq![digit_char(n % 10)]
    }
}

/// Appends the character for the decimal digit `d` to `s`.
fn append_digit(s: &mut String, d: usize)
    requires
        d < 10,
    ensures
        final(s)@ == old(s)@ + seq![digit_char(d as nat)],
{
    if d == 0 {
        proof {
            reveal_strlit("0");
        }
        s.append("0");
        assert(final(s)@ =~= old(s)@ + seq![digit_char(d as nat)]);
    } else if d == 1 {
        proof {
            reveal_strlit("1");
        }
        s.append("1");
        assert(final(s)@ =~= old(s)@ + seq![digit_char(d as nat)]);
    } else if d == 2 {
        proof {
            reveal_strlit("2");
        }
        s.append("2");
        assert(final(s)@ =~= old(s)@ + seq![digit_char(d as nat)]);
    } else if d == 3 {
        proof {
            reveal_strlit("3");
        }
        s.append("3");
        assert(final(s)@ =~= old(s)@ + seq![digit_char(d as nat)]);
    } else if d == 4 {
        proof {
            reveal_strlit("4");
        }
        s.append("4");
        assert(final(s)@ =~= old(s)@ + seq![digit_char(d as nat)]);
    } else if d == 5 {
        proof {
            reveal_strlit("5");
        }
        s.append("5");
        assert(final(s)@ =~= old(s)@ + seq![digit_char(d as nat)]);
    } else if d == 6 {
        proof {
            reveal_strlit("6");
        }
        s.append("6");
        assert(final(s)@ =~= old(s)@ + seq![digit_char(d as nat)]);
    } else if d == 7 {
        proof {
            reveal_strlit("7");
        }
        s.append("7");
        assert(final(s)@ =~= old(s)@ + seq![digit_char(d as nat)]);
    } else if d == 8 {
        proof {
            reveal_strlit("8");
        }
        s.append("8");
        assert(final(s)@ =~= old(s)@ + seq![digit_char(d as nat)]);
    } else {
        proof {
            reveal_strlit("9");
        }
        s.append("9");
        assert(final(s)@ =~= old(s)@ + seq![digit_char(d as nat)]);
    }
}

/// The characters of the digit values in `ds`, in reverse order.
pub open spec fn rev_digit_chars(ds: Seq<usize>) -> Seq<char> {
    ds.map_values(|d: usize| digit_char(d as nat)).reverse()
}

/// Renders `n` in decimal, most significant digit first.
pub fn usize_to_decimal(n: usize) -> (r: String)
    ensures
        r@ == dec_chars(n as nat),
{
    let mut s = String::new();
    if n == 0 {
        append_digit(&mut s, 0);
        assert(s@ =~= dec_chars(0));
        return s;
    }
    let mut rev: Vec<usize> = Vec::new();
    let mut m: usize = n;
    while m > 0
        invariant
            forall|i: int| 0 <= i < rev@.len() ==> rev@[i] < 10,
            m == 0 ==> rev@.len() > 0,
            dec_chars(n as nat) == (if m > 0 {
                dec_chars(m as nat)
            } else {
                Seq::<char>::empty()
            }) + rev_digit_chars(rev@),
        decreases m,
    {
        let d = m % 10;
        let ghost old_rev = rev@;
        let ghost old_m = m as nat;
        rev.push(d);
        m = m / 10;
        proof {
            assert(rev@.map_values(|dd: usize| digit_char(dd as nat)) =~= old_rev.map_values(
                |dd: usize| digit_char(dd as nat),
            ).push(digit_char(d as nat)));
            assert(rev_digit_chars(rev@) =~= seq![digit_char(d as nat)] + rev_digit_chars(old_rev));
            if old_m >= 10 {
                assert(dec_chars(old_m) == dec_chars(old_m / 10) + seq![digit_char(old_m % 10)]);
                assert(dec_chars(n as nat) =~= dec_chars(m as nat) + rev_digit_chars(rev@));
            } else {
                assert(dec_chars(old_m) =~= seq![digit_char(d as nat)]);
                assert(dec_chars(n as nat) =~= Seq::<char>::empty() + rev_digit_chars(rev@));
            }
        }
    }
    let mut i: usize = rev.len();
    while i > 0
        invariant
            i <= rev@.len(),
            forall|j: int| 0 <= j < rev@.len() ==> rev@[j] < 10,
            dec_chars(n as nat) == Seq::<char>::empty() + rev_digit_chars(rev@),
            s@ == rev_digit_chars(rev@).take(rev@.len() - i),
        decreases i,
    {
        i = i - 1;
        append_digit(&mut s, rev[i]);
        proof {
            assert(rev_digit_chars(rev@)[rev@.len() - i - 1] == digit_char(rev@[i as int] as nat));
            assert(s@ =~= rev_digit_chars(rev@).take(rev@.len() - i));
        }
    }
    proof {
        assert(s@ =~= rev_digit_chars(rev@));
        assert(dec_chars(n as nat) =~= rev_digit_chars(rev@));
    }
    s
}

} // verus!
