//! Decimal rendering of the integers that appear in a record: thread
//! identifiers, source line numbers and the parts of a timestamp, with
//! zero-padding to a fixed width where the layout asks for it.

use vstd::prelude::*;

verus! {

/// The decimal digit character for `d`, which must be below ten.
pub open spec fn digit_char(d: nat) -> char {
    if d == 0 {
        '0'
    } else if d == 1 {
        '1'
    } else if d == 2 {
        '2'
    } else if d == 3 {
        '3'
    } else if d == 4 {
        '4'
    } else if d == 5 {
        '5'
    } else if d == 6 {
        '6'
    } else if d == 7 {
        '7'
    } else if d == 8 {
        '8'
    } else {
        '9'
    }
}

/// The decimal rendering of `n`, most significant digit first, with no
/// leading zeros (a single `'0'` for zero itself).
pub open spec fn dec_spec(n: nat) -> Seq<char>
    decreases n,
{
    if n < 10 {
        seq![digit_char(n)]
    } else {
        dec_spec(n / 10) + seq![digit_char(n % 10)]
    }
}

/// `dec_spec(n)` zero-padded on the left to at least two characters.
pub open spec fn pad2_spec(n: nat) -> Seq<char> {
    if n < 10 {
        seq!['0'] + dec_spec(n)
    } else {
        dec_spec(n)
    }
}

/// `dec_spec(n)` zero-padded on the left to at least three characters.
pub open spec fn pad3_spec(n: nat) -> Seq<char> {
    if n < 10 {
        seq!['0', '0'] + dec_spec(n)
    } else if n < 100 {
        seq!['0'] + dec_spec(n)
    } else {
        dec_spec(n)
    }
}

/// `dec_spec(n)` zero-padded on the left to at least four characters.
pub open spec fn pad4_spec(n: nat) -> Seq<char> {
    if n < 10 {
        seq!['0', '0', '0'] + dec_spec(n)
    } else if n < 100 {
        seq!['0', '0'] + dec_spec(n)
    } else if n < 1000 {
        seq!['0'] + dec_spec(n)
    } else {
        dec_spec(n)
    }
}

/// The one-character string for digit `d`.
fn digit_str(d: u64) -> (r: &'static str)
    requires
        d < 10,
    ensures
        r@ == seq![digit_char(d as nat)],
{
    proof {
        reveal_strlit("0");
        reveal_strlit("1");
        reveal_strlit("2");
        reveal_strlit("3");
        reveal_strlit("4");
        reveal_strlit("5");
        reveal_strlit("6");
        reveal_strlit("7");
        reveal_strlit("8");
        reveal_strlit("9");
    }
    let r: &'static str = if d == 0 {
        "0"
    } else if d == 1 {
        "1"
    } else if d == 2 {
        "2"
    } else if d == 3 {
        "3"
    } else if d == 4 {
        "4"
    } else if d == 5 {
        "5"
    } else if d == 6 {
        "6"
    } else if d == 7 {
        "7"
    } else if d == 8 {
        "8"
    } else {
        "9"
    };
    proof {
        assert(r@ =~= seq![digit_char(d as nat)]);
    }
    r
}

/// Appends the decimal rendering of `n` to `s`.
pub fn push_dec(s: &mut String, n: u64)
    ensures
        final(s)@ == old(s)@ + dec_spec(n as nat),
    decreases n,
{
    if n < 10 {
        s.append(digit_str(n));
    } else {
        push_dec(s, n / 10);
        s.append(digit_str(n % 10));
        proof {
            assert(s@ =~= old(s)@ + dec_spec(n as nat));
        }
    }
}

/// The decimal rendering of `n` as a fresh string.
pub fn dec_string(n: u64) -> (r: String)
    ensures
        r@ == dec_spec(n as nat),
{
    let mut s = String::new();
    push_dec(&mut s, n);
    proof {
        assert(s@ =~= dec_spec(n as nat));
    }
    s
}

/// Appends `n` zero-padded to at least two digits.
pub fn push_pad2(s: &mut String, n: u64)
    ensures
        final(s)@ == old(s)@ + pad2_spec(n as nat),
{
    if n < 10 {
        proof {
            reveal_strlit("0");
        }
        s.append("0");
        push_dec(s, n);
        proof {
            assert("0"@ =~= seq!['0']);
            assert(s@ =~= old(s)@ + pad2_spec(n as nat));
        }
    } else {
        push_dec(s, n);
    }
}

/// Appends `n` zero-padded to at least three digits.
pub fn push_pad3(s: &mut String, n: u64)
    ensures
        final(s)@ == old(s)@ + pad3_spec(n as nat),
{
    if n < 10 {
        proof {
            reveal_strlit("00");
        }
        s.append("00");
        push_dec(s, n);
        proof {
            assert("00"@ =~= seq!['0', '0']);
            assert(s@ =~= old(s)@ + pad3_spec(n as nat));
        }
    } else if n < 100 {
        proof {
            reveal_strlit("0");
        }
        s.append("0");
        push_dec(s, n);
        proof {
            assert("0"@ =~= seq!['0']);
            assert(s@ =~= old(s)@ + pad3_spec(n as nat));
        }
    } else {
        push_dec(s, n);
    }
}

/// Appends `n` zero-padded to at least four digits.
pub fn push_pad4(s: &mut String, n: u64)
    ensures
        final(s)@ == old(s)@ + pad4_spec(n as nat),
{
    if n < 10 {
        proof {
            reveal_strlit("000");
        }
        s.append("000");
        push_dec(s, n);
        proof {
            assert("000"@ =~= seq!['0', '0', '0']);
            assert(s@ =~= old(s)@ + pad4_spec(n as nat));
        }
    } else if n < 100 {
        proof {
            reveal_strlit("00");
        }
        s.append("00");
        push_dec(s, n);
        proof {
            assert("00"@ =~= seq!['0', '0']);
            assert(s@ =~= old(s)@ + pad4_spec(n as nat));
        }
    } else if n < 1000 {
        proof {
            reveal_strlit("0");
        }
        s.append("0");
        push_dec(s, n);
        proof {
            assert("0"@ =~= seq!['0']);
            assert(s@ =~= old(s)@ + pad4_spec(n as nat));
        }
    } else {
        push_dec(s, n);
    }
}

} // verus!
