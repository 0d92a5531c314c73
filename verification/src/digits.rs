//! Verified decimal rendering: the plain decimal form of an integer and the
//! five-wide zero-padded form used to number captured frames.

use vstd::prelude::*;
use vstd::string::StringExecFns;

verus! {

/// Width of a frame number: `frame_00000.png` .. `frame_99999.png`; larger
/// counts keep all their digits, as width-padding never truncates.
pub const FRAME_NUMBER_WIDTH: usize = 5;

/// The decimal digit character for a value below ten.
pub open spec fn digit_char(d: nat) -> char {
    if d == 0 {
        '0'
    } else if d == 1 {
        '1'
    } else if d == 2 {
        '2'
    } else if d == 3 {
        '3'
    } else if d == 4 {
        '4'
    } else if d == 5 {
        '5'
    } else if d == 6 {
        '6'
    } else if d == 7 {
        '7'
    } else if d == 8 {
        '8'
    } else {
        '9'
    }
}

/// The decimal representation of `n`: most significant digit first, no sign,
/// no leading zeros (a single `'0'` for zero itself).
pub open spec fn dec_rep(n: nat) -> Seq<char>
    decreases n,
{
    if n < 10 {
        seq![digit_char(n)]
    } else {
        dec_rep(n / 10).push(digit_char(n % 10))
    }
}

/// Number of digits in the decimal representation of `n`.
pub open spec fn dec_len(n: nat) -> nat
    decreases n,
{
    if n < 10 {
        1
    } else {
        1 + dec_len(n / 10)
    }
}

pub proof fn lemma_dec_rep_len(n: nat)
    ensures
        dec_rep(n).len() == dec_len(n),
    decreases n,
{
    if n >= 10 {
        lemma_dec_rep_len(n / 10);
    }
}

/// How many digits small values have, so that the zero-pad width can be
/// computed by plain comparisons.
pub proof fn lemma_dec_len_small(n: nat)
    ensures
        n < 10 ==> dec_len(n) == 1,
        10 <= n && n < 100 ==> dec_len(n) == 2,
        100 <= n && n < 1000 ==> dec_len(n) == 3,
        1000 <= n && n < 10000 ==> dec_len(n) == 4,
        10000 <= n && n < 100000 ==> dec_len(n) == 5,
        100000 <= n ==> dec_len(n) >= 6,
    decreases n,
{
    if n >= 10 {
        lemma_dec_len_small(n / 10);
    }
}

/// The five-wide zero-padded decimal form: left-padded with `'0'` up to five
/// characters; values of six or more digits are rendered in full.
pub open spec fn frame_label(n: nat) -> Seq<char> {
    if dec_len(n) >= FRAME_NUMBER_WIDTH {
        dec_rep(n)
    } else {
        Seq::new((FRAME_NUMBER_WIDTH - dec_len(n)) as nat, |i: int| '0') + dec_rep(n)
    }
}

/// The one-character string for a decimal digit.
fn digit_str(d: u64) -> (r: &'static str)
    requires
        d < 10,
    ensures
        r@ == seq![digit_char(d as nat)],
{
    proof {
        reveal_strlit("0");
        reveal_strlit("1");
        reveal_strlit("2");
        reveal_strlit("3");
        reveal_strlit("4");
        reveal_strlit("5");
        reveal_strlit("6");
        reveal_strlit("7");
        reveal_strlit("8");
        reveal_strlit("9");
    }
    if d == 0 {
        assert("0"@ =~= seq![digit_char(0)]);
        "0"
    } else if d == 1 {
        assert("1"@ =~= seq![digit_char(1)]);
        "1"
    } else if d == 2 {
        assert("2"@ =~= seq![digit_char(2)]);
        "2"
    } else if d == 3 {
        assert("3"@ =~= seq![digit_char(3)]);
        "3"
    } else if d == 4 {
        assert("4"@ =~= seq![digit_char(4)]);
        "4"
    } else if d == 5 {
        assert("5"@ =~= seq![digit_char(5)]);
        "5"
    } else if d == 6 {
        assert("6"@ =~= seq![digit_char(6)]);
        "6"
    } else if d == 7 {
        assert("7"@ =~= seq![digit_char(7)]);
        "7"
    } else if d == 8 {
        assert("8"@ =~= seq![digit_char(8)]);
        "8"
    } else {
        assert("9"@ =~= seq![digit_char(9)]);
        "9"
    }
}

/// The decimal representation of `n` as a `String`.
pub fn u64_to_dec(n: u64) -> (r: String)
    ensures
        r@ == dec_rep(n as nat),
    decreases n,
{
    if n < 10 {
        String::from_str(digit_str(n))
    } else {
        let mut s = u64_to_dec(n / 10);
        s.append(digit_str(n % 10));
        proof {
            assert(dec_rep((n / 10) as nat) + seq![digit_char((n % 10) as nat)] =~= dec_rep(
                (n / 10) as nat,
            ).push(digit_char((n % 10) as nat)));
        }
        s
    }
}

/// The zero-padding in front of the digits of `n`, empty from five digits up.
fn pad_str(n: u32) -> (r: &'static str)
    ensures
        r@ =~= Seq::new(
            if dec_len(n as nat) >= FRAME_NUMBER_WIDTH {
                0
            } else {
                (FRAME_NUMBER_WIDTH - dec_len(n as nat)) as nat
            },
            |i: int| '0',
        ),
{
    proof {
        lemma_dec_len_small(n as nat);
        reveal_strlit("");
        reveal_strlit("0");
        reveal_strlit("00");
        reveal_strlit("000");
        reveal_strlit("0000");
    }
    if n < 10 {
        assert("0000"@ =~= Seq::new(4, |i: int| '0'));
        "0000"
    } else if n < 100 {
        assert("000"@ =~= Seq::new(3, |i: int| '0'));
        "000"
    } else if n < 1000 {
        assert("00"@ =~= Seq::new(2, |i: int| '0'));
        "00"
    } else if n < 10000 {
        assert("0"@ =~= Seq::new(1, |i: int| '0'));
        "0"
    } else {
        assert(""@ =~= Seq::new(0, |i: int| '0'));
        ""
    }
}

/// The five-wide zero-padded decimal form of a frame number as a `String`.
pub fn u32_frame_label(n: u32) -> (r: String)
    ensures
        r@ == frame_label(n as nat),
{
    let mut s = String::from_str(pad_str(n));
    let digits = u64_to_dec(n as u64);
    s.append(digits.as_str());
    proof {
        lemma_dec_rep_len(n as nat);
        if dec_len(n as nat) >= FRAME_NUMBER_WIDTH {
            assert(Seq::new(0, |i: int| '0') + dec_rep(n as nat) =~= dec_rep(n as nat));
        }
    }
    s
}

} // verus!
