//! Frame names.
//!
//! Each animation frame is keyed in the frame table by a name of the shape
//! `"Run (<n>).png"`, where `<n>` is the 1-based playback cursor written in
//! decimal.

use vstd::prelude::*;
use vstd::string::StringExecFns;

verus! {

/// The decimal digit character for `d` in `0..=9`.
pub open spec fn spec_digit_char(d: int) -> char {
    if d == 0 {
        '0'
    } else if d == 1 {
        '1'
    } else if d == 2 {
        '2'
    } else if d == 3 {
        '3'
    } else if d == 4 {
        '4'
    } else if d == 5 {
        '5'
    } else if d == 6 {
        '6'
    } else if d == 7 {
        '7'
    } else if d == 8 {
        '8'
    } else {
        '9'
    }
}

/// The decimal digits of `n`, most significant first.
pub open spec fn spec_decimal(n: int) -> Seq<char>
    recommends
        n >= 0,
    decreases n,
{
    if n < 10 {
        seq![spec_digit_char(n)]
    } else {
        spec_decimal(n / 10).push(spec_digit_char(n % 10))
    }
}

/// The name of frame `n`: `"Run ("`, then `n` in decimal, then `").png"`.
pub open spec fn spec_frame_name(n: int) -> Seq<char> {
    seq!['R', 'u', 'n', ' ', '('] + spec_decimal(n) + seq![')', '.', 'p', 'n', 'g']
}

/// The one-character string for the digit `d`.
fn digit_str(d: u32) -> (s: &'static str)
    requires
        d < 10,
    ensures
        s@ == seq![spec_digit_char(d as int)],
{
    proof {
        reveal_strlit("0");
        reveal_strlit("1");
        reveal_strlit("2");
        reveal_strlit("3");
        reveal_strlit("4");
        reveal_strlit("5");
        reveal_strlit("6");
        reveal_strlit("7");
        reveal_strlit("8");
        reveal_strlit("9");
        assert("0"@ =~= seq!['0']);
        assert("1"@ =~= seq!['1']);
        assert("2"@ =~= seq!['2']);
        assert("3"@ =~= seq!['3']);
        assert("4"@ =~= seq!['4']);
        assert("5"@ =~= seq!['5']);
        assert("6"@ =~= seq!['6']);
        assert("7"@ =~= seq!['7']);
        assert("8"@ =~= seq!['8']);
        assert("9"@ =~= seq!['9']);
    }
    if d == 0 {
        "0"
    } else if d == 1 {
        "1"
    } else if d == 2 {
        "2"
    } else if d == 3 {
        "3"
    } else if d == 4 {
        "4"
    } else if d == 5 {
        "5"
    } else if d == 6 {
        "6"
    } else if d == 7 {
        "7"
    } else if d == 8 {
        "8"
    } else {
        "9"
    }
}

/// `n` written in decimal.
pub fn decimal_string(n: u32) -> (s: String)
    ensures
        s@ == spec_decimal(n as int),
    decreases n,
{
    if n < 10 {
        digit_str(n).to_owned()
    } else {
        let mut s = decimal_string(n / 10);
        s.append(digit_str(n % 10));
        proof {
            assert(s@ =~= spec_decimal(n as int));
        }
        s
    }
}

/// The name of frame `idx`, as the frame table keys it.
pub fn frame_name(idx: u32) -> (s: String)
    ensures
        s@ == spec_frame_name(idx as int),
{
    let mut s: String = "Run (".to_owned();
    proof {
        reveal_strlit("Run (");
        reveal_strlit(").png");
        assert("Run ("@ =~= seq!['R', 'u', 'n', ' ', '(']);
        assert(").png"@ =~= seq![')', '.', 'p', 'n', 'g']);
    }
    let digits = decimal_string(idx);
    s.append(digits.as_str());
    s.append(").png");
    proof {
        assert(s@ =~= spec_frame_name(idx as int));
    }
    s
}

} // verus!
