//! Verified decimal formatting for the counts and sizes that views print.
use vstd::prelude::*;

verus! {

/// The character for a single decimal digit.
pub open spec fn dec_digit(d: int) -> char {
    if d == 0 {
        '0'
    } else if d == 1 {
        '1'
    } else if d == 2 {
        '2'
    } else if d == 3 {
        '3'
    } else if d == 4 {
        '4'
    } else if d == 5 {
        '5'
    } else if d == 6 {
        '6'
    } else if d == 7 {
        '7'
    } else if d == 8 {
        '8'
    } else {
        '9'
    }
}

/// The usual decimal rendering of a natural number, most significant
/// digit first, without leading zeroes (except for zero itself).
pub open spec fn dec_of(n: nat) -> Seq<char>
    decreases n,
{
    if n < 10 {
        seq![dec_digit(n as int)]
    } else {
        dec_of(n / 10) + seq![dec_digit((n % 10) as int)]
    }
}

fn digit_str(d: u64) -> (r: &'static str)
    requires
        d < 10,
    ensures
        r@ == seq![dec_digit(d as int)],
{
    match d {
        0 => {
            proof {
                reveal_strlit("0");
                assert("0"@ =~= seq![dec_digit(0int)]);
            }
            "0"
        },
        1 => {
            proof {
                reveal_strlit("1");
                assert("1"@ =~= seq![dec_digit(1int)]);
            }
            "1"
        },
        2 => {
            proof {
                reveal_strlit("2");
                assert("2"@ =~= seq![dec_digit(2int)]);
            }
            "2"
        },
        3 => {
            proof {
                reveal_strlit("3");
                assert("3"@ =~= seq![dec_digit(3int)]);
            }
            "3"
        },
        4 => {
            proof {
                reveal_strlit("4");
                assert("4"@ =~= seq![dec_digit(4int)]);
            }
            "4"
        },
        5 => {
            proof {
                reveal_strlit("5");
                assert("5"@ =~= seq![dec_digit(5int)]);
            }
            "5"
        },
        6 => {
            proof {
                reveal_strlit("6");
                assert("6"@ =~= seq![dec_digit(6int)]);
            }
            "6"
        },
        7 => {
            proof {
                reveal_strlit("7");
                assert("7"@ =~= seq![dec_digit(7int)]);
            }
            "7"
        },
        8 => {
            proof {
                reveal_strlit("8");
                assert("8"@ =~= seq![dec_digit(8int)]);
            }
            "8"
        },
        _ => {
            proof {
                reveal_strlit("9");
                assert("9"@ =~= seq![dec_digit(9int)]);
            }
            "9"
        },
    }
}

/// Render a number in plain decimal.
pub fn u64_to_string(n: u64) -> (r: String)
    ensures
        r@ == dec_of(n as nat),
    decreases n,
{
    if n < 10 {
        String::from_str(digit_str(n))
    } else {
        let mut s = u64_to_string(n / 10);
        s.append(digit_str(n % 10));
        s
    }
}

/// The human-readable rendering of a byte count, a function of the
/// count alone.
pub uninterp spec fn friendly_bytes_of(n: u64) -> Seq<char>;

/// The human-readable rendering of a plain count, a function of the
/// count alone.
pub uninterp spec fn friendly_count_of(n: u64) -> Seq<char>;

/// Relies on friendly::bytes: a human-readable size with binary
/// prefixes, computed from the number alone.
#[verifier::external_body]
pub(crate) fn friendly_bytes(n: u64) -> (r: String)
    ensures
        r@ == friendly_bytes_of(n),
{
    format!("{}", friendly::bytes(n))
}

/// Relies on friendly::integer: a human-readable auto-scaled count,
/// computed from the number alone.
#[verifier::external_body]
pub(crate) fn friendly_count(n: u64) -> (r: String)
    ensures
        r@ == friendly_count_of(n),
{
    format!("{}", friendly::integer(n))
}

} // verus!
