//! Port numbers: decimal parsing and rendering.
//!
//! A worker needs two TCP ports, handed to the supervisor as strings. A
//! string names a port exactly when it is a non-empty run of decimal digits
//! whose value fits in sixteen bits; anything else is a validation error,
//! raised before any side effect.

use vstd::prelude::*;
use vstd::arithmetic::div_mod::lemma_fundamental_div_mod;
use crate::errors::NodeError;

verus! {

/// The character standing for a decimal digit below ten.
pub open spec fn dec_digit(d: nat) -> char {
    if d == 0 {
        '0'
    } else if d == 1 {
        '1'
    } else if d == 2 {
        '2'
    } else if d == 3 {
        '3'
    } else if d == 4 {
        '4'
    } else if d == 5 {
        '5'
    } else if d == 6 {
        '6'
    } else if d == 7 {
        '7'
    } else if d == 8 {
        '8'
    } else {
        '9'
    }
}

/// Decimal representation of a natural number, most significant digit first,
/// without leading zeros (a single zero for the number zero).
pub open spec fn dec_str(n: nat) -> Seq<char>
    decreases n,
{
    if n < 10 {
        seq![dec_digit(n)]
    } else {
        dec_str(n / 10).push(dec_digit(n % 10))
    }
}

pub open spec fn is_dec_digit(c: char) -> bool {
    48 <= c as u32 && c as u32 <= 57
}

/// Numeric value of a digit character; digits only.
pub open spec fn digit_val(c: char) -> nat {
    (c as int - 48) as nat
}

pub open spec fn all_dec_digits(s: Seq<char>) -> bool {
    forall|i: int| 0 <= i < s.len() ==> is_dec_digit(#[trigger] s[i])
}

/// Value of a digit string read left to right.
pub open spec fn digits_val(s: Seq<char>) -> nat
    decreases s.len(),
{
    if s.len() == 0 {
        0
    } else {
        digits_val(s.drop_last()) * 10 + digit_val(s.last())
    }
}

/// A string names a port exactly when it is a non-empty digit run whose
/// value fits in a `u16`.
pub open spec fn is_port_string(s: Seq<char>) -> bool {
    &&& s.len() > 0
    &&& all_dec_digits(s)
    &&& digits_val(s) <= u16::MAX
}

/// A longer prefix of a digit string never has a smaller value.
proof fn lemma_digits_val_prefix_monotonic(s: Seq<char>, i: int, j: int)
    requires
        0 <= i <= j <= s.len(),
    ensures
        digits_val(s.take(i)) <= digits_val(s.take(j)),
    decreases j - i,
{
    if i < j {
        lemma_digits_val_prefix_monotonic(s, i, j - 1);
        assert(s.take(j).drop_last() =~= s.take(j - 1));
        assert(digits_val(s.take(j)) == digits_val(s.take(j - 1)) * 10 + digit_val(s.take(j).last()));
        assert(digits_val(s.take(j - 1)) * 10 >= digits_val(s.take(j - 1)));
    }
}

proof fn lemma_dec_str_value(n: nat)
    ensures
        dec_str(n).len() >= 1,
        all_dec_digits(dec_str(n)),
        digits_val(dec_str(n)) == n,
    decreases n,
{
    if n < 10 {
        let s = dec_str(n);
        assert(is_dec_digit(dec_digit(n)));
        assert(digit_val(dec_digit(n)) == n);
        assert(s.drop_last() =~= Seq::<char>::empty());
        assert(digits_val(s) == digits_val(s.drop_last()) * 10 + digit_val(s.last()));
    } else {
        lemma_dec_str_value(n / 10);
        let s = dec_str(n);
        assert(s.drop_last() =~= dec_str(n / 10));
        assert(s.last() == dec_digit(n % 10));
        assert(is_dec_digit(dec_digit(n % 10)));
        assert(digit_val(dec_digit(n % 10)) == n % 10);
        lemma_fundamental_div_mod(n as int, 10);
        assert forall|i: int| 0 <= i < s.len() implies is_dec_digit(#[trigger] s[i]) by {
            if i < s.len() - 1 {
                assert(s[i] == dec_str(n / 10)[i]);
            }
        }
    }
}

/// Rendering a number and reading the digits back gives the number: the
/// decimal writer and the validator's value function agree, so a rendered
/// port is always accepted as a port string.
pub proof fn lemma_port_round_trip(n: u16)
    ensures
        is_port_string(dec_str(n as nat)),
        digits_val(dec_str(n as nat)) == n as nat,
{
    lemma_dec_str_value(n as nat);
}

/// Parses a decimal port number.
///
/// Returns `Ok` exactly on the strings that name a port, and then returns
/// that port's value; every other input is rejected as `InvalidPortNumber`.
pub fn parse_port(s: &str) -> (r: Result<u16, NodeError>)
    ensures
        r is Ok <==> is_port_string(s@),
        r is Ok ==> r->Ok_0 as nat == digits_val(s@),
        r is Err ==> r == Err::<u16, NodeError>(NodeError::InvalidPortNumber),
{
    let len = s.unicode_len();
    if len == 0 {
        return Err(NodeError::InvalidPortNumber);
    }
    let mut val: u32 = 0;
    let mut i: usize = 0;
    while i < len
        invariant
            0 < len == s@.len(),
            i <= len,
            all_dec_digits(s@.take(i as int)),
            val as nat == digits_val(s@.take(i as int)),
            val <= u16::MAX,
        decreases len - i,
    {
        let c = s.get_char(i);
        let u = c as u32;
        if u < 48 || u > 57 {
            assert(!is_dec_digit(s@[i as int]));
            return Err(NodeError::InvalidPortNumber);
        }
        let next = val * 10 + (u - 48);
        proof {
            assert(s@.take(i + 1).drop_last() =~= s@.take(i as int));
            assert(s@.take(i + 1).last() == s@[i as int]);
            assert(digits_val(s@.take(i + 1)) == next as nat);
        }
        if next > u16::MAX as u32 {
            proof {
                if all_dec_digits(s@) && digits_val(s@) <= u16::MAX {
                    lemma_digits_val_prefix_monotonic(s@, i + 1, s@.len() as int);
                    assert(s@.take(s@.len() as int) =~= s@);
                }
            }
            return Err(NodeError::InvalidPortNumber);
        }
        val = next;
        i += 1;
    }
    proof {
        assert(s@.take(len as int) =~= s@);
    }
    Ok(val as u16)
}

fn digit_char_str(d: u16) -> (r: &'static str)
    requires
        d < 10,
    ensures
        r@ == seq![dec_digit(d as nat)],
{
    proof {
        reveal_strlit("0");
        reveal_strlit("1");
        reveal_strlit("2");
        reveal_strlit("3");
        reveal_strlit("4");
        reveal_strlit("5");
        reveal_strlit("6");
        reveal_strlit("7");
        reveal_strlit("8");
        reveal_strlit("9");
    }
    let r: &'static str = if d == 0 {
        "0"
    } else if d == 1 {
        "1"
    } else if d == 2 {
        "2"
    } else if d == 3 {
        "3"
    } else if d == 4 {
        "4"
    } else if d == 5 {
        "5"
    } else if d == 6 {
        "6"
    } else if d == 7 {
        "7"
    } else if d == 8 {
        "8"
    } else {
        "9"
    };
    proof {
        assert(r@ =~= seq![dec_digit(d as nat)]);
    }
    r
}

/// Renders a port number back to its decimal string.
pub fn port_to_string(n: u16) -> (r: String)
    ensures
        r@ == dec_str(n as nat),
    decreases n,
{
    if n < 10 {
        String::from_str(digit_char_str(n))
    } else {
        let mut s = port_to_string(n / 10);
        s.append(digit_char_str(n % 10));
        proof {
            assert(s@ =~= dec_str((n / 10) as nat).push(dec_digit((n % 10) as nat)));
        }
        s
    }
}

} // verus!
