//! Device identity derivation: the trailing six bytes of a vendor
//! payload, rendered in reverse order as colon-separated upper-case
//! hex pairs.

use vstd::prelude::*;
use vstd::string::StringExecFns;

verus! {

/// The shortest payload that can hold a device identity.
pub const MIN_IDENTITY_LEN: usize = 8;

/// The upper-case hex character of one digit value below 16.
pub open spec fn spec_hex_digit(n: u8) -> char
    recommends
        n < 16,
{
    if n == 0 {
        '0'
    } else if n == 1 {
        '1'
    } else if n == 2 {
        '2'
    } else if n == 3 {
        '3'
    } else if n == 4 {
        '4'
    } else if n == 5 {
        '5'
    } else if n == 6 {
        '6'
    } else if n == 7 {
        '7'
    } else if n == 8 {
        '8'
    } else if n == 9 {
        '9'
    } else if n == 10 {
        'A'
    } else if n == 11 {
        'B'
    } else if n == 12 {
        'C'
    } else if n == 13 {
        'D'
    } else if n == 14 {
        'E'
    } else {
        'F'
    }
}

/// The two upper-case hex characters of one byte.
pub open spec fn spec_byte_hex(b: u8) -> Seq<char> {
    seq![spec_hex_digit(b / 16), spec_hex_digit(b % 16)]
}

/// The canonical identity of a payload: its last six bytes, last byte
/// first, as six two-digit upper-case hex groups joined by colons.
pub open spec fn spec_identity(data: Seq<u8>) -> Seq<char>
    recommends
        data.len() >= 6,
{
    let n = data.len() as int;
    spec_byte_hex(data[n - 1]) + seq![':'] + spec_byte_hex(data[n - 2]) + seq![':'] + spec_byte_hex(
        data[n - 3],
    ) + seq![':'] + spec_byte_hex(data[n - 4]) + seq![':'] + spec_byte_hex(data[n - 5]) + seq![':']
        + spec_byte_hex(data[n - 6])
}

/// The string slice holding the upper-case hex character of one digit
/// value below 16.
fn hex_digit_str(n: u8) -> (r: &'static str)
    requires
        n < 16,
    ensures
        r@ == seq![spec_hex_digit(n)],
{
    match n {
        0 => {
            proof {
                reveal_strlit("0");
                assert("0"@ =~= seq![spec_hex_digit(0)]);
            }
            "0"
        },
        1 => {
            proof {
                reveal_strlit("1");
                assert("1"@ =~= seq![spec_hex_digit(1)]);
            }
            "1"
        },
        2 => {
            proof {
                reveal_strlit("2");
                assert("2"@ =~= seq![spec_hex_digit(2)]);
            }
            "2"
        },
        3 => {
            proof {
                reveal_strlit("3");
                assert("3"@ =~= seq![spec_hex_digit(3)]);
            }
            "3"
        },
        4 => {
            proof {
                reveal_strlit("4");
                assert("4"@ =~= seq![spec_hex_digit(4)]);
            }
            "4"
        },
        5 => {
            proof {
                reveal_strlit("5");
                assert("5"@ =~= seq![spec_hex_digit(5)]);
            }
            "5"
        },
        6 => {
            proof {
                reveal_strlit("6");
                assert("6"@ =~= seq![spec_hex_digit(6)]);
            }
            "6"
        },
        7 => {
            proof {
                reveal_strlit("7");
                assert("7"@ =~= seq![spec_hex_digit(7)]);
            }
            "7"
        },
        8 => {
            proof {
                reveal_strlit("8");
                assert("8"@ =~= seq![spec_hex_digit(8)]);
            }
            "8"
        },
        9 => {
            proof {
                reveal_strlit("9");
                assert("9"@ =~= seq![spec_hex_digit(9)]);
            }
            "9"
        },
        10 => {
            proof {
                reveal_strlit("A");
                assert("A"@ =~= seq![spec_hex_digit(10)]);
            }
            "A"
        },
        11 => {
            proof {
                reveal_strlit("B");
                assert("B"@ =~= seq![spec_hex_digit(11)]);
            }
            "B"
        },
        12 => {
            proof {
                reveal_strlit("C");
                assert("C"@ =~= seq![spec_hex_digit(12)]);
            }
            "C"
        },
        13 => {
            proof {
                reveal_strlit("D");
                assert("D"@ =~= seq![spec_hex_digit(13)]);
            }
            "D"
        },
        14 => {
            proof {
                reveal_strlit("E");
                assert("E"@ =~= seq![spec_hex_digit(14)]);
            }
            "E"
        },
        _ => {
            proof {
                reveal_strlit("F");
                assert("F"@ =~= seq![spec_hex_digit(15)]);
            }
            "F"
        },
    }
}

/// Append the two upper-case hex characters of `b` to `s`.
fn push_byte_hex(s: &mut String, b: u8)
    ensures
        final(s)@ == old(s)@ + spec_byte_hex(b),
{
    let hi = b / 16;
    let lo = b % 16;
    s.append(hex_digit_str(hi));
    s.append(hex_digit_str(lo));
    proof {
        assert(s@ =~= old(s)@ + spec_byte_hex(b));
    }
}

/// Append one colon to `s`.
fn push_colon(s: &mut String)
    ensures
        final(s)@ == old(s)@ + seq![':'],
{
    s.append(":");
    proof {
        reveal_strlit(":");
        assert(s@ =~= old(s)@ + seq![':']);
    }
}

/// Derive the canonical device identity from the trailing six bytes of
/// a payload. A payload shorter than eight bytes holds no identity and
/// yields nothing; a value is never fabricated from insufficient data.
pub fn extract_identity(data: &[u8]) -> (r: Option<String>)
    ensures
        data@.len() < 8 ==> r is None,
        data@.len() >= 8 ==> (r matches Some(s) && s@ == spec_identity(data@)),
{
    if data.len() < MIN_IDENTITY_LEN {
        return None;
    }
    let n = data.len();
    let mut s = String::new();
    push_byte_hex(&mut s, data[n - 1]);
    push_colon(&mut s);
    push_byte_hex(&mut s, data[n - 2]);
    push_colon(&mut s);
    push_byte_hex(&mut s, data[n - 3]);
    push_colon(&mut s);
    push_byte_hex(&mut s, data[n - 4]);
    push_colon(&mut s);
    push_byte_hex(&mut s, data[n - 5]);
    push_colon(&mut s);
    push_byte_hex(&mut s, data[n - 6]);
    proof {
        assert(s@ =~= spec_identity(data@));
    }
    Some(s)
}

} // verus!
