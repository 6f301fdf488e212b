//! Text helpers: UTF-8 decoding and integer formatting, with their contracts.

use vstd::prelude::*;
use vstd::utf8::{decode_utf8, valid_utf8};

verus! {

/// The ASCII digit character for `d` (`d < 16`, upper-case for 10..15).
pub open spec fn digit_char(d: nat) -> char {
    if d < 10 {
        (48 + d) as char
    } else {
        (55 + d) as char
    }
}

/// The decimal representation of `n`, most significant digit first, no leading zeros.
pub open spec fn decimal(n: nat) -> Seq<char>
    decreases n,
{
    if n < 10 {
        seq![digit_char(n)]
    } else {
        decimal(n / 10).push(digit_char(n % 10))
    }
}

/// The upper-case hexadecimal representation of `n`, no leading zeros.
pub open spec fn hex_upper(n: nat) -> Seq<char>
    decreases n,
{
    if n < 16 {
        seq![digit_char(n)]
    } else {
        hex_upper(n / 16).push(digit_char(n % 16))
    }
}

/// `s` left-padded with `'0'` to at least `width` characters.
pub open spec fn zero_pad(s: Seq<char>, width: nat) -> Seq<char> {
    if s.len() >= width {
        s
    } else {
        Seq::new((width - s.len()) as nat, |i: int| '0') + s
    }
}

/// Decodes `bytes` as UTF-8 with `std::str::from_utf8`.
/// Claims: the result is present exactly when the bytes are well-formed UTF-8, and then it holds
/// the decoded characters (`vstd::utf8` states both).
#[verifier::external_body]
pub(crate) fn str_from_utf8(bytes: &[u8]) -> (r: Option<&str>)
    ensures
        r is Some <==> valid_utf8(bytes@),
        r matches Some(s) ==> s@ == decode_utf8(bytes@),
{
    std::str::from_utf8(bytes).ok()
}

/// The one-character text of the digit `d` (`d < 16`).
fn digit_str(d: u64) -> (s: &'static str)
    requires
        d < 16,
    ensures
        s@ =~= seq![digit_char(d as nat)],
{
    match d {
        0 => {
            proof {
                reveal_strlit("0");
            }
            "0"
        },
        1 => {
            proof {
                reveal_strlit("1");
            }
            "1"
        },
        2 => {
            proof {
                reveal_strlit("2");
            }
            "2"
        },
        3 => {
            proof {
                reveal_strlit("3");
            }
            "3"
        },
        4 => {
            proof {
                reveal_strlit("4");
            }
            "4"
        },
        5 => {
            proof {
                reveal_strlit("5");
            }
            "5"
        },
        6 => {
            proof {
                reveal_strlit("6");
            }
            "6"
        },
        7 => {
            proof {
                reveal_strlit("7");
            }
            "7"
        },
        8 => {
            proof {
                reveal_strlit("8");
            }
            "8"
        },
        9 => {
            proof {
                reveal_strlit("9");
            }
            "9"
        },
        10 => {
            proof {
                reveal_strlit("A");
            }
            "A"
        },
        11 => {
            proof {
                reveal_strlit("B");
            }
            "B"
        },
        12 => {
            proof {
                reveal_strlit("C");
            }
            "C"
        },
        13 => {
            proof {
                reveal_strlit("D");
            }
            "D"
        },
        14 => {
            proof {
                reveal_strlit("E");
            }
            "E"
        },
        15 => {
            proof {
                reveal_strlit("F");
            }
            "F"
        },
        _ => {
            proof {
                reveal_strlit("F");
            }
            "F"
        },
    }
}

/// `n` in decimal: its digits, most significant first, with no sign and no leading zeros.
pub(crate) fn u64_to_decimal(n: u64) -> (s: String)
    ensures
        s@ == decimal(n as nat),
    decreases n,
{
    if n < 10 {
        owned(digit_str(n))
    } else {
        let high = u64_to_decimal(n / 10);
        let r = concat(high, digit_str(n % 10));
        assert(r@ =~= decimal((n / 10) as nat).push(digit_char((n % 10) as nat)));
        r
    }
}

/// `n` in upper-case hexadecimal with no leading zeros.
fn u64_to_hex(n: u64) -> (s: String)
    ensures
        s@ == hex_upper(n as nat),
    decreases n,
{
    if n < 16 {
        owned(digit_str(n))
    } else {
        let high = u64_to_hex(n / 16);
        let r = concat(high, digit_str(n % 16));
        assert(r@ =~= hex_upper((n / 16) as nat).push(digit_char((n % 16) as nat)));
        r
    }
}

/// The hexadecimal text of `n` has 1 digit below 16, 2 below 256, 3 below 4096, and at
/// least 4 from there on.
proof fn lemma_hex_len(n: nat)
    ensures
        n < 16 ==> hex_upper(n).len() == 1,
        16 <= n < 256 ==> hex_upper(n).len() == 2,
        256 <= n < 4096 ==> hex_upper(n).len() == 3,
        4096 <= n ==> hex_upper(n).len() >= 4,
    decreases n,
{
    if n >= 16 {
        lemma_hex_len(n / 16);
    }
}

/// `n` in upper-case hexadecimal, zero-padded to at least four digits (as `{:04X}` prints it).
pub(crate) fn u32_to_hex4(n: u32) -> (s: String)
    ensures
        s@ == zero_pad(hex_upper(n as nat), 4),
{
    let digits = u64_to_hex(n as u64);
    proof {
        lemma_hex_len(n as nat);
    }
    let pad: &str = if n < 0x10 {
        proof {
            reveal_strlit("000");
        }
        "000"
    } else if n < 0x100 {
        proof {
            reveal_strlit("00");
        }
        "00"
    } else if n < 0x1000 {
        proof {
            reveal_strlit("0");
        }
        "0"
    } else {
        proof {
            reveal_strlit("");
        }
        ""
    };
    let r = concat(owned(pad), digits.as_str());
    assert(r@ =~= zero_pad(hex_upper(n as nat), 4));
    r
}

/// The decimal text of an integer: a minus sign before the digits of a negative one.
pub open spec fn int_text(x: int) -> Seq<char> {
    if x < 0 {
        "-"@ + decimal((-x) as nat)
    } else {
        decimal(x as nat)
    }
}

/// `x` in decimal, with a minus sign when it is negative.
pub(crate) fn i64_to_decimal(x: i64) -> (s: String)
    ensures
        s@ == int_text(x as int),
{
    if x < 0 {
        let magnitude = (0i128 - x as i128) as u64;
        let r = concat(owned("-"), u64_to_decimal(magnitude).as_str());
        r
    } else {
        u64_to_decimal(x as u64)
    }
}

/// Formats a string with std's `Debug` for `str` (quoted and escaped).
/// Claims only that the text is a function of the characters, named `str_debug_text`;
/// the escaping rules are left unsaid.
#[verifier::external_body]
pub(crate) fn str_debug(s: &str) -> (r: String)
    ensures
        r@ == str_debug_text(s@),
{
    format!("{:?}", s)
}

/// The text that std's `Debug` for `str` gives for the characters `s`.
pub uninterp spec fn str_debug_text(s: Seq<char>) -> Seq<char>;

/// Copies a string slice into an owned `String`.
pub(crate) fn owned(s: &str) -> (r: String)
    ensures
        r@ == s@,
{
    String::from_str(s)
}

/// Concatenates two strings.
pub(crate) fn concat(a: String, b: &str) -> (r: String)
    ensures
        r@ == a@ + b@,
{
    let mut a = a;
    a.append(b);
    a
}

} // verus!
