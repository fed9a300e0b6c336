//! Lowercase hexadecimal text, as the device protocol and the frame file
//! names use it.

use vstd::prelude::*;

verus! {

/// The ASCII code of the lowercase hexadecimal digit for `d`, where `0 <= d < 16`.
pub open spec fn hex_digit(d: int) -> u8 {
    if d < 10 {
        (0x30 + d) as u8
    } else {
        (0x57 + d) as u8
    }
}

/// The hexadecimal digits of `n`, most significant first, without leading zeros
/// (a single `0` for zero).
pub open spec fn hex_digits(n: nat) -> Seq<u8>
    decreases n,
{
    if n < 16 {
        seq![hex_digit(n as int)]
    } else {
        hex_digits(n / 16).push(hex_digit((n % 16) as int))
    }
}

/// The value of one lowercase hexadecimal digit, if `c` is one.
pub open spec fn hex_value(c: u8) -> Option<int> {
    if 0x30 <= c <= 0x39 {
        Some(c - 0x30)
    } else if 0x61 <= c <= 0x66 {
        Some(c - 0x57)
    } else {
        None
    }
}

/// The number that a non-empty run of lowercase hexadecimal digits denotes.
pub open spec fn parse_hex(s: Seq<u8>) -> Option<nat>
    decreases s.len(),
{
    if s.len() == 0 {
        None
    } else {
        match hex_value(s.last()) {
            None => None,
            Some(v) => if s.len() == 1 {
                Some(v as nat)
            } else {
                match parse_hex(s.drop_last()) {
                    None => None,
                    Some(high) => Some((high * 16 + v) as nat),
                }
            },
        }
    }
}

/// Reading a digit back gives the number it was written for.
pub proof fn lemma_hex_value_of_digit(d: int)
    requires
        0 <= d < 16,
    ensures
        hex_value(hex_digit(d)) == Some(d),
{
}

/// Reading the digits of a number back gives that number.
pub proof fn lemma_parse_hex_digits(n: nat)
    ensures
        hex_digits(n).len() >= 1,
        parse_hex(hex_digits(n)) == Some(n),
    decreases n,
{
    if n < 16 {
        lemma_hex_value_of_digit(n as int);
        assert(hex_digits(n).last() == hex_digit(n as int));
    } else {
        lemma_parse_hex_digits(n / 16);
        lemma_hex_value_of_digit((n % 16) as int);
        let high = hex_digits(n / 16);
        let all = hex_digits(n);
        assert(all.last() == hex_digit((n % 16) as int));
        assert(all.drop_last() =~= high);
    }
}

/// The ASCII code of the hexadecimal digit for `d`.
pub(crate) fn digit(d: u8) -> (c: u8)
    requires
        d < 16,
    ensures
        c == hex_digit(d as int),
{
    if d < 10 {
        0x30 + d
    } else {
        0x57 + d
    }
}

/// Appends the hexadecimal digits of `n` to `out`.
pub fn push_hex(out: &mut Vec<u8>, n: u64)
    ensures
        final(out)@ == old(out)@ + hex_digits(n as nat),
    decreases n,
{
    if n >= 16 {
        push_hex(out, n / 16);
    }
    out.push(digit((n % 16) as u8));
}

/// The four hexadecimal digits of `n`, zero-padded, as text.
pub open spec fn hex4(n: u16) -> Seq<char> {
    seq![
        hex_digit(n as int / 0x1000) as char,
        hex_digit(n as int / 0x100 % 16) as char,
        hex_digit(n as int / 0x10 % 16) as char,
        hex_digit(n as int % 16) as char,
    ]
}

/// The hexadecimal digit for `d` as text.
pub(crate) fn digit_str(d: u8) -> (s: &'static str)
    requires
        d < 16,
    ensures
        s@ == seq![hex_digit(d as int) as char],
{
    proof {
        reveal_strlit("0");
        reveal_strlit("1");
        reveal_strlit("2");
        reveal_strlit("3");
        reveal_strlit("4");
        reveal_strlit("5");
        reveal_strlit("6");
        reveal_strlit("7");
        reveal_strlit("8");
        reveal_strlit("9");
        reveal_strlit("a");
        reveal_strlit("b");
        reveal_strlit("c");
        reveal_strlit("d");
        reveal_strlit("e");
        reveal_strlit("f");
    }
    let s = match d {
        0 => "0",
        1 => "1",
        2 => "2",
        3 => "3",
        4 => "4",
        5 => "5",
        6 => "6",
        7 => "7",
        8 => "8",
        9 => "9",
        10 => "a",
        11 => "b",
        12 => "c",
        13 => "d",
        14 => "e",
        _ => "f",
    };
    assert(s@ =~= seq![hex_digit(d as int) as char]);
    s
}

/// Appends the four zero-padded hexadecimal digits of `n` to `text`.
pub fn append_hex4(text: String, n: u16) -> (r: String)
    ensures
        r@ == text@ + hex4(n),
{
    let r = text.concat(digit_str((n / 0x1000) as u8)).concat(
        digit_str((n / 0x100 % 16) as u8),
    ).concat(digit_str((n / 0x10 % 16) as u8)).concat(digit_str((n % 16) as u8));
    assert(r@ =~= text@ + hex4(n));
    r
}

} // verus!
