//! Rendering of unsigned integers as decimal and as pointer-style
//! hexadecimal text, with the exact character sequences pinned down in
//! specification functions.

use vstd::prelude::*;
use vstd::string::*;

verus! {

/// The character for the digit `d`, in lower case for values ten and above.
pub open spec fn digit_char(d: nat) -> char {
    if d == 0 {
        '0'
    } else if d == 1 {
        '1'
    } else if d == 2 {
        '2'
    } else if d == 3 {
        '3'
    } else if d == 4 {
        '4'
    } else if d == 5 {
        '5'
    } else if d == 6 {
        '6'
    } else if d == 7 {
        '7'
    } else if d == 8 {
        '8'
    } else if d == 9 {
        '9'
    } else if d == 10 {
        'a'
    } else if d == 11 {
        'b'
    } else if d == 12 {
        'c'
    } else if d == 13 {
        'd'
    } else if d == 14 {
        'e'
    } else {
        'f'
    }
}

/// The usual decimal rendering of `n`: most significant digit first, no
/// leading zeros, a single `'0'` for zero.
pub open spec fn decimal_chars(n: nat) -> Seq<char>
    decreases n,
{
    if n < 10 {
        seq![digit_char(n)]
    } else {
        decimal_chars(n / 10).push(digit_char(n % 10))
    }
}

/// The lower-case hexadecimal rendering of `n`: most significant digit
/// first, no leading zeros, a single `'0'` for zero.
pub open spec fn hex_chars(n: nat) -> Seq<char>
    decreases n,
{
    if n < 16 {
        seq![digit_char(n)]
    } else {
        hex_chars(n / 16).push(digit_char(n % 16))
    }
}

/// The pointer-style rendering of an address, as the host formats raw
/// pointers: `0x` followed by the lower-case hexadecimal digits.
pub open spec fn pointer_chars(n: nat) -> Seq<char> {
    seq!['0', 'x'] + hex_chars(n)
}

/// True of the characters that may appear in a lower-case hexadecimal
/// rendering.
pub open spec fn is_hex_digit_char(c: char) -> bool {
    ('0' <= c && c <= '9') || ('a' <= c && c <= 'f')
}

/// A hexadecimal rendering is never empty and consists of hexadecimal
/// digits alone, so a pointer rendering is always `0x` followed by at
/// least one hexadecimal digit.
pub proof fn lemma_hex_chars_well_formed(n: nat)
    ensures
        hex_chars(n).len() >= 1,
        forall|i: int| 0 <= i < hex_chars(n).len() ==> is_hex_digit_char(#[trigger] hex_chars(n)[i]),
    decreases n,
{
    if n < 16 {
    } else {
        lemma_hex_chars_well_formed(n / 16);
    }
}

/// The one-character text for the digit `d`.
fn digit_str(d: u8) -> (r: &'static str)
    requires
        d < 16,
    ensures
        r@ == seq![digit_char(d as nat)],
{
    proof {
        reveal_strlit("0");
        reveal_strlit("1");
        reveal_strlit("2");
        reveal_strlit("3");
        reveal_strlit("4");
        reveal_strlit("5");
        reveal_strlit("6");
        reveal_strlit("7");
        reveal_strlit("8");
        reveal_strlit("9");
        reveal_strlit("a");
        reveal_strlit("b");
        reveal_strlit("c");
        reveal_strlit("d");
        reveal_strlit("e");
        reveal_strlit("f");
    }
    let r: &'static str = match d {
        0 => "0",
        1 => "1",
        2 => "2",
        3 => "3",
        4 => "4",
        5 => "5",
        6 => "6",
        7 => "7",
        8 => "8",
        9 => "9",
        10 => "a",
        11 => "b",
        12 => "c",
        13 => "d",
        14 => "e",
        _ => "f",
    };
    proof {
        assert(r@ =~= seq![digit_char(d as nat)]);
    }
    r
}

/// Renders `n` in decimal, as the host's default integer formatting does.
pub fn format_decimal(n: usize) -> (s: String)
    ensures
        s@ == decimal_chars(n as nat),
    decreases n,
{
    if n < 10 {
        String::from_str(digit_str(n as u8))
    } else {
        let mut s = format_decimal(n / 10);
        s.append(digit_str((n % 10) as u8));
        proof {
            assert(decimal_chars(n as nat) =~= decimal_chars((n as nat) / 10) + seq![
                digit_char((n as nat) % 10),
            ]);
        }
        s
    }
}

/// Renders `n` in lower-case hexadecimal.
pub fn format_hex(n: usize) -> (s: String)
    ensures
        s@ == hex_chars(n as nat),
    decreases n,
{
    if n < 16 {
        String::from_str(digit_str(n as u8))
    } else {
        let mut s = format_hex(n / 16);
        s.append(digit_str((n % 16) as u8));
        proof {
            assert(hex_chars(n as nat) =~= hex_chars((n as nat) / 16) + seq![
                digit_char((n as nat) % 16),
            ]);
        }
        s
    }
}

/// Renders an address the way the host formats raw pointers: `0x` followed
/// by its lower-case hexadecimal digits.
pub fn format_pointer(addr: usize) -> (s: String)
    ensures
        s@ == pointer_chars(addr as nat),
{
    let mut s = String::from_str("0x");
    let h = format_hex(addr);
    s.append(h.as_str());
    proof {
        reveal_strlit("0x");
        assert(s@ =~= pointer_chars(addr as nat));
    }
    s
}

} // verus!
