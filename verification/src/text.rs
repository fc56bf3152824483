use vstd::prelude::*;
use vstd::string::StringExecFns;

verus! {

/// The character that writes the digit `d` in bases up to sixteen, upper case.
pub open spec fn digit_char(d: int) -> char {
    if d == 0 {
        '0'
    } else if d == 1 {
        '1'
    } else if d == 2 {
        '2'
    } else if d == 3 {
        '3'
    } else if d == 4 {
        '4'
    } else if d == 5 {
        '5'
    } else if d == 6 {
        '6'
    } else if d == 7 {
        '7'
    } else if d == 8 {
        '8'
    } else if d == 9 {
        '9'
    } else if d == 10 {
        'A'
    } else if d == 11 {
        'B'
    } else if d == 12 {
        'C'
    } else if d == 13 {
        'D'
    } else if d == 14 {
        'E'
    } else {
        'F'
    }
}

/// `n` in decimal, most significant digit first, without leading zeros.
pub open spec fn decimal(n: nat) -> Seq<char>
    decreases n,
{
    if n < 10 {
        seq![digit_char(n as int)]
    } else {
        decimal(n / 10).push(digit_char((n % 10) as int))
    }
}

/// `n` in decimal, padded with zeros on the left to at least three digits.
pub open spec fn decimal_padded3(n: nat) -> Seq<char> {
    if n < 10 {
        seq!['0', '0'] + decimal(n)
    } else if n < 100 {
        seq!['0'] + decimal(n)
    } else {
        decimal(n)
    }
}

/// The bit of `byte` whose place value is `weight`, as 0 or 1.
pub open spec fn bit_of(byte: u8, weight: int) -> int {
    (byte as int / weight) % 2
}

/// The eight bits of `byte`, most significant first, as two groups of four
/// separated by one space.
pub open spec fn binary_nibbles(byte: u8) -> Seq<char> {
    seq![
        digit_char(bit_of(byte, 128)),
        digit_char(bit_of(byte, 64)),
        digit_char(bit_of(byte, 32)),
        digit_char(bit_of(byte, 16)),
        ' ',
        digit_char(bit_of(byte, 8)),
        digit_char(bit_of(byte, 4)),
        digit_char(bit_of(byte, 2)),
        digit_char(bit_of(byte, 1)),
    ]
}

/// `byte` as exactly two upper-case hexadecimal digits.
pub open spec fn hex_pair(byte: u8) -> Seq<char> {
    seq![digit_char(byte as int / 16), digit_char(byte as int % 16)]
}

/// Appends the single digit `d` to `out`.
pub fn push_digit(out: &mut String, d: u8)
    requires
        d < 16,
    ensures
        final(out)@ == old(out)@.push(digit_char(d as int)),
{
    let glyph: &str = match d {
        0 => "0",
        1 => "1",
        2 => "2",
        3 => "3",
        4 => "4",
        5 => "5",
        6 => "6",
        7 => "7",
        8 => "8",
        9 => "9",
        10 => "A",
        11 => "B",
        12 => "C",
        13 => "D",
        14 => "E",
        _ => "F",
    };
    proof {
        reveal_strlit("0");
        reveal_strlit("1");
        reveal_strlit("2");
        reveal_strlit("3");
        reveal_strlit("4");
        reveal_strlit("5");
        reveal_strlit("6");
        reveal_strlit("7");
        reveal_strlit("8");
        reveal_strlit("9");
        reveal_strlit("A");
        reveal_strlit("B");
        reveal_strlit("C");
        reveal_strlit("D");
        reveal_strlit("E");
        reveal_strlit("F");
        assert(glyph@ =~= seq![digit_char(d as int)]);
    }
    out.append(glyph);
    assert(out@ =~= old(out)@.push(digit_char(d as int)));
}

/// Appends `n` in decimal to `out`.
pub fn push_decimal(out: &mut String, n: usize)
    ensures
        final(out)@ == old(out)@ + decimal(n as nat),
    decreases n,
{
    if n >= 10 {
        push_decimal(out, n / 10);
    }
    let low: usize = n % 10;
    push_digit(out, low as u8);
    assert(out@ =~= old(out)@ + decimal(n as nat));
}

/// Appends `n` in decimal to `out`, at least three digits wide.
pub fn push_decimal_padded3(out: &mut String, n: usize)
    ensures
        final(out)@ == old(out)@ + decimal_padded3(n as nat),
{
    if n < 100 {
        push_digit(out, 0);
    }
    if n < 10 {
        push_digit(out, 0);
    }
    push_decimal(out, n);
    assert(out@ =~= old(out)@ + decimal_padded3(n as nat));
}

} // verus!
