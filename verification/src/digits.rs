//! Textual rendering of numbers: plain decimal, zero-padded decimal, and
//! fixed-width hexadecimal.

use vstd::prelude::*;

verus! {

/// The character for one decimal digit.
pub open spec fn dec_digit(n: int) -> char {
    if n == 0 {
        '0'
    } else if n == 1 {
        '1'
    } else if n == 2 {
        '2'
    } else if n == 3 {
        '3'
    } else if n == 4 {
        '4'
    } else if n == 5 {
        '5'
    } else if n == 6 {
        '6'
    } else if n == 7 {
        '7'
    } else if n == 8 {
        '8'
    } else {
        '9'
    }
}

/// The decimal digits of a non-negative number, most significant first.
pub open spec fn dec_digits(n: int) -> Seq<char>
    decreases n,
{
    if n < 10 {
        seq![dec_digit(n)]
    } else {
        dec_digits(n / 10) + seq![dec_digit(n % 10)]
    }
}

/// The character for one hexadecimal digit.
pub open spec fn hex_digit(n: int) -> char {
    if n < 10 {
        dec_digit(n)
    } else if n == 10 {
        'a'
    } else if n == 11 {
        'b'
    } else if n == 12 {
        'c'
    } else if n == 13 {
        'd'
    } else if n == 14 {
        'e'
    } else {
        'f'
    }
}

/// The low `w` hexadecimal digits of a number, most significant first.
pub open spec fn hex_digits(n: int, w: int) -> Seq<char>
    decreases w,
{
    if w <= 0 {
        Seq::empty()
    } else {
        hex_digits(n / 16, w - 1) + seq![hex_digit(n % 16)]
    }
}

/// A run of `n` zero characters (empty when `n` is negative).
pub open spec fn zeros(n: int) -> Seq<char> {
    Seq::new(if n < 0 {
        0
    } else {
        n as nat
    }, |i: int| '0')
}

/// A decimal number padded with zeros on the left to at least four places.
pub open spec fn dec_padded4(n: int) -> Seq<char> {
    zeros(4 - dec_digits(n).len()) + dec_digits(n)
}

fn dec_digit_exec(n: u64) -> (r: char)
    requires
        n < 10,
    ensures
        r == dec_digit(n as int),
{
    match n {
        0 => '0',
        1 => '1',
        2 => '2',
        3 => '3',
        4 => '4',
        5 => '5',
        6 => '6',
        7 => '7',
        8 => '8',
        _ => '9',
    }
}

fn hex_digit_exec(n: u64) -> (r: char)
    requires
        n < 16,
    ensures
        r == hex_digit(n as int),
{
    if n < 10 {
        dec_digit_exec(n)
    } else {
        match n {
            10 => 'a',
            11 => 'b',
            12 => 'c',
            13 => 'd',
            14 => 'e',
            _ => 'f',
        }
    }
}

/// Appends the decimal digits of `n`.
pub fn push_dec(out: &mut Vec<char>, n: u64)
    ensures
        final(out)@ == old(out)@ + dec_digits(n as int),
    decreases n,
{
    if n < 10 {
        out.push(dec_digit_exec(n));
        proof {
            assert(old(out)@ + dec_digits(n as int) =~= old(out)@.push(dec_digit(n as int)));
        }
    } else {
        push_dec(out, n / 10);
        out.push(dec_digit_exec(n % 10));
        proof {
            assert(old(out)@ + dec_digits(n as int) =~= (old(out)@ + dec_digits(n as int / 10)).push(
                dec_digit(n as int % 10),
            ));
        }
    }
}

/// How many decimal digits small numbers have.
proof fn lemma_dec_digits_len(n: int)
    requires
        0 <= n,
    ensures
        n < 10 ==> dec_digits(n).len() == 1,
        10 <= n < 100 ==> dec_digits(n).len() == 2,
        100 <= n < 1000 ==> dec_digits(n).len() == 3,
        1000 <= n ==> dec_digits(n).len() >= 4,
    decreases n,
{
    if n >= 10 {
        lemma_dec_digits_len(n / 10);
    }
}

/// Appends the decimal digits of `n`, padded with zeros on the left to at
/// least four places.
pub fn push_dec_padded4(out: &mut Vec<char>, n: u64)
    ensures
        final(out)@ == old(out)@ + dec_padded4(n as int),
{
    proof {
        lemma_dec_digits_len(n as int);
    }
    if n < 10 {
        out.push('0');
        out.push('0');
        out.push('0');
    } else if n < 100 {
        out.push('0');
        out.push('0');
    } else if n < 1000 {
        out.push('0');
    }
    push_dec(out, n);
    proof {
        assert(old(out)@ + dec_padded4(n as int) =~= final(out)@);
    }
}

/// Appends the low `w` hexadecimal digits of `n`, most significant first.
pub fn push_hex(out: &mut Vec<char>, n: u64, w: u64)
    ensures
        final(out)@ == old(out)@ + hex_digits(n as int, w as int),
    decreases w,
{
    if w == 0 {
        proof {
            assert(old(out)@ + hex_digits(n as int, 0) =~= old(out)@);
        }
    } else {
        push_hex(out, n / 16, w - 1);
        out.push(hex_digit_exec(n % 16));
        proof {
            assert(old(out)@ + hex_digits(n as int, w as int) =~= (old(out)@ + hex_digits(
                n as int / 16,
                w as int - 1,
            )).push(hex_digit(n as int % 16)));
        }
    }
}

} // verus!
