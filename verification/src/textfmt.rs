//! Building the free-text part of error messages: decimal numbers and
//! hex-encoded byte strings, appended to a `String`.

use vstd::prelude::*;

verus! {

/// Relies on `String::push`: appends exactly the given character.
#[verifier::external_body]
pub fn push_char(s: &mut String, c: char)
    ensures
        final(s)@ == old(s)@.push(c),
{
    s.push(c);
}

/// The character standing for one digit value, decimal or hex.
pub open spec fn spec_digit_char(d: int) -> char {
    if d == 0 {
        '0'
    } else if d == 1 {
        '1'
    } else if d == 2 {
        '2'
    } else if d == 3 {
        '3'
    } else if d == 4 {
        '4'
    } else if d == 5 {
        '5'
    } else if d == 6 {
        '6'
    } else if d == 7 {
        '7'
    } else if d == 8 {
        '8'
    } else if d == 9 {
        '9'
    } else if d == 10 {
        'a'
    } else if d == 11 {
        'b'
    } else if d == 12 {
        'c'
    } else if d == 13 {
        'd'
    } else if d == 14 {
        'e'
    } else {
        'f'
    }
}

/// Decimal text of a non-negative integer, most significant digit first.
pub open spec fn spec_dec(n: int) -> Seq<char>
    decreases n,
{
    if n < 10 {
        seq![spec_digit_char(n)]
    } else {
        spec_dec(n / 10).push(spec_digit_char(n % 10))
    }
}

/// Hex text of the first `n` bytes, two lower-case digits per byte.
pub open spec fn spec_hex_upto(bytes: Seq<u8>, n: int) -> Seq<char>
    decreases n,
{
    if n <= 0 {
        Seq::empty()
    } else {
        spec_hex_upto(bytes, n - 1).push(spec_digit_char(bytes[n - 1] as int / 16)).push(
            spec_digit_char(bytes[n - 1] as int % 16),
        )
    }
}

/// Hex text of a whole byte string.
pub open spec fn spec_hex(bytes: Seq<u8>) -> Seq<char> {
    spec_hex_upto(bytes, bytes.len() as int)
}

/// Append the character for one digit value.
pub fn push_digit(s: &mut String, d: u8)
    requires
        d < 16,
    ensures
        final(s)@ == old(s)@.push(spec_digit_char(d as int)),
{
    if d == 0 {
        push_char(s, '0');
    } else if d == 1 {
        push_char(s, '1');
    } else if d == 2 {
        push_char(s, '2');
    } else if d == 3 {
        push_char(s, '3');
    } else if d == 4 {
        push_char(s, '4');
    } else if d == 5 {
        push_char(s, '5');
    } else if d == 6 {
        push_char(s, '6');
    } else if d == 7 {
        push_char(s, '7');
    } else if d == 8 {
        push_char(s, '8');
    } else if d == 9 {
        push_char(s, '9');
    } else if d == 10 {
        push_char(s, 'a');
    } else if d == 11 {
        push_char(s, 'b');
    } else if d == 12 {
        push_char(s, 'c');
    } else if d == 13 {
        push_char(s, 'd');
    } else if d == 14 {
        push_char(s, 'e');
    } else {
        push_char(s, 'f');
    }
}

/// Append the decimal text of `n`.
pub fn push_dec_u64(s: &mut String, n: u64)
    ensures
        final(s)@ == old(s)@ + spec_dec(n as int),
    decreases n,
{
    if n >= 10 {
        push_dec_u64(s, n / 10);
        push_digit(s, (n % 10) as u8);
        proof {
            assert(s@ =~= old(s)@ + spec_dec(n as int));
        }
    } else {
        push_digit(s, n as u8);
        proof {
            assert(s@ =~= old(s)@ + spec_dec(n as int));
        }
    }
}

/// Append the hex text of a byte string.
pub fn push_hex(s: &mut String, bytes: &Vec<u8>)
    ensures
        final(s)@ == old(s)@ + spec_hex(bytes@),
{
    proof {
        assert(s@ =~= old(s)@ + spec_hex_upto(bytes@, 0));
    }
    let n = bytes.len();
    let mut i: usize = 0;
    while i < n
        invariant
            i <= n,
            n == bytes@.len(),
            s@ == old(s)@ + spec_hex_upto(bytes@, i as int),
        decreases n - i,
    {
        let b = bytes[i];
        push_digit(s, b / 16);
        push_digit(s, b % 16);
        i = i + 1;
        proof {
            assert(s@ =~= old(s)@ + spec_hex_upto(bytes@, i as int));
        }
    }
}

} // verus!
