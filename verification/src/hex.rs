//! Lower-case hexadecimal rendering of integers and byte strings, used for
//! invitation tokens and for the fixed-width expiry field of signed session
//! payloads.

use vstd::prelude::*;

verus! {

/// Appends one character to a string; relies on `String::push` of std,
/// which appends the given char to the end of the string.
pub assume_specification[ String::push ](s: &mut String, ch: char)
    ensures
        final(s)@ == old(s)@.push(ch),
;

/// The lower-case hexadecimal digit for a nibble value in `0..16`.
pub open spec fn hex_digit_char(d: nat) -> char {
    if d == 0 {
        '0'
    } else if d == 1 {
        '1'
    } else if d == 2 {
        '2'
    } else if d == 3 {
        '3'
    } else if d == 4 {
        '4'
    } else if d == 5 {
        '5'
    } else if d == 6 {
        '6'
    } else if d == 7 {
        '7'
    } else if d == 8 {
        '8'
    } else if d == 9 {
        '9'
    } else if d == 10 {
        'a'
    } else if d == 11 {
        'b'
    } else if d == 12 {
        'c'
    } else if d == 13 {
        'd'
    } else if d == 14 {
        'e'
    } else {
        'f'
    }
}

/// `v` written as exactly `n` lower-case hexadecimal digits, most
/// significant digit first; only the `n` low nibbles of `v` are used.
pub open spec fn hex_digits(v: nat, n: nat) -> Seq<char>
    decreases n,
{
    if n == 0 {
        Seq::empty()
    } else {
        hex_digits(v / 16, (n - 1) as nat).push(hex_digit_char(v % 16))
    }
}

/// A byte string written as two lower-case hexadecimal digits per byte.
pub open spec fn bytes_hex(bs: Seq<u8>) -> Seq<char>
    decreases bs.len(),
{
    if bs.len() == 0 {
        Seq::empty()
    } else {
        bytes_hex(bs.drop_last()) + hex_digits(bs.last() as nat, 2)
    }
}

/// Sixteen to the power `n`.
pub open spec fn pow16(n: nat) -> nat
    decreases n,
{
    if n == 0 {
        1
    } else {
        16 * pow16((n - 1) as nat)
    }
}

/// `hex_digits` renders exactly `n` characters.
pub proof fn lemma_hex_digits_len(v: nat, n: nat)
    ensures
        hex_digits(v, n).len() == n,
    decreases n,
{
    if n > 0 {
        lemma_hex_digits_len(v / 16, (n - 1) as nat);
    }
}

/// `bytes_hex` renders exactly two characters per byte.
pub proof fn lemma_bytes_hex_len(bs: Seq<u8>)
    ensures
        bytes_hex(bs).len() == 2 * bs.len(),
    decreases bs.len(),
{
    if bs.len() > 0 {
        lemma_bytes_hex_len(bs.drop_last());
        lemma_hex_digits_len(bs.last() as nat, 2);
    }
}

/// Distinct nibble values render as distinct digit characters.
pub proof fn lemma_hex_digit_char_injective(a: nat, b: nat)
    requires
        a < 16,
        b < 16,
        hex_digit_char(a) == hex_digit_char(b),
    ensures
        a == b,
{
}

/// Fixed-width hexadecimal rendering is injective: two values below
/// `16^n` with the same `n`-digit rendering are equal.
pub proof fn lemma_hex_digits_injective(a: nat, b: nat, n: nat)
    requires
        a < pow16(n),
        b < pow16(n),
        hex_digits(a, n) == hex_digits(b, n),
    ensures
        a == b,
    decreases n,
{
    if n == 0 {
        assert(pow16(0) == 1);
    } else {
        lemma_hex_digits_len(a / 16, (n - 1) as nat);
        lemma_hex_digits_len(b / 16, (n - 1) as nat);
        assert(hex_digits(a, n).last() == hex_digit_char(a % 16));
        assert(hex_digits(b, n).last() == hex_digit_char(b % 16));
        lemma_hex_digit_char_injective(a % 16, b % 16);
        assert(hex_digits(a, n).drop_last() =~= hex_digits(a / 16, (n - 1) as nat));
        assert(hex_digits(b, n).drop_last() =~= hex_digits(b / 16, (n - 1) as nat));
        assert(a / 16 < pow16((n - 1) as nat)) by (nonlinear_arith)
            requires
                a < pow16(n),
                pow16(n) == 16 * pow16((n - 1) as nat),
        {}
        assert(b / 16 < pow16((n - 1) as nat)) by (nonlinear_arith)
            requires
                b < pow16(n),
                pow16(n) == 16 * pow16((n - 1) as nat),
        {}
        lemma_hex_digits_injective(a / 16, b / 16, (n - 1) as nat);
        vstd::arithmetic::div_mod::lemma_fundamental_div_mod(a as int, 16);
        vstd::arithmetic::div_mod::lemma_fundamental_div_mod(b as int, 16);
    }
}

/// Every value of a 64-bit word lies below `16^16`.
pub proof fn lemma_pow16_16()
    ensures
        pow16(16) == 0x1_0000_0000_0000_0000,
{
    assert(pow16(0) == 1);
    assert(pow16(1) == 16);
    assert(pow16(2) == 0x100);
    assert(pow16(3) == 0x1000);
    assert(pow16(4) == 0x1_0000);
    assert(pow16(5) == 0x10_0000);
    assert(pow16(6) == 0x100_0000);
    assert(pow16(7) == 0x1000_0000);
    assert(pow16(8) == 0x1_0000_0000);
    assert(pow16(9) == 0x10_0000_0000);
    assert(pow16(10) == 0x100_0000_0000);
    assert(pow16(11) == 0x1000_0000_0000);
    assert(pow16(12) == 0x1_0000_0000_0000);
    assert(pow16(13) == 0x10_0000_0000_0000);
    assert(pow16(14) == 0x100_0000_0000_0000);
    assert(pow16(15) == 0x1000_0000_0000_0000);
    assert(pow16(16) == 0x1_0000_0000_0000_0000);
}

/// The executable form of `hex_digit_char`.
fn hex_digit(d: u8) -> (c: char)
    requires
        d < 16,
    ensures
        c == hex_digit_char(d as nat),
{
    match d {
        0 => '0',
        1 => '1',
        2 => '2',
        3 => '3',
        4 => '4',
        5 => '5',
        6 => '6',
        7 => '7',
        8 => '8',
        9 => '9',
        10 => 'a',
        11 => 'b',
        12 => 'c',
        13 => 'd',
        14 => 'e',
        _ => 'f',
    }
}

/// Appends the `n`-digit hexadecimal form of `v` to `s`.
pub fn push_hex(s: &mut String, v: u64, n: usize)
    ensures
        final(s)@ == old(s)@ + hex_digits(v as nat, n as nat),
    decreases n,
{
    if n > 0 {
        push_hex(s, v / 16, n - 1);
        let d = (v % 16) as u8;
        s.push(hex_digit(d));
        proof {
            assert(s@ =~= old(s)@ + hex_digits(v as nat, n as nat));
        }
    } else {
        proof {
            assert(s@ =~= old(s)@ + hex_digits(v as nat, 0));
        }
    }
}

/// The bytes of `bs`, written as two lower-case hexadecimal digits each.
pub fn bytes_to_hex(bs: &Vec<u8>) -> (r: String)
    ensures
        r@ == bytes_hex(bs@),
{
    let mut r = String::new();
    let mut i: usize = 0;
    while i < bs.len()
        invariant
            i <= bs.len(),
            r@ == bytes_hex(bs@.take(i as int)),
        decreases bs.len() - i,
    {
        push_hex(&mut r, bs[i] as u64, 2);
        proof {
            assert(bs@.take(i as int + 1).drop_last() =~= bs@.take(i as int));
            assert(bs@.take(i as int + 1).last() == bs@[i as int]);
        }
        i += 1;
    }
    proof {
        assert(bs@.take(bs@.len() as int) =~= bs@);
    }
    r
}

} // verus!
