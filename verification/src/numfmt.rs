//! Decimal and hexadecimal rendering of unsigned integers and byte strings,
//! with exact character-level specifications.

use vstd::prelude::*;

verus! {

/// The character for a single decimal or hexadecimal digit value.
pub open spec fn digit_char(d: nat) -> char {
    if d == 0 {
        '0'
    } else if d == 1 {
        '1'
    } else if d == 2 {
        '2'
    } else if d == 3 {
        '3'
    } else if d == 4 {
        '4'
    } else if d == 5 {
        '5'
    } else if d == 6 {
        '6'
    } else if d == 7 {
        '7'
    } else if d == 8 {
        '8'
    } else if d == 9 {
        '9'
    } else if d == 10 {
        'a'
    } else if d == 11 {
        'b'
    } else if d == 12 {
        'c'
    } else if d == 13 {
        'd'
    } else if d == 14 {
        'e'
    } else {
        'f'
    }
}

/// The usual decimal rendering of `n`: no leading zeros, and a single `'0'`
/// for zero itself.
pub open spec fn dec_digits(n: nat) -> Seq<char>
    decreases n,
{
    if n < 10 {
        seq![digit_char(n)]
    } else {
        dec_digits(n / 10) + seq![digit_char(n % 10)]
    }
}

/// The digit value `d`, under 16, as a one-character string slice.
pub(crate) fn digit_str(d: u8) -> (r: &'static str)
    requires
        d < 16,
    ensures
        r@ == seq![digit_char(d as nat)],
{
    proof {
        reveal_strlit("0");
        reveal_strlit("1");
        reveal_strlit("2");
        reveal_strlit("3");
        reveal_strlit("4");
        reveal_strlit("5");
        reveal_strlit("6");
        reveal_strlit("7");
        reveal_strlit("8");
        reveal_strlit("9");
        reveal_strlit("a");
        reveal_strlit("b");
        reveal_strlit("c");
        reveal_strlit("d");
        reveal_strlit("e");
        reveal_strlit("f");
    }
    match d {
        0 => "0",
        1 => "1",
        2 => "2",
        3 => "3",
        4 => "4",
        5 => "5",
        6 => "6",
        7 => "7",
        8 => "8",
        9 => "9",
        10 => "a",
        11 => "b",
        12 => "c",
        13 => "d",
        14 => "e",
        _ => "f",
    }
}

/// Renders `n` in decimal.
pub fn u64_to_dec(n: u64) -> (r: String)
    ensures
        r@ == dec_digits(n as nat),
    decreases n,
{
    if n < 10 {
        let s = digit_str(n as u8);
        s.to_owned()
    } else {
        let mut s = u64_to_dec(n / 10);
        s.append(digit_str((n % 10) as u8));
        s
    }
}

/// `digits` hexadecimal characters of `n`, zero-padded, most significant
/// first.
pub open spec fn hex_fixed(n: nat, digits: nat) -> Seq<char>
    decreases digits,
{
    if digits == 0 {
        Seq::empty()
    } else {
        hex_fixed(n / 16, (digits - 1) as nat) + seq![digit_char(n % 16)]
    }
}

/// Lowercase hexadecimal of a byte string, two characters per byte.
pub open spec fn hex_bytes(s: Seq<u8>) -> Seq<char>
    decreases s.len(),
{
    if s.len() == 0 {
        Seq::empty()
    } else {
        hex_bytes(s.drop_last()) + hex_fixed(s.last() as nat, 2)
    }
}

/// A fixed-width rendering has exactly the requested number of characters.
pub proof fn lemma_hex_fixed_len(n: nat, digits: nat)
    ensures
        hex_fixed(n, digits).len() == digits,
    decreases digits,
{
    if digits > 0 {
        lemma_hex_fixed_len(n / 16, (digits - 1) as nat);
    }
}

/// A byte string's rendering has two characters per byte.
pub proof fn lemma_hex_bytes_len(s: Seq<u8>)
    ensures
        hex_bytes(s).len() == 2 * s.len(),
    decreases s.len(),
{
    if s.len() > 0 {
        lemma_hex_bytes_len(s.drop_last());
        lemma_hex_fixed_len(s.last() as nat, 2);
    }
}

fn hex_fixed_u64(n: u64, digits: usize) -> (r: String)
    ensures
        r@ == hex_fixed(n as nat, digits as nat),
    decreases digits,
{
    if digits == 0 {
        String::new()
    } else {
        let mut s = hex_fixed_u64(n / 16, digits - 1);
        s.append(digit_str((n % 16) as u8));
        s
    }
}

/// Renders a 32-bit checksum as eight zero-padded lowercase hexadecimal
/// digits.
pub fn u32_to_hex8(x: u32) -> (r: String)
    ensures
        r@ == hex_fixed(x as nat, 8),
{
    hex_fixed_u64(x as u64, 8)
}

/// Renders a byte string as lowercase hexadecimal, two digits per byte.
pub fn bytes_to_hex(b: &[u8]) -> (r: String)
    ensures
        r@ == hex_bytes(b@),
{
    let mut s = String::new();
    let mut i: usize = 0;
    while i < b.len()
        invariant
            i <= b@.len(),
            s@ == hex_bytes(b@.subrange(0, i as int)),
        decreases b@.len() - i,
    {
        let byte = b[i];
        s.append(digit_str(byte / 16));
        s.append(digit_str(byte % 16));
        proof {
            let pre = b@.subrange(0, i as int);
            let cur = b@.subrange(0, i + 1);
            assert(cur.drop_last() =~= pre);
            assert(cur.last() == b@[i as int]);
            let bn = byte as nat;
            assert(hex_fixed(bn, 2) == hex_fixed(bn / 16, 1) + seq![digit_char(bn % 16)]);
            assert(hex_fixed(bn / 16, 1) == hex_fixed(bn / 16 / 16, 0) + seq![
                digit_char(bn / 16 % 16),
            ]);
            assert(hex_fixed(bn / 16 / 16, 0) == Seq::<char>::empty());
            assert(bn / 16 % 16 == bn / 16);
            assert(hex_fixed(bn, 2) =~= seq![
                digit_char((byte / 16) as nat),
                digit_char((byte % 16) as nat),
            ]);
            assert(s@ =~= hex_bytes(cur));
        }
        i = i + 1;
    }
    proof {
        assert(b@.subrange(0, b@.len() as int) =~= b@);
    }
    s
}

} // verus!
