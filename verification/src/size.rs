//! Human-readable rendering of a byte count.
//!
//! A size is shown in bytes below 1024, and otherwise scaled by 1024 into
//! KB, MB, GB or TB, rounded to two decimal places when the scaled value is
//! not whole, with the exact byte count repeated in parentheses. The scaled
//! value is the one a 64-bit count takes after conversion to a
//! double-precision float: at most 53 significant binary digits, rounded to
//! nearest with ties to even, and the two-decimal display rounds the same
//! way. Both roundings are modelled here exactly, over the integers.

use vstd::prelude::*;
use vstd::arithmetic::power2::{
    pow2, lemma2_to64, lemma2_to64_rest, lemma_pow2_unfold, lemma_pow2_strictly_increases,
    lemma_pow2_pos, lemma_pow2_adds,
};
use vstd::arithmetic::div_mod::{
    lemma_fundamental_div_mod, lemma_div_is_ordered, lemma_div_is_ordered_by_denominator,
    lemma_div_multiples_vanish,
};
use crate::numfmt::{digit_char, dec_digits, u64_to_dec, digit_str};

verus! {

/// Number of binary digits of `n`; zero for zero.
pub open spec fn bit_len(n: nat) -> nat
    decreases n,
{
    if n == 0 {
        0
    } else {
        1 + bit_len(n / 2)
    }
}

/// `n` rounded to at most 53 significant binary digits, to nearest, ties to
/// the even multiple: the value a 64-bit unsigned count takes when converted
/// to a double-precision float.
pub open spec fn round_53(n: nat) -> nat {
    if bit_len(n) <= 53 {
        n
    } else {
        let p = pow2((bit_len(n) - 53) as nat);
        let q = n / p;
        let r = n % p;
        if r > p / 2 || (r == p / 2 && q % 2 == 1) {
            (q + 1) * p
        } else {
            q * p
        }
    }
}

/// How many times the displayed value is divided by 1024: 0 for bytes,
/// 1 for KB, up to 4 for TB, never more.
pub open spec fn unit_index(v: nat) -> nat {
    if v >= pow2(40) {
        4
    } else if v >= pow2(30) {
        3
    } else if v >= pow2(20) {
        2
    } else if v >= pow2(10) {
        1
    } else {
        0
    }
}

/// The unit name for a given index.
pub open spec fn unit_label(u: nat) -> Seq<char> {
    if u == 1 {
        "KB"@
    } else if u == 2 {
        "MB"@
    } else if u == 3 {
        "GB"@
    } else {
        "TB"@
    }
}

/// One hundred times `v / pow2(10 * u)`, rounded to the nearest integer with
/// ties to even: the two-decimal display of the scaled value.
pub open spec fn scaled_hundredths(v: nat, u: nat) -> nat {
    let den = pow2(10 * u);
    let q = 100 * v / den;
    let r = (100 * v) % den;
    if r > den / 2 || (r == den / 2 && q % 2 == 1) {
        q + 1
    } else {
        q
    }
}

/// The full rendering of a byte count `n`.
pub open spec fn spec_format_size(n: nat) -> Seq<char> {
    let v = round_53(n);
    let u = unit_index(v);
    if u == 0 {
        dec_digits(n) + " bytes"@
    } else {
        let den = pow2(10 * u);
        let scaled = if v % den == 0 {
            dec_digits(v / den)
        } else {
            let d = scaled_hundredths(v, u);
            dec_digits(d / 100) + "."@ + seq![digit_char(d % 100 / 10), digit_char(d % 10)]
        };
        scaled + " "@ + unit_label(u) + " ("@ + dec_digits(n) + " bytes)"@
    }
}

/// `n` lies below `pow2(bit_len(n))`, and at or above `pow2(bit_len(n) - 1)`
/// when it is not zero.
proof fn lemma_bit_len_bounds(n: nat)
    ensures
        n < pow2(bit_len(n)),
        n > 0 ==> pow2((bit_len(n) - 1) as nat) <= n,
    decreases n,
{
    if n == 0 {
        lemma2_to64();
    } else {
        lemma_bit_len_bounds(n / 2);
        lemma_pow2_unfold(bit_len(n));
        if n / 2 > 0 {
            lemma_pow2_unfold((bit_len(n) - 1) as nat);
        } else {
            lemma2_to64();
        }
    }
}

/// Binary digit count, executable.
fn bit_len_exec(n: u64) -> (l: u64)
    ensures
        l as nat == bit_len(n as nat),
        l <= 64,
{
    let mut t: u64 = n;
    let mut l: u64 = 0;
    proof {
        lemma_bit_len_bounds(n as nat);
        lemma2_to64();
        assert(bit_len(0) == 0);
        if bit_len(n as nat) > 64 {
            if bit_len(n as nat) - 1 > 64 {
                lemma_pow2_strictly_increases(64, (bit_len(n as nat) - 1) as nat);
            }
            assert(false);
        }
    }
    while t > 0
        invariant
            bit_len(n as nat) == l + bit_len(t as nat),
            l + bit_len(t as nat) <= 64,
        decreases t,
    {
        t = t / 2;
        l = l + 1;
    }
    l
}

/// `pow2`, executable, for small exponents.
fn pow2_exec(e: u64) -> (p: u64)
    requires
        e <= 63,
    ensures
        p as nat == pow2(e as nat),
{
    let mut p: u64 = 1;
    let mut i: u64 = 0;
    proof {
        lemma2_to64();
    }
    while i < e
        invariant
            i <= e,
            e <= 63,
            p as nat == pow2(i as nat),
        decreases e - i,
    {
        proof {
            lemma_pow2_unfold((i + 1) as nat);
            lemma_pow2_strictly_increases((i + 1) as nat, 64);
            lemma2_to64();
        }
        p = p * 2;
        i = i + 1;
    }
    p
}

/// Rounding to 53 significant binary digits, executable. The result is at
/// most `pow2(64)`, hence the wider return type.
fn round_53_exec(n: u64) -> (v: u128)
    ensures
        v as nat == round_53(n as nat),
        v as nat <= pow2(64),
{
    proof {
        lemma_bit_len_bounds(n as nat);
        lemma2_to64();
    }
    let l = bit_len_exec(n);
    if l <= 53 {
        proof {
            lemma_pow2_strictly_increases(53, 64);
        }
        n as u128
    } else {
        let sh = l - 53;
        let p = pow2_exec(sh);
        let q = n / p;
        let r = n % p;
        let h = p / 2;
        let bump: u64 = if r > h || (r == h && q % 2 == 1) {
            1
        } else {
            0
        };
        proof {
            lemma_pow2_pos(sh as nat);
            lemma_fundamental_div_mod(n as int, p as int);
            lemma_pow2_adds(53, sh as nat);
            // n < pow2(l) == pow2(53) * p, so q == n / p stays under pow2(53)
            assert(q as nat + 1 <= pow2(53)) by {
                if q as nat >= pow2(53) {
                    assert(q as nat * p as nat >= pow2(53) * p as nat) by (nonlinear_arith)
                        requires
                            q as nat >= pow2(53),
                            p as nat > 0,
                    ;
                    assert(n as nat >= q as nat * p as nat);
                    assert(false);
                }
            }
            assert((q as nat + bump as nat) * p as nat <= pow2(53) * p as nat) by (nonlinear_arith)
                requires
                    q as nat + bump as nat <= pow2(53),
                    p as nat > 0,
            ;
            assert(pow2(53) * p as nat == pow2(l as nat));
            if (l as nat) < 64 {
                lemma_pow2_strictly_increases(l as nat, 64);
            }
            assert(pow2(l as nat) <= pow2(64));
            lemma2_to64();
        }
        (q as u128 + bump as u128) * (p as u128)
    }
}

/// The unit name, executable.
fn unit_str(u: u64) -> (r: &'static str)
    requires
        1 <= u <= 4,
    ensures
        r@ == unit_label(u as nat),
{
    if u == 1 {
        "KB"
    } else if u == 2 {
        "MB"
    } else if u == 3 {
        "GB"
    } else {
        "TB"
    }
}

/// Renders a byte count the way the report shows it: `0` → `0 bytes`,
/// `1536` → `1.50 KB (1536 bytes)`, `1048576` → `1 MB (1048576 bytes)`.
pub fn format_size(size_bytes: u64) -> (r: String)
    ensures
        r@ == spec_format_size(size_bytes as nat),
{
    let ghost gn = size_bytes as nat;
    let v = round_53_exec(size_bytes);
    proof {
        lemma2_to64();
        lemma2_to64_rest();
    }
    let u: u64 = if v >= 1099511627776 {
        4
    } else if v >= 1073741824 {
        3
    } else if v >= 1048576 {
        2
    } else if v >= 1024 {
        1
    } else {
        0
    };
    assert(u as nat == unit_index(round_53(gn)));
    if u == 0 {
        let mut s = u64_to_dec(size_bytes);
        s.append(" bytes");
        assert(s@ =~= spec_format_size(gn));
        s
    } else {
        let den: u128 = if u == 1 {
            1024
        } else if u == 2 {
            1048576
        } else if u == 3 {
            1073741824
        } else {
            1099511627776
        };
        assert(den as nat == pow2((10 * u) as nat));
        proof {
            lemma_pow2_pos((10 * u) as nat);
            // v / den fits in 64 bits: v <= pow2(64) and den >= 1024
            lemma_div_is_ordered(v as int, pow2(64) as int, den as int);
            lemma_div_is_ordered_by_denominator(pow2(64) as int, 1024, den as int);
            assert(pow2(64) as int / 1024 == pow2(54) as int) by {
                lemma_pow2_adds(54, 10);
                lemma_div_multiples_vanish(pow2(54) as int, 1024);
            }
            lemma_pow2_strictly_increases(54, 64);
        }
        let mut s: String;
        if v % den == 0 {
            let w = v / den;
            s = u64_to_dec(w as u64);
        } else {
            let num: u128 = 100 * v;
            let q = num / den;
            let rm = num % den;
            let h = den / 2;
            let d: u128 = if rm > h || (rm == h && q % 2 == 1) {
                q + 1
            } else {
                q
            };
            proof {
                // d fits in 64 bits: num <= 100 * pow2(64) and den >= 1024,
                // so q <= 100 * pow2(54) < pow2(64)
                lemma_div_is_ordered(num as int, 100 * pow2(64) as int, den as int);
                lemma_div_is_ordered_by_denominator(100 * pow2(64) as int, 1024, den as int);
                assert((100 * pow2(64) as int) / 1024 == 100 * pow2(54) as int) by {
                    lemma_pow2_adds(54, 10);
                    lemma_div_multiples_vanish(100 * pow2(54) as int, 1024);
                }
                assert(100 * pow2(54) as int + 1 < pow2(64) as int) by {
                    lemma_pow2_adds(54, 7);
                    lemma_pow2_strictly_increases(61, 64);
                }
            }
            assert(d as nat == scaled_hundredths(round_53(gn), u as nat));
            let d64 = d as u64;
            s = u64_to_dec(d64 / 100);
            s.append(".");
            s.append(digit_str(((d64 % 100) / 10) as u8));
            s.append(digit_str((d64 % 10) as u8));
        }
        s.append(" ");
        let lbl = unit_str(u);
        s.append(lbl);
        s.append(" (");
        let exact = u64_to_dec(size_bytes);
        s.append(exact.as_str());
        s.append(" bytes)");
        assert(s@ =~= spec_format_size(gn));
        s
    }
}

} // verus!
