//! Binary numbers with 53 significant bits: the numbers in which a machine
//! holds a quotient in double precision. They are stated here over whole
//! numbers, so that what is computed with them can be said exactly.

use crate::number::{round_ratio, rounded_ratio};
use vstd::arithmetic::power2::{lemma2_to64, lemma_pow2_pos, lemma_pow2_unfold, pow2};
use vstd::prelude::*;

verus! {

/// The least whole number with 53 significant bits.
pub const LEAST_MANTISSA: u128 = 0x10_0000_0000_0000;

/// The least whole number with more than 53 significant bits.
pub const MANTISSA_LIMIT: u128 = 0x20_0000_0000_0000;

/// `n` rounded to a multiple of `unit`, or of the first power of two times
/// `unit` at which it has no more than 53 significant bits. Rounding goes
/// to the nearest multiple, and from halfway to the even one.
pub open spec fn rounded_at(n: nat, unit: nat) -> nat
    decreases
        (if unit > 0 && n >= MANTISSA_LIMIT * unit {
            n - MANTISSA_LIMIT * unit + 1
        } else {
            0
        }),
{
    if unit > 0 && n >= MANTISSA_LIMIT * unit {
        rounded_at(n, 2 * unit)
    } else {
        rounded_ratio(n, unit) * unit
    }
}

/// The binary number nearest to the whole number `n`. Numbers below two to
/// the 53rd are binary numbers themselves.
pub open spec fn nearest_binary(n: nat) -> nat {
    rounded_at(n, 1)
}

/// A hundred times a number of 53 significant bits, rounded to 53
/// significant bits again.
pub open spec fn hundredfold(mantissa: nat) -> nat {
    if 100 * mantissa < 0x800_0000_0000_0000 {
        rounded_ratio(100 * mantissa, 64) * 64
    } else {
        rounded_ratio(100 * mantissa, 128) * 128
    }
}

/// The percentage that a machine computes for `num` of `den`, as a
/// fraction: the quotient of the two is rounded to the nearest binary
/// number, that is multiplied by a hundred, and the product is rounded to
/// the nearest binary number again. The second part of the pair divides
/// the first.
pub open spec fn binary_percent(num: nat, den: nat) -> (nat, nat)
    decreases
        (if 0 < num < LEAST_MANTISSA * den {
            LEAST_MANTISSA * den - num
        } else {
            0
        }) + (if den > 0 && num >= MANTISSA_LIMIT * den {
            num - MANTISSA_LIMIT * den + 1
        } else {
            0
        }),
{
    if num == 0 || den == 0 {
        (0, 1)
    } else if num < LEAST_MANTISSA * den {
        let r = binary_percent(2 * num, den);
        (r.0, 2 * r.1)
    } else if num >= MANTISSA_LIMIT * den {
        let r = binary_percent(num, 2 * den);
        (2 * r.0, r.1)
    } else {
        (hundredfold(rounded_ratio(num, den)), 1)
    }
}

/// A whole number below two to the 53rd is a binary number.
pub proof fn lemma_small_is_binary(n: nat)
    requires
        n < MANTISSA_LIMIT,
    ensures
        nearest_binary(n) == n,
{
}

/// The percentage of a small part is that of the part taken two to the
/// `k`-th times, divided by as much. With the right `k` the part so taken
/// has 53 significant bits in units of `den`, and its percentage is found
/// in one step.
pub proof fn lemma_percent_up(num: nat, den: nat, k: nat)
    requires
        num > 0,
        den > 0,
        k == 0 || pow2((k - 1) as nat) * num < LEAST_MANTISSA * den,
    ensures
        binary_percent(num, den) == (
            binary_percent(pow2(k) * num, den).0,
            pow2(k) * binary_percent(pow2(k) * num, den).1,
        ),
    decreases k,
{
    lemma_pow2_pos(k);
    if k == 0 {
        lemma2_to64();
        assert(pow2(0) * num == num) by (nonlinear_arith)
            requires
                pow2(0) == 1,
        ;
        assert(pow2(0) * binary_percent(num, den).1 == binary_percent(num, den).1)
            by (nonlinear_arith)
            requires
                pow2(0) == 1,
        ;
    } else {
        let h = pow2((k - 1) as nat);
        lemma_pow2_pos((k - 1) as nat);
        lemma_pow2_unfold(k);
        assert(num < LEAST_MANTISSA * den) by (nonlinear_arith)
            requires
                h * num < LEAST_MANTISSA * den,
                h >= 1,
                num > 0,
        ;
        if k > 1 {
            lemma_pow2_unfold((k - 1) as nat);
            assert(pow2((k - 2) as nat) * (2 * num) == h * num) by (nonlinear_arith)
                requires
                    h == 2 * pow2((k - 2) as nat),
            ;
        }
        lemma_percent_up(2 * num, den, (k - 1) as nat);
        assert(h * (2 * num) == pow2(k) * num) by (nonlinear_arith)
            requires
                pow2(k) == 2 * h,
        ;
        let b = binary_percent(pow2(k) * num, den);
        assert(2 * (h * b.1) == pow2(k) * b.1) by (nonlinear_arith)
            requires
                pow2(k) == 2 * h,
        ;
    }
}

/// The percentage of a large part is that of the part in units of two to
/// the `k`-th times `den`, times as much.
pub proof fn lemma_percent_down(num: nat, den: nat, k: nat)
    requires
        den > 0,
        k == 0 || num >= MANTISSA_LIMIT * (pow2((k - 1) as nat) * den),
    ensures
        binary_percent(num, den) == (
            pow2(k) * binary_percent(num, pow2(k) * den).0,
            binary_percent(num, pow2(k) * den).1,
        ),
    decreases k,
{
    lemma_pow2_pos(k);
    if k == 0 {
        lemma2_to64();
        assert(pow2(0) * den == den) by (nonlinear_arith)
            requires
                pow2(0) == 1,
        ;
        assert(pow2(0) * binary_percent(num, den).0 == binary_percent(num, den).0)
            by (nonlinear_arith)
            requires
                pow2(0) == 1,
        ;
    } else {
        let h = pow2((k - 1) as nat);
        lemma_pow2_pos((k - 1) as nat);
        lemma_pow2_unfold(k);
        assert(num >= MANTISSA_LIMIT * den && num > 0) by (nonlinear_arith)
            requires
                num >= MANTISSA_LIMIT * (h * den),
                h >= 1,
                den > 0,
        ;
        if k > 1 {
            lemma_pow2_unfold((k - 1) as nat);
            assert(pow2((k - 2) as nat) * (2 * den) == h * den) by (nonlinear_arith)
                requires
                    h == 2 * pow2((k - 2) as nat),
            ;
        }
        lemma_percent_down(num, 2 * den, (k - 1) as nat);
        assert(h * (2 * den) == pow2(k) * den) by (nonlinear_arith)
            requires
                pow2(k) == 2 * h,
        ;
        let b = binary_percent(num, pow2(k) * den);
        assert(2 * (h * b.0) == pow2(k) * b.0) by (nonlinear_arith)
            requires
                pow2(k) == 2 * h,
        ;
    }
}

/// The percentage of a part that has 53 significant bits in units of
/// `den`: a hundred times the rounded quotient, rounded again.
pub proof fn lemma_percent_at_scale(num: nat, den: nat)
    requires
        den > 0,
        LEAST_MANTISSA * den <= num < MANTISSA_LIMIT * den,
    ensures
        binary_percent(num, den) == (hundredfold(rounded_ratio(num, den)), 1nat),
{
}

proof fn lemma_ratio_bounds(num: nat, den: nat)
    requires
        den > 0,
    ensures
        rounded_ratio(num, den) * den <= num + den,
        rounded_ratio(num, den) <= num / den + 1,
        (num / den) * den <= num,
{
    vstd::arithmetic::div_mod::lemma_fundamental_div_mod(num as int, den as int);
    assert((num / den) * den == den * (num / den)) by (nonlinear_arith);
    assert((num / den + 1) * den == (num / den) * den + den) by (nonlinear_arith);
    let q = rounded_ratio(num, den);
    if q == num / den + 1 {
    } else {
        assert(q == num / den);
    }
}

/// `n` rounded at `unit`.
fn round_at(n: u128, unit: u128) -> (r: u128)
    requires
        n <= 0x2_0000_0000_0000_0000,
        1 <= unit <= 0x2000,
    ensures
        r == rounded_at(n as nat, unit as nat),
        r <= n + 0x2000,
    decreases
        (if n >= MANTISSA_LIMIT * unit {
            n - MANTISSA_LIMIT * unit + 1
        } else {
            0
        }),
{
    if n >= MANTISSA_LIMIT * unit {
        round_at(n, 2 * unit)
    } else {
        proof {
            lemma_ratio_bounds(n as nat, unit as nat);
        }
        round_ratio(n, unit) * unit
    }
}

/// The binary number nearest to `n`.
pub(crate) fn to_binary(n: u128) -> (r: u128)
    requires
        n <= 0x2_0000_0000_0000_0000,
    ensures
        r == nearest_binary(n as nat),
        r <= n + 0x2000,
{
    round_at(n, 1)
}

/// A hundred times `mantissa`, rounded to 53 significant bits.
fn times_hundred(mantissa: u128) -> (r: u128)
    requires
        mantissa <= MANTISSA_LIMIT,
    ensures
        r == hundredfold(mantissa as nat),
        r <= 100 * mantissa + 128,
{
    let x = 100 * mantissa;
    if x < 0x800_0000_0000_0000 {
        proof {
            lemma_ratio_bounds(x as nat, 64);
        }
        round_ratio(x, 64) * 64
    } else {
        proof {
            lemma_ratio_bounds(x as nat, 128);
        }
        round_ratio(x, 128) * 128
    }
}

/// The percentage that a machine computes for `num` of `den`, as a
/// fraction.
pub(crate) fn percent_parts(num: u128, den: u128) -> (r: (u128, u128))
    requires
        1 <= den <= 0x4_0000_0000_0000_0000,
        num <= 0x4_0000_0000_0000_0000 || num < MANTISSA_LIMIT * den,
    ensures
        (r.0 as nat, r.1 as nat) == binary_percent(num as nat, den as nat),
        r.1 >= 1,
        0 < num < MANTISSA_LIMIT * den ==> r.0 <= 0x2000_0000_0000_0000 && r.1 * num
            <= MANTISSA_LIMIT * den,
        num >= LEAST_MANTISSA * den ==> r.1 == 1 && r.0 * den <= 512 * num,
    decreases
        (if 0 < num < LEAST_MANTISSA * den {
            LEAST_MANTISSA * den - num
        } else {
            0
        }) + (if num >= MANTISSA_LIMIT * den {
            num - MANTISSA_LIMIT * den + 1
        } else {
            0
        }),
{
    if num == 0 {
        (0, 1)
    } else if num < LEAST_MANTISSA * den {
        let c = percent_parts(2 * num, den);
        assert(c.1 * num <= LEAST_MANTISSA * den && 2 * c.1 * num <= MANTISSA_LIMIT * den
            && c.1 <= LEAST_MANTISSA * den) by (nonlinear_arith)
            requires
                c.1 * (2 * num) <= MANTISSA_LIMIT * den,
                num >= 1,
                c.1 >= 1,
        ;
        (c.0, 2 * c.1)
    } else if num >= MANTISSA_LIMIT * den {
        let c = percent_parts(num, 2 * den);
        assert(c.0 <= 256 * num && 2 * c.0 * den <= 512 * num) by (nonlinear_arith)
            requires
                c.0 * (2 * den) <= 512 * num,
                den >= 1,
        ;
        (2 * c.0, 1)
    } else {
        proof {
            lemma_ratio_bounds(num as nat, den as nat);
            assert(num / den < MANTISSA_LIMIT) by (nonlinear_arith)
                requires
                    num < MANTISSA_LIMIT * den,
                    den >= 1,
                    (num / den) * den <= num,
            ;
        }
        let m = round_ratio(num, den);
        let h = times_hundred(m);
        assert(h * den <= 512 * num) by (nonlinear_arith)
            requires
                h <= 100 * m + 128,
                m * den <= num + den,
                den <= num,
                den >= 1,
        ;
        (h, 1)
    }
}

} // verus!
