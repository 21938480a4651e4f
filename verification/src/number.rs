//! Decimal notation for the numbers the probes display.

use vstd::prelude::*;

verus! {

/// The character that stands for a single decimal digit.
pub open spec fn digit(d: nat) -> char {
    if d == 0 {
        '0'
    } else if d == 1 {
        '1'
    } else if d == 2 {
        '2'
    } else if d == 3 {
        '3'
    } else if d == 4 {
        '4'
    } else if d == 5 {
        '5'
    } else if d == 6 {
        '6'
    } else if d == 7 {
        '7'
    } else if d == 8 {
        '8'
    } else {
        '9'
    }
}

/// The decimal notation of `n`, without leading zeros.
pub open spec fn decimal(n: nat) -> Seq<char>
    decreases n,
{
    if n < 10 {
        seq![digit(n)]
    } else {
        decimal(n / 10).push(digit(n % 10))
    }
}

/// `s`, with `fill` put in front of it until it is `width` characters long.
pub open spec fn padded_left(s: Seq<char>, width: nat, fill: char) -> Seq<char> {
    if s.len() >= width {
        s
    } else {
        Seq::new((width - s.len()) as nat, |i: int| fill) + s
    }
}

/// `s`, with `fill` put behind it until it is `width` characters long.
pub open spec fn padded_right(s: Seq<char>, width: nat, fill: char) -> Seq<char> {
    if s.len() >= width {
        s
    } else {
        s + Seq::new((width - s.len()) as nat, |i: int| fill)
    }
}

/// `num / den` rounded to the nearest whole number; a value halfway
/// between two whole numbers goes to the even one.
pub open spec fn rounded_ratio(num: nat, den: nat) -> nat
    recommends
        den > 0,
{
    let q = num / den;
    let r = num % den;
    if 2 * r > den || (2 * r == den && q % 2 == 1) {
        q + 1
    } else {
        q
    }
}

/// The notation, with one decimal place, of `tenths / 10`.
pub open spec fn one_place(tenths: nat) -> Seq<char> {
    decimal(tenths / 10) + seq!['.', digit(tenths % 10)]
}

/// The notation, with two decimal places, of `hundredths / 100`.
pub open spec fn two_places(hundredths: nat) -> Seq<char> {
    decimal(hundredths / 100) + seq!['.', digit((hundredths % 100) / 10), digit(hundredths % 10)]
}

/// A decimal notation is never empty.
pub proof fn lemma_decimal_nonempty(n: nat)
    ensures
        decimal(n).len() > 0,
    decreases n,
{
    if n >= 10 {
        lemma_decimal_nonempty(n / 10);
    }
}

/// A decimal notation holds digits only.
pub proof fn lemma_decimal_digits(n: nat)
    ensures
        forall|i: int| 0 <= i < decimal(n).len() ==> '0' <= #[trigger] decimal(n)[i] <= '9',
    decreases n,
{
    if n >= 10 {
        lemma_decimal_digits(n / 10);
        let front = decimal(n / 10);
        assert forall|i: int| 0 <= i < decimal(n).len() implies '0' <= #[trigger] decimal(n)[i]
            <= '9' by {
            if i < front.len() {
                assert(decimal(n)[i] == front[i]);
            } else {
                assert(decimal(n)[i] == digit(n % 10));
            }
        }
    } else {
        assert(decimal(n)[0] == digit(n));
    }
}

/// The character for the digit `d`.
pub(crate) fn digit_char(d: u8) -> (c: char)
    requires
        d < 10,
    ensures
        c == digit(d as nat),
{
    match d {
        0 => '0',
        1 => '1',
        2 => '2',
        3 => '3',
        4 => '4',
        5 => '5',
        6 => '6',
        7 => '7',
        8 => '8',
        _ => '9',
    }
}

/// The decimal notation of `n`.
pub fn decimal_digits(n: u128) -> (v: Vec<char>)
    ensures
        v@ == decimal(n as nat),
    decreases n,
{
    if n < 10 {
        let mut v: Vec<char> = Vec::new();
        v.push(digit_char(n as u8));
        v
    } else {
        let mut v = decimal_digits(n / 10);
        v.push(digit_char((n % 10) as u8));
        v
    }
}

/// `s` filled up on the left to `width` characters.
pub fn pad_left(s: &Vec<char>, width: usize, fill: char) -> (r: Vec<char>)
    ensures
        r@ == padded_left(s@, width as nat, fill),
{
    let mut r: Vec<char> = Vec::new();
    if s.len() < width {
        let gap: usize = width - s.len();
        let mut i: usize = 0;
        while i < gap
            invariant
                i <= gap,
                r@ == Seq::new(i as nat, |k: int| fill),
            decreases gap - i,
        {
            r.push(fill);
            i += 1;
        }
    }
    crate::text::append(&mut r, s);
    assert(s.len() >= width ==> r@ == s@);
    r
}

/// `s` filled up on the right to `width` characters.
pub fn pad_right(s: &Vec<char>, width: usize, fill: char) -> (r: Vec<char>)
    ensures
        r@ == padded_right(s@, width as nat, fill),
{
    let mut r: Vec<char> = Vec::new();
    crate::text::append(&mut r, s);
    assert(r@ == s@);
    if s.len() < width {
        let gap: usize = width - s.len();
        let mut i: usize = 0;
        while i < gap
            invariant
                i <= gap,
                r@ == s@ + Seq::new(i as nat, |k: int| fill),
            decreases gap - i,
        {
            r.push(fill);
            i += 1;
        }
    }
    r
}

/// `num / den` rounded to the nearest whole number, halves to the even one.
pub(crate) fn round_ratio(num: u128, den: u128) -> (r: u128)
    requires
        den > 0,
    ensures
        r == rounded_ratio(num as nat, den as nat),
{
    let q = num / den;
    let r = num % den;
    if r > den - r || (r == den - r && q % 2 == 1) {
        assert(q < u128::MAX) by (nonlinear_arith)
            requires
                q == num / den,
                r == num % den,
                r > 0,
                den > 0,
                num <= u128::MAX,
        {
            assert(num == den * (num / den) + num % den) by {
                vstd::arithmetic::div_mod::lemma_fundamental_div_mod(num as int, den as int);
            }
        }
        q + 1
    } else {
        q
    }
}

/// The notation of `tenths / 10` with one decimal place.
pub fn one_place_digits(tenths: u128) -> (v: Vec<char>)
    ensures
        v@ == one_place(tenths as nat),
{
    let mut v = decimal_digits(tenths / 10);
    v.push('.');
    v.push(digit_char((tenths % 10) as u8));
    v
}

/// The notation of `hundredths / 100` with two decimal places.
pub fn two_place_digits(hundredths: u128) -> (v: Vec<char>)
    ensures
        v@ == two_places(hundredths as nat),
{
    let mut v = decimal_digits(hundredths / 100);
    v.push('.');
    v.push(digit_char(((hundredths % 100) / 10) as u8));
    v.push(digit_char((hundredths % 10) as u8));
    v
}

} // verus!
