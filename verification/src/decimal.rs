//! Exact decimal numbers, held as a 96-bit signed mantissa and a power-of-ten
//! scale, and the arithmetic the library needs on them.

use vstd::prelude::*;
use crate::text::digits_of;

verus! {

/// The largest mantissa magnitude a decimal can hold: 2^96 - 1.
pub const MAX_MANTISSA: i128 = 0xFFFF_FFFF_FFFF_FFFF_FFFF_FFFF;

/// The largest scale a decimal can hold.
pub const MAX_SCALE: u32 = 28;

/// A decimal number `mantissa / 10^scale`.
///
/// Two decimals are `==` when they denote the same number, whatever their
/// scales: `1.0` and `1` are equal, as they are for rust_decimal.
#[derive(Debug, Clone, Copy, Eq)]
pub struct Dec {
    mantissa: i128,
    scale: u32,
}

/// Whether a mantissa and a scale are in the range a decimal can hold.
pub open spec fn dec_parts_in_range(mantissa: int, scale: int) -> bool {
    &&& -MAX_MANTISSA <= mantissa <= MAX_MANTISSA
    &&& 0 <= scale <= MAX_SCALE
}

/// The result that rust_decimal's `Decimal::checked_mul` gives for the
/// decimals with these mantissas and scales, as a mantissa and a scale.
pub uninterp spec fn decimal_checked_mul(
    a_mantissa: i128,
    a_scale: u32,
    b_mantissa: i128,
    b_scale: u32,
) -> Option<(i128, u32)>;

/// The result that rust_decimal's `Decimal::checked_add` gives for the
/// decimals with these mantissas and scales, as a mantissa and a scale.
pub uninterp spec fn decimal_checked_add(
    a_mantissa: i128,
    a_scale: u32,
    b_mantissa: i128,
    b_scale: u32,
) -> Option<(i128, u32)>;

impl Dec {
    #[verifier::type_invariant]
    spec fn in_range(self) -> bool {
        dec_parts_in_range(self.mantissa as int, self.scale as int)
    }

    /// The mantissa.
    pub closed spec fn mantissa_spec(self) -> i128 {
        self.mantissa
    }

    /// The scale.
    pub closed spec fn scale_spec(self) -> u32 {
        self.scale
    }

    /// The mantissa and the scale as a pair.
    pub open spec fn parts(self) -> (i128, u32) {
        (self.mantissa_spec(), self.scale_spec())
    }

    /// The decimal `mantissa / 10^scale`, or `None` when the mantissa needs
    /// more than 96 bits or the scale is above 28.
    pub fn from_parts(mantissa: i128, scale: u32) -> (r: Option<Dec>)
        ensures
            r is Some <==> dec_parts_in_range(mantissa as int, scale as int),
            r matches Some(d) ==> d.parts() == (mantissa, scale),
    {
        if scale > MAX_SCALE || mantissa > MAX_MANTISSA || mantissa < -MAX_MANTISSA {
            None
        } else {
            Some(Dec { mantissa, scale })
        }
    }

    /// Zero, with scale 0.
    pub fn zero() -> (d: Dec)
        ensures
            d.parts() == (0i128, 0u32),
    {
        Dec { mantissa: 0, scale: 0 }
    }

    /// The mantissa.
    pub fn mantissa(&self) -> (m: i128)
        ensures
            m == self.mantissa_spec(),
            -MAX_MANTISSA <= m <= MAX_MANTISSA,
    {
        proof {
            use_type_invariant(self);
        }
        self.mantissa
    }

    /// The scale.
    pub fn scale(&self) -> (s: u32)
        ensures
            s == self.scale_spec(),
            s <= MAX_SCALE,
    {
        proof {
            use_type_invariant(self);
        }
        self.scale
    }
}

/// 10 to the power `n`.
pub open spec fn pow10(n: nat) -> nat
    decreases n,
{
    if n == 0 {
        1
    } else {
        10 * pow10((n - 1) as nat)
    }
}

/// Whether `am / 10^asc` and `bm / 10^bsc` are the same number.
pub open spec fn same_value(am: int, asc: nat, bm: int, bsc: nat) -> bool {
    am * pow10(bsc) == bm * pow10(asc)
}

proof fn lemma_pow10_positive(n: nat)
    ensures
        pow10(n) >= 1,
    decreases n,
{
    if n > 0 {
        lemma_pow10_positive((n - 1) as nat);
    }
}

proof fn lemma_pow10_add(a: nat, b: nat)
    ensures
        pow10(a + b) == pow10(a) * pow10(b),
    decreases b,
{
    if b > 0 {
        let c = (b - 1) as nat;
        lemma_pow10_add(a, c);
        assert(pow10(a + b) == 10 * pow10(a + c));
        assert(pow10(b) == 10 * pow10(c));
        assert(10 * (pow10(a) * pow10(c)) == pow10(a) * (10 * pow10(c))) by (nonlinear_arith);
    } else {
        assert(a + b == a);
        assert(pow10(b) == 1);
    }
}

proof fn lemma_cancel(x: int, y: int, p: int)
    requires
        p > 0,
        x * p == y * p,
    ensures
        x == y,
{
    assert(x == y) by (nonlinear_arith)
        requires
            p > 0,
            x * p == y * p,
    ;
}

/// Comparing at the larger scale: `lm / 10^ls` and `hm / 10^hs`, with
/// `ls <= hs`, are the same number exactly when `lm * 10^(hs - ls) == hm`.
proof fn lemma_same_value_at_larger_scale(lm: int, ls: nat, hm: int, hs: nat)
    requires
        ls <= hs,
    ensures
        same_value(lm, ls, hm, hs) <==> lm * pow10((hs - ls) as nat) == hm,
{
    let k = (hs - ls) as nat;
    lemma_pow10_add(ls, k);
    assert(ls + k == hs);
    lemma_pow10_positive(ls);
    assert(lm * (pow10(ls) * pow10(k)) == (lm * pow10(k)) * pow10(ls)) by (nonlinear_arith);
    if same_value(lm, ls, hm, hs) {
        lemma_cancel(lm * pow10(k), hm, pow10(ls) as int);
    }
}

/// `m * p == n`, for a positive `p`, splits into equal signs and equal
/// magnitudes.
proof fn lemma_signed_product(m: int, p: int, n: int)
    requires
        p >= 1,
    ensures
        (m * p == n) <==> ((m < 0) == (n < 0) && (if m < 0 { -m } else { m }) * p == (if n < 0 { -n } else { n })),
{
    if m < 0 {
        assert(m * p < 0) by (nonlinear_arith)
            requires
                m < 0,
                p >= 1,
        ;
        assert((-m) * p == -(m * p)) by (nonlinear_arith);
    } else {
        assert(m * p >= 0) by (nonlinear_arith)
            requires
                m >= 0,
                p >= 1,
        ;
    }
}

/// Whether `m * 10^k == n`, found by dividing `n` by ten `k` times, so that
/// nothing overflows.
fn scaled_magnitude_equals(m: u128, k: u32, n: u128) -> (r: bool)
    ensures
        r == (m * pow10(k as nat) == n),
{
    let mut q: u128 = n;
    let mut i: u32 = 0;
    assert(pow10(0) == 1);
    while i < k
        invariant
            i <= k,
            n == q * pow10(i as nat),
        decreases k - i,
    {
        if q % 10 != 0 {
            proof {
                if m * pow10(k as nat) == n {
                    let j = (k - i) as nat;
                    let j1 = (j - 1) as nat;
                    lemma_pow10_add(i as nat, j);
                    assert(i + j == k);
                    lemma_pow10_positive(i as nat);
                    assert(m * (pow10(i as nat) * pow10(j)) == (m * pow10(j)) * pow10(i as nat)) by (nonlinear_arith);
                    lemma_cancel(m * pow10(j), q as int, pow10(i as nat) as int);
                    assert(pow10(j) == 10 * pow10(j1));
                    assert(m * (10 * pow10(j1)) == (m * pow10(j1)) * 10) by (nonlinear_arith);
                    assert((q as int) % 10 == 0);
                }
            }
            return false;
        }
        proof {
            assert(pow10((i + 1) as nat) == 10 * pow10(i as nat));
            assert(q == (q / 10) * 10);
            assert(q * pow10(i as nat) == (q / 10) * (10 * pow10(i as nat))) by (nonlinear_arith)
                requires
                    q == (q / 10) * 10,
            ;
        }
        q = q / 10;
        i = i + 1;
    }
    proof {
        lemma_pow10_positive(k as nat);
        if m * pow10(k as nat) == n {
            lemma_cancel(m as int, q as int, pow10(k as nat) as int);
        }
    }
    q == m
}

/// The magnitude of a mantissa.
fn magnitude(m: i128) -> (r: u128)
    requires
        -MAX_MANTISSA <= m <= MAX_MANTISSA,
    ensures
        r == (if m < 0 { -m } else { m as int }),
{
    if m < 0 {
        (-m) as u128
    } else {
        m as u128
    }
}

impl PartialEq for Dec {
    fn eq(&self, other: &Dec) -> (r: bool) {
        proof {
            use_type_invariant(self);
            use_type_invariant(other);
        }
        let (low, high) = if self.scale <= other.scale {
            (*self, *other)
        } else {
            (*other, *self)
        };
        proof {
            lemma_same_value_at_larger_scale(
                low.mantissa as int, low.scale as nat, high.mantissa as int, high.scale as nat);
            lemma_pow10_positive((high.scale - low.scale) as nat);
            lemma_signed_product(
                low.mantissa as int, pow10((high.scale - low.scale) as nat) as int, high.mantissa as int);
        }
        if (low.mantissa < 0) != (high.mantissa < 0) {
            return false;
        }
        scaled_magnitude_equals(magnitude(low.mantissa), high.scale - low.scale, magnitude(high.mantissa))
    }
}

impl vstd::std_specs::cmp::PartialEqSpecImpl for Dec {
    open spec fn obeys_eq_spec() -> bool {
        true
    }

    open spec fn eq_spec(&self, other: &Dec) -> bool {
        same_value(
            self.mantissa_spec() as int,
            self.scale_spec() as nat,
            other.mantissa_spec() as int,
            other.scale_spec() as nat,
        )
    }
}

impl core::hash::Hash for Dec {
    /// Hashes the number as rust_decimal's `Hash` for `Decimal` does, which
    /// gives equal numbers at different scales the same hash.
    #[verifier::external_body]
    fn hash<H: core::hash::Hasher>(&self, state: &mut H) {
        core::hash::Hash::hash(&rust_decimal::Decimal::from_i128_with_scale(self.mantissa, self.scale), state)
    }
}

/// The parts of an optional decimal.
pub open spec fn opt_parts(d: Option<Dec>) -> Option<(i128, u32)> {
    match d {
        Some(x) => Some(x.parts()),
        None => None,
    }
}

/// `a * b` as rust_decimal's `Decimal::checked_mul` computes it: `None` when
/// the product overflows.
///
/// Besides naming the result, the contract states what the crate's source
/// settles plainly: the order of the factors does not matter (every path of
/// the multiplication forms the exact product of the mantissas and the sum
/// of the scales, and rounds only from those); a zero factor gives zero with
/// scale 0; and two nonzero mantissas below 2^32 whose scales add up to at
/// most 28 give their exact product at the summed scale. For other inputs
/// the crate may round the product to fit; what it returns there is left to
/// the name.
#[verifier::external_body]
pub(crate) fn dec_checked_mul(a: Dec, b: Dec) -> (r: Option<Dec>)
    ensures
        opt_parts(r) == decimal_checked_mul(a.mantissa_spec(), a.scale_spec(), b.mantissa_spec(), b.scale_spec()),
        opt_parts(r) == decimal_checked_mul(b.mantissa_spec(), b.scale_spec(), a.mantissa_spec(), a.scale_spec()),
        a.mantissa_spec() == 0 || b.mantissa_spec() == 0 ==> opt_parts(r) == Some((0i128, 0u32)),
        ({
            let (am, asc) = a.parts();
            let (bm, bsc) = b.parts();
            am != 0 && bm != 0 && -0x1_0000_0000 < am < 0x1_0000_0000 && -0x1_0000_0000 < bm < 0x1_0000_0000
                && asc + bsc <= MAX_SCALE ==> opt_parts(r) == Some(((am * bm) as i128, (asc + bsc) as u32))
        }),
{
    let x = rust_decimal::Decimal::from_i128_with_scale(a.mantissa, a.scale);
    let y = rust_decimal::Decimal::from_i128_with_scale(b.mantissa, b.scale);
    match x.checked_mul(y) {
        Some(p) => Some(Dec { mantissa: p.mantissa(), scale: p.scale() }),
        None => None,
    }
}

/// `a + b` as rust_decimal's `Decimal::checked_add` computes it: `None` when
/// the sum overflows.
///
/// Besides naming the result, the contract states what the crate's source
/// settles plainly: a zero first operand gives back the second operand
/// unchanged; a zero second operand after a nonzero first one gives back the
/// first (two zeros give the second, whatever the scales); and two mantissas
/// below 2^32 at the same scale give their exact sum at that scale (the fast
/// path for 32-bit operands). For other inputs the crate may round the sum
/// to fit; what it returns there is left to the name.
#[verifier::external_body]
pub(crate) fn dec_checked_add(a: Dec, b: Dec) -> (r: Option<Dec>)
    ensures
        opt_parts(r) == decimal_checked_add(a.mantissa_spec(), a.scale_spec(), b.mantissa_spec(), b.scale_spec()),
        a.mantissa_spec() == 0 ==> opt_parts(r) == Some(b.parts()),
        a.mantissa_spec() != 0 && b.mantissa_spec() == 0 ==> opt_parts(r) == Some(a.parts()),
        ({
            let (am, asc) = a.parts();
            let (bm, bsc) = b.parts();
            -0x1_0000_0000 < am < 0x1_0000_0000 && -0x1_0000_0000 < bm < 0x1_0000_0000 && asc == bsc
                ==> opt_parts(r) == Some(((am + bm) as i128, asc))
        }),
{
    let x = rust_decimal::Decimal::from_i128_with_scale(a.mantissa, a.scale);
    let y = rust_decimal::Decimal::from_i128_with_scale(b.mantissa, b.scale);
    match x.checked_add(y) {
        Some(p) => Some(Dec { mantissa: p.mantissa(), scale: p.scale() }),
        None => None,
    }
}

/// The digits `d` padded on the left with zeros to at least `width` characters.
pub open spec fn zero_padded(d: Seq<char>, width: nat) -> Seq<char> {
    if d.len() >= width {
        d
    } else {
        Seq::new((width - d.len()) as nat, |i: int| '0') + d
    }
}

/// The text of `mantissa / 10^scale`: the digits of the magnitude with the
/// decimal point before the last `scale` of them (a `0` before the point when
/// no digit is left there), every fractional digit kept, and a leading `-`
/// when negative; `0` for a zero of scale 0.
pub open spec fn decimal_display(mantissa: int, scale: nat) -> Seq<char> {
    let magnitude: nat = if mantissa < 0 { (-mantissa) as nat } else { mantissa as nat };
    let padded = zero_padded(digits_of(magnitude), scale);
    let whole = (padded.len() - scale) as int;
    let body = if scale == 0 {
        if padded.len() == 0 { "0"@ } else { padded }
    } else {
        (if whole == 0 { "0"@ } else { padded.take(whole) }) + "."@ + padded.skip(whole)
    };
    if mantissa < 0 { "-"@ + body } else { body }
}

/// The text of a decimal as rust_decimal's `Display` for `Decimal` writes it
/// (through `ToString::to_string`, with no precision given).
#[verifier::external_body]
fn dec_to_text(d: Dec) -> (s: String)
    ensures
        s@ == decimal_display(d.mantissa_spec() as int, d.scale_spec() as nat),
{
    rust_decimal::Decimal::from_i128_with_scale(d.mantissa, d.scale).to_string()
}

impl Dec {
    /// The decimal's text, as rust_decimal displays it.
    pub fn to_text(&self) -> (s: String)
        ensures
            s@ == decimal_display(self.mantissa_spec() as int, self.scale_spec() as nat),
    {
        dec_to_text(*self)
    }
}

} // verus!
