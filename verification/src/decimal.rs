//! Exact decimal numbers for money and valuation arithmetic, computed by `rust_decimal`.
//!
//! A [`Dec`] holds the parts of a `rust_decimal::Decimal` as plain values: the signed
//! mantissa, the scale (number of fractional digits) and the sign flag (which also tells a
//! negative zero apart). Its value is `mantissa / 10^scale`.
use vstd::prelude::*;

verus! {

/// `10^n`.
pub open spec fn pow10(n: nat) -> int
    decreases n,
{
    if n == 0 {
        1
    } else {
        10 * pow10((n - 1) as nat)
    }
}

/// The bound on a `Decimal` mantissa: 2^96.
pub open spec fn mantissa_bound() -> int {
    0x1_0000_0000_0000_0000_0000_0000
}

/// `m` fits a 96-bit `Decimal` mantissa.
pub open spec fn fits96(m: int) -> bool {
    -mantissa_bound() < m < mantissa_bound()
}

/// A decimal number: `mantissa / 10^scale`, with a sign flag.
#[derive(Debug, Clone, Copy, PartialEq, Eq, Structural)]
pub struct Dec {
    pub mantissa: i128,
    pub scale: u32,
    pub negative: bool,
}

impl Dec {
    /// The parts describe a `Decimal`: the mantissa fits 96 bits, the scale is at most 28,
    /// and the sign flag agrees with the mantissa's sign (a zero may carry either flag).
    pub open spec fn wf(self) -> bool {
        &&& fits96(self.mantissa as int)
        &&& self.scale <= 28
        &&& self.mantissa < 0 ==> self.negative
        &&& self.mantissa > 0 ==> !self.negative
    }

    /// The number `m / 10^s` with the sign flag of `m`.
    pub open spec fn exact(m: int, s: int) -> Dec {
        Dec { mantissa: m as i128, scale: s as u32, negative: m < 0 }
    }

    /// The value's numerator over `10^s`, for `s >= self.scale`.
    pub open spec fn num_at(self, s: int) -> int {
        self.mantissa * pow10((s - self.scale) as nat)
    }

    /// `self < other` as numbers.
    pub open spec fn less_than(self, other: Dec) -> bool {
        self.mantissa * pow10(other.scale as nat) < other.mantissa * pow10(self.scale as nat)
    }

    /// The number `n` (scale 0).
    pub fn from_int(n: i64) -> (r: Dec)
        ensures
            r == Dec::exact(n as int, 0),
            r.wf(),
    {
        Dec { mantissa: n as i128, scale: 0, negative: n < 0 }
    }

    /// Zero (`Decimal::ZERO`).
    pub fn zero() -> (r: Dec)
        ensures
            r == Dec::exact(0, 0),
            r.wf(),
    {
        Dec { mantissa: 0, scale: 0, negative: false }
    }

    /// The number is zero (of either sign).
    pub fn is_zero(&self) -> (r: bool)
        ensures
            r == (self.mantissa == 0),
    {
        self.mantissa == 0
    }
}

/// `-b`; a zero keeps its flag.
pub open spec fn negated(b: Dec) -> Dec {
    if b.mantissa == 0 {
        b
    } else {
        Dec { mantissa: -b.mantissa as i128, scale: b.scale, negative: !b.negative }
    }
}

/// The exact sum `a + b` where `rust_decimal` computes it without rounding: a zero operand
/// gives the other one unchanged, and otherwise both are brought to the larger scale and the
/// sum is kept when the aligned operands and the sum fit 96 bits. `None` where this says
/// nothing.
pub open spec fn exact_sum(a: Dec, b: Dec) -> Option<Dec> {
    if a.mantissa == 0 {
        Some(b)
    } else if b.mantissa == 0 {
        Some(a)
    } else {
        let s = if a.scale >= b.scale { a.scale as int } else { b.scale as int };
        let x = a.num_at(s);
        let y = b.num_at(s);
        if fits96(x) && fits96(y) && fits96(x + y) {
            Some(Dec::exact(x + y, s))
        } else {
            None
        }
    }
}

/// The exact difference `a - b` where `rust_decimal` computes it without rounding (see
/// [`exact_sum`]; a zero minuend gives `-b`).
pub open spec fn exact_difference(a: Dec, b: Dec) -> Option<Dec> {
    if a.mantissa == 0 {
        Some(negated(b))
    } else if b.mantissa == 0 {
        Some(a)
    } else {
        let s = if a.scale >= b.scale { a.scale as int } else { b.scale as int };
        let x = a.num_at(s);
        let y = b.num_at(s);
        if fits96(x) && fits96(y) && fits96(x - y) {
            Some(Dec::exact(x - y, s))
        } else {
            None
        }
    }
}

/// The exact product `a * b` where `rust_decimal` computes it without rounding: a zero
/// operand gives `0` (scale 0), and otherwise the mantissas and scales multiply and add
/// when the product fits 96 bits and the scale stays at most 28. `None` where this says
/// nothing.
pub open spec fn exact_product(a: Dec, b: Dec) -> Option<Dec> {
    if a.mantissa == 0 || b.mantissa == 0 {
        Some(Dec::exact(0, 0))
    } else if a.scale + b.scale <= 28 && fits96(a.mantissa * b.mantissa) {
        Some(Dec::exact(a.mantissa * b.mantissa, a.scale + b.scale))
    } else {
        None
    }
}

/// What `Decimal::checked_add` returns.
pub uninterp spec fn decimal_checked_add(a: Dec, b: Dec) -> Option<Dec>;

/// What `Decimal::checked_sub` returns.
pub uninterp spec fn decimal_checked_sub(a: Dec, b: Dec) -> Option<Dec>;

/// What `Decimal::checked_mul` returns.
pub uninterp spec fn decimal_checked_mul(a: Dec, b: Dec) -> Option<Dec>;

/// What `Decimal::checked_div` returns.
pub uninterp spec fn decimal_checked_div(a: Dec, b: Dec) -> Option<Dec>;

/// `Decimal::checked_add`: `None` on overflow. Where the sum is exact (see [`exact_sum`])
/// the result is that sum.
#[verifier::external_body]
pub(crate) fn checked_add(a: Dec, b: Dec) -> (r: Option<Dec>)
    requires
        a.wf(),
        b.wf(),
    ensures
        r == decimal_checked_add(a, b),
        exact_sum(a, b) is Some ==> r == exact_sum(a, b),
        r is Some ==> r->0.wf(),
{
    let mut x = rust_decimal::Decimal::from_i128_with_scale(a.mantissa, a.scale);
    x.set_sign_negative(a.negative);
    let mut y = rust_decimal::Decimal::from_i128_with_scale(b.mantissa, b.scale);
    y.set_sign_negative(b.negative);
    match x.checked_add(y) {
        Some(z) => Some(Dec { mantissa: z.mantissa(), scale: z.scale(), negative: z.is_sign_negative() }),
        None => None,
    }
}

/// `Decimal::checked_sub`: `None` on overflow. Where the difference is exact (see
/// [`exact_difference`]) the result is that difference.
#[verifier::external_body]
pub(crate) fn checked_sub(a: Dec, b: Dec) -> (r: Option<Dec>)
    requires
        a.wf(),
        b.wf(),
    ensures
        r == decimal_checked_sub(a, b),
        exact_difference(a, b) is Some ==> r == exact_difference(a, b),
        r is Some ==> r->0.wf(),
{
    let mut x = rust_decimal::Decimal::from_i128_with_scale(a.mantissa, a.scale);
    x.set_sign_negative(a.negative);
    let mut y = rust_decimal::Decimal::from_i128_with_scale(b.mantissa, b.scale);
    y.set_sign_negative(b.negative);
    match x.checked_sub(y) {
        Some(z) => Some(Dec { mantissa: z.mantissa(), scale: z.scale(), negative: z.is_sign_negative() }),
        None => None,
    }
}

/// `Decimal::checked_mul`: `None` on overflow. Where the product is exact (see
/// [`exact_product`]) the result is that product, and a product of mantissas that fits
/// 96 bits never overflows (a scale above 28 is rounded away).
#[verifier::external_body]
pub(crate) fn checked_mul(a: Dec, b: Dec) -> (r: Option<Dec>)
    requires
        a.wf(),
        b.wf(),
    ensures
        r == decimal_checked_mul(a, b),
        exact_product(a, b) is Some ==> r == exact_product(a, b),
        fits96(a.mantissa * b.mantissa) ==> r is Some,
        r is Some ==> r->0.wf(),
{
    let mut x = rust_decimal::Decimal::from_i128_with_scale(a.mantissa, a.scale);
    x.set_sign_negative(a.negative);
    let mut y = rust_decimal::Decimal::from_i128_with_scale(b.mantissa, b.scale);
    y.set_sign_negative(b.negative);
    match x.checked_mul(y) {
        Some(z) => Some(Dec { mantissa: z.mantissa(), scale: z.scale(), negative: z.is_sign_negative() }),
        None => None,
    }
}

/// `Decimal::checked_div`: `None` for a zero divisor or on overflow; a zero dividend gives
/// `0` (scale 0). The quotient is otherwise rounded to what a `Decimal` holds, which this
/// contract leaves unstated.
#[verifier::external_body]
pub(crate) fn checked_div(a: Dec, b: Dec) -> (r: Option<Dec>)
    requires
        a.wf(),
        b.wf(),
    ensures
        r == decimal_checked_div(a, b),
        b.mantissa == 0 ==> r is None,
        a.mantissa == 0 && b.mantissa != 0 ==> r == Some(Dec::exact(0, 0)),
        r is Some ==> r->0.wf(),
{
    let mut x = rust_decimal::Decimal::from_i128_with_scale(a.mantissa, a.scale);
    x.set_sign_negative(a.negative);
    let mut y = rust_decimal::Decimal::from_i128_with_scale(b.mantissa, b.scale);
    y.set_sign_negative(b.negative);
    match x.checked_div(y) {
        Some(z) => Some(Dec { mantissa: z.mantissa(), scale: z.scale(), negative: z.is_sign_negative() }),
        None => None,
    }
}

/// `a` rounded to `dp` fractional digits, halves to even (`Decimal::round_dp`): a number
/// with at most `dp` digits is unchanged; a zero keeps its flag; otherwise the magnitude
/// is divided by `10^(scale - dp)` and rounded, and a result of zero is non-negative.
pub open spec fn rounded(a: Dec, dp: nat) -> Dec {
    if a.scale <= dp {
        a
    } else if a.mantissa == 0 {
        Dec { mantissa: 0, scale: dp as u32, negative: a.negative }
    } else {
        let k = (a.scale - dp) as nat;
        let mag = if a.mantissa < 0 { -a.mantissa } else { a.mantissa as int };
        let q = mag / pow10(k);
        let rem = mag % pow10(k);
        let half = 5 * pow10((k - 1) as nat);
        let q2 = if rem > half || (rem == half && q % 2 == 1) { q + 1 } else { q };
        Dec {
            mantissa: (if a.negative { -q2 } else { q2 }) as i128,
            scale: dp as u32,
            negative: a.negative && q2 != 0,
        }
    }
}

/// `Decimal::round_dp`: rounds to `dp` fractional digits, halves to even.
#[verifier::external_body]
pub(crate) fn round_dp(a: Dec, dp: u32) -> (r: Dec)
    requires
        a.wf(),
    ensures
        r == rounded(a, dp as nat),
        r.wf(),
{
    let mut x = rust_decimal::Decimal::from_i128_with_scale(a.mantissa, a.scale);
    x.set_sign_negative(a.negative);
    let z = x.round_dp(dp);
    Dec { mantissa: z.mantissa(), scale: z.scale(), negative: z.is_sign_negative() }
}

/// The decimal digit `d` (0 to 9).
pub open spec fn digit_char(d: int) -> char {
    (d + 48) as char
}

/// The decimal digits of `n` without leading zeros; none for `0`.
pub open spec fn digits_of(n: nat) -> Seq<char>
    decreases n,
{
    if n == 0 {
        Seq::empty()
    } else {
        digits_of(n / 10).push(digit_char((n % 10) as int))
    }
}

/// `n` copies of `'0'`.
pub open spec fn zeros(n: nat) -> Seq<char> {
    Seq::new(n, |i: int| '0')
}

/// How `Decimal` prints (its `Display`): a `-` when the sign flag is set, the digits of
/// the magnitude left-padded with zeros to at least `scale` digits, a point before the last
/// `scale` of them (with a `0` in front when nothing precedes it), and `0` for a bare zero.
pub open spec fn decimal_text(a: Dec) -> Seq<char> {
    let mag = if a.mantissa < 0 { -a.mantissa } else { a.mantissa as int };
    let ds = digits_of(mag as nat);
    let padded = if ds.len() < a.scale { zeros((a.scale - ds.len()) as nat) + ds } else { ds };
    let whole_len = padded.len() - a.scale;
    let whole = padded.subrange(0, whole_len);
    let frac = padded.subrange(whole_len, padded.len() as int);
    let body = if a.scale == 0 {
        if whole.len() == 0 { seq!['0'] } else { whole }
    } else if whole_len == 0 {
        seq!['0', '.'] + frac
    } else {
        whole.push('.') + frac
    };
    if a.negative { seq!['-'] + body } else { body }
}

/// The text of a decimal (`Decimal::to_string`).
#[verifier::external_body]
pub(crate) fn decimal_to_string(a: Dec) -> (r: String)
    requires
        a.wf(),
    ensures
        r@ == decimal_text(a),
{
    let mut x = rust_decimal::Decimal::from_i128_with_scale(a.mantissa, a.scale);
    x.set_sign_negative(a.negative);
    x.to_string()
}

/// `a < b` (`Decimal`'s ordering, which compares values).
#[verifier::external_body]
pub(crate) fn less_than(a: Dec, b: Dec) -> (r: bool)
    requires
        a.wf(),
        b.wf(),
    ensures
        r == a.less_than(b),
{
    let mut x = rust_decimal::Decimal::from_i128_with_scale(a.mantissa, a.scale);
    x.set_sign_negative(a.negative);
    let mut y = rust_decimal::Decimal::from_i128_with_scale(b.mantissa, b.scale);
    y.set_sign_negative(b.negative);
    x < y
}

/// `a <= b` (`Decimal`'s ordering, which compares values).
#[verifier::external_body]
pub(crate) fn at_most(a: Dec, b: Dec) -> (r: bool)
    requires
        a.wf(),
        b.wf(),
    ensures
        r == !b.less_than(a),
{
    let mut x = rust_decimal::Decimal::from_i128_with_scale(a.mantissa, a.scale);
    x.set_sign_negative(a.negative);
    let mut y = rust_decimal::Decimal::from_i128_with_scale(b.mantissa, b.scale);
    y.set_sign_negative(b.negative);
    x <= y
}

/// `10^n` is positive.
pub proof fn lemma_pow10_positive(n: nat)
    ensures
        pow10(n) > 0,
    decreases n,
{
    if n > 0 {
        lemma_pow10_positive((n - 1) as nat);
    }
}

/// `x <= y < z` gives `x < z` (as numbers).
pub proof fn lemma_at_most_less_than(x: Dec, y: Dec, z: Dec)
    requires
        !y.less_than(x),
        y.less_than(z),
    ensures
        x.less_than(z),
{
    let px = pow10(x.scale as nat);
    let py = pow10(y.scale as nat);
    let pz = pow10(z.scale as nat);
    lemma_pow10_positive(x.scale as nat);
    lemma_pow10_positive(y.scale as nat);
    lemma_pow10_positive(z.scale as nat);
    let (xm, ym, zm) = (x.mantissa as int, y.mantissa as int, z.mantissa as int);
    assert(xm * pz < zm * px) by (nonlinear_arith)
        requires
            xm * py <= ym * px,
            ym * pz < zm * py,
            px > 0,
            py > 0,
            pz > 0,
    {
        assert(xm * py * pz <= ym * px * pz);
        assert(ym * pz * px < zm * py * px);
        assert(xm * pz * py < zm * px * py);
    }
}

/// `x <= y <= z` gives `x <= z` (as numbers).
pub proof fn lemma_at_most_at_most(x: Dec, y: Dec, z: Dec)
    requires
        !y.less_than(x),
        !z.less_than(y),
    ensures
        !z.less_than(x),
{
    let px = pow10(x.scale as nat);
    let py = pow10(y.scale as nat);
    let pz = pow10(z.scale as nat);
    lemma_pow10_positive(x.scale as nat);
    lemma_pow10_positive(y.scale as nat);
    lemma_pow10_positive(z.scale as nat);
    let (xm, ym, zm) = (x.mantissa as int, y.mantissa as int, z.mantissa as int);
    assert(xm * pz <= zm * px) by (nonlinear_arith)
        requires
            xm * py <= ym * px,
            ym * pz <= zm * py,
            px > 0,
            py > 0,
            pz > 0,
    {
        assert(xm * py * pz <= ym * px * pz);
        assert(ym * pz * px <= zm * py * px);
        assert(xm * pz * py <= zm * px * py);
    }
}

} // verus!
