//! Signed decimal fixed-point numbers with ten fractional digits.
//!
//! A [`Fixed`] holds a real number as a whole count of units of 10^-10, so
//! 0.5 is the raw count 5_000_000_000. Arithmetic is defined on the range of
//! magnitudes up to 10^18 and rounds toward zero; a result outside that range,
//! a division by zero or the square root of a negative number is undefined.
//! Undefined results are `None`, and every operation hands `None` on, so a
//! formula can be written as one expression.

use vstd::prelude::*;

verus! {

/// Raw units in one whole: ten decimal places.
pub const SCALE: i128 = 10_000_000_000;

/// Largest raw magnitude that arithmetic accepts and produces: 10^28 units,
/// which stands for 10^18.
pub const MAX_RAW: i128 = 10_000_000_000_000_000_000_000_000_000;

/// The raw count of pi, rounded to the nearest unit: 3.1415926536.
pub const PI_RAW: i128 = 31_415_926_536;

/// The raw count of the half turn's double: 6.2831853072.
pub const TWO_PI_RAW: i128 = 62_831_853_072;

/// The raw count of the quarter turn: 1.5707963268.
pub const HALF_PI_RAW: i128 = 15_707_963_268;

/// A decimal number, held as a count of units of 10^-10.
#[derive(Clone, Copy, Debug, PartialEq, Eq, Structural)]
pub struct Fixed {
    pub raw: i128,
}

/// A number that may be undefined.
pub type Scalar = Option<Fixed>;

/// The absolute value of an integer.
pub open spec fn magnitude(x: int) -> int {
    if x >= 0 {
        x
    } else {
        -x
    }
}

/// The quotient of `n` by `d`, rounded toward zero.
pub open spec fn quot(n: int, d: int) -> int
    recommends
        d != 0,
{
    if (n >= 0) == (d > 0) {
        magnitude(n) / magnitude(d)
    } else {
        -(magnitude(n) / magnitude(d))
    }
}

/// Whether a raw count lies in the range on which arithmetic is defined.
pub open spec fn fits(x: int) -> bool {
    -MAX_RAW <= x <= MAX_RAW
}

/// The number with raw count `x`, or nothing where `x` is out of range.
pub open spec fn checked(x: int) -> Scalar {
    if fits(x) {
        Some(Fixed { raw: x as i128 })
    } else {
        None
    }
}

/// The operand of an operation: defined and in range.
pub open spec fn operand(a: Scalar) -> bool {
    a matches Some(x) && fits(x.raw as int)
}

/// The largest integer whose square does not exceed `n`.
pub open spec fn isqrt(n: int) -> int
    decreases n,
{
    if n <= 0 {
        0
    } else {
        let r = 2 * isqrt(n / 4);
        if (r + 1) * (r + 1) <= n {
            r + 1
        } else {
            r
        }
    }
}

/// The cosine series in the square `y` of the angle, from the term of degree
/// `k` on, nested: `1 - y/((k-1)k) * (1 - y/((k+1)(k+2)) * ..)`, ending with
/// the term of degree 16.
pub open spec fn cos_series(y: int, k: int) -> int
    decreases 20 - k,
{
    if k >= 18 {
        SCALE as int
    } else {
        SCALE - (y * cos_series(y, k + 2)) / (SCALE * ((k - 1) * k))
    }
}

/// The cosine of an angle between zero and the quarter turn.
pub open spec fn cos_reduced(x: int) -> int {
    cos_series((x * x) / (SCALE as int), 2)
}

/// The cosine of any angle: the angle is brought into the first turn, folded
/// at the half turn and at the quarter turn, and the series does the rest.
pub open spec fn cos_raw(x: int) -> int {
    let m = magnitude(x) % (TWO_PI_RAW as int);
    let f = if m > PI_RAW {
        TWO_PI_RAW - m
    } else {
        m
    };
    if f > HALF_PI_RAW {
        -cos_reduced(PI_RAW - f)
    } else {
        cos_reduced(f)
    }
}

/// The cosine of an angle in radians, where the operand is defined and in
/// range.
pub open spec fn spec_cosine(a: Scalar) -> Scalar {
    if operand(a) {
        checked(cos_raw(a->0.raw as int))
    } else {
        None
    }
}

/// The number with the given raw count.
pub open spec fn spec_num(raw: i128) -> Scalar {
    Some(Fixed { raw })
}

/// The sum, where both operands are defined and in range and the sum is in
/// range.
pub open spec fn spec_plus(a: Scalar, b: Scalar) -> Scalar {
    if operand(a) && operand(b) {
        checked(a->0.raw + b->0.raw)
    } else {
        None
    }
}

/// The difference, where both operands are defined and in range and the
/// difference is in range.
pub open spec fn spec_minus(a: Scalar, b: Scalar) -> Scalar {
    if operand(a) && operand(b) {
        checked(a->0.raw - b->0.raw)
    } else {
        None
    }
}

/// The product rounded toward zero, where both operands are defined and in
/// range and the product is in range.
pub open spec fn spec_times(a: Scalar, b: Scalar) -> Scalar {
    if operand(a) && operand(b) {
        checked(quot(a->0.raw * b->0.raw, SCALE as int))
    } else {
        None
    }
}

/// The quotient rounded toward zero, where both operands are defined and in
/// range, the divisor is not zero and the quotient is in range.
pub open spec fn spec_over(a: Scalar, b: Scalar) -> Scalar {
    if operand(a) && operand(b) && b->0.raw != 0 {
        checked(quot(a->0.raw * SCALE, b->0.raw as int))
    } else {
        None
    }
}

/// The square root rounded down, where the operand is defined, in range and
/// not negative.
pub open spec fn spec_root(a: Scalar) -> Scalar {
    if operand(a) && a->0.raw >= 0 {
        checked(isqrt(a->0.raw * SCALE))
    } else {
        None
    }
}

/// The operand with its sign changed, where it is defined and in range.
pub open spec fn spec_negate(a: Scalar) -> Scalar {
    if operand(a) {
        checked(-a->0.raw)
    } else {
        None
    }
}

/// The operand without its sign, where it is defined and in range.
pub open spec fn spec_absolute(a: Scalar) -> Scalar {
    if operand(a) {
        checked(magnitude(a->0.raw as int))
    } else {
        None
    }
}

impl Fixed {
    /// Whether the value lies in the range on which arithmetic is defined.
    pub open spec fn in_range(self) -> bool {
        fits(self.raw as int)
    }

    /// Whether the value lies in the range on which arithmetic is defined.
    pub fn is_in_range(self) -> (r: bool)
        ensures
            r == self.in_range(),
    {
        -MAX_RAW <= self.raw && self.raw <= MAX_RAW
    }

    /// The whole number `n`.
    pub fn from_int(n: i64) -> (r: Fixed)
        ensures
            r.raw == n * SCALE,
            r.in_range() <==> -1_000_000_000_000_000_000 <= n <= 1_000_000_000_000_000_000,
    {
        Fixed { raw: (n as i128) * SCALE }
    }

    /// The number `n` millionths.
    pub fn from_micro(n: i64) -> (r: Fixed)
        ensures
            r.raw == n * 10_000,
            r.in_range(),
    {
        Fixed { raw: (n as i128) * 10_000 }
    }
}

/// The magnitude of a raw count in range.
fn raw_magnitude(x: i128) -> (m: u128)
    requires
        fits(x as int),
    ensures
        m == magnitude(x as int),
        m <= MAX_RAW,
{
    if x >= 0 {
        x as u128
    } else {
        (-x) as u128
    }
}

/// The raw count with the given sign and magnitude.
fn raw_signed(negative: bool, m: u128) -> (x: i128)
    requires
        m <= MAX_RAW,
    ensures
        x == if negative {
            -(m as int)
        } else {
            m as int
        },
        fits(x as int),
{
    if negative {
        -(m as i128)
    } else {
        m as i128
    }
}

proof fn lemma_product_sign(x: int, y: int)
    by (nonlinear_arith)
    ensures
        magnitude(x * y) == magnitude(x) * magnitude(y),
        (x * y >= 0) <==> ((x < 0) == (y < 0) || x == 0 || y == 0),
{
}

proof fn lemma_split_product(a: int, b: int, s: int)
    by (nonlinear_arith)
    requires
        0 <= a,
        0 <= b,
        0 < s,
    ensures
        (a * b) / s == a * (b / s) + (a * (b % s)) / s,
        0 <= a * (b % s) <= a * (s - 1),
        0 <= a * (b / s),
{
    let q = b / s;
    let r = b % s;
    assert(b == q * s + r);
    assert(a * b == (a * q) * s + a * r);
    assert(0 <= r < s);
    assert(0 <= a * r);
    let t = (a * r) / s;
    let u = (a * r) % s;
    assert(a * r == t * s + u && 0 <= u < s);
    assert(a * b == (a * q + t) * s + u);
}

/// The number with the given raw count.
#[verifier::when_used_as_spec(spec_num)]
pub fn num(raw: i128) -> (r: Scalar)
    ensures
        r == spec_num(raw),
{
    Some(Fixed { raw })
}

/// The sum, where both operands are defined and the sum is in range.
#[verifier::when_used_as_spec(spec_plus)]
pub fn plus(a: Scalar, b: Scalar) -> (r: Scalar)
    ensures
        r == spec_plus(a, b),
{
    let x = a?;
    let y = b?;
    if !x.is_in_range() || !y.is_in_range() {
        return None;
    }
    let s: i128 = x.raw + y.raw;
    if -MAX_RAW <= s && s <= MAX_RAW {
        Some(Fixed { raw: s })
    } else {
        None
    }
}

/// The difference, where both operands are defined and the difference is in
/// range.
#[verifier::when_used_as_spec(spec_minus)]
pub fn minus(a: Scalar, b: Scalar) -> (r: Scalar)
    ensures
        r == spec_minus(a, b),
{
    let x = a?;
    let y = b?;
    if !x.is_in_range() || !y.is_in_range() {
        return None;
    }
    let s: i128 = x.raw - y.raw;
    if -MAX_RAW <= s && s <= MAX_RAW {
        Some(Fixed { raw: s })
    } else {
        None
    }
}

/// The product rounded toward zero, where both operands are defined and the
/// product is in range.
#[verifier::when_used_as_spec(spec_times)]
pub fn times(a: Scalar, b: Scalar) -> (r: Scalar)
    ensures
        r == spec_times(a, b),
{
    let x = a?;
    let y = b?;
    if !x.is_in_range() || !y.is_in_range() {
        return None;
    }
    let negative = (x.raw < 0) != (y.raw < 0);
    let ma: u128 = raw_magnitude(x.raw);
    let mb: u128 = raw_magnitude(y.raw);
    let scale: u128 = SCALE as u128;
    let whole: u128 = mb / scale;
    let part: u128 = mb % scale;
    proof {
        lemma_product_sign(x.raw as int, y.raw as int);
        lemma_split_product(ma as int, mb as int, SCALE as int);
        assert(ma * part <= MAX_RAW * (SCALE - 1)) by (nonlinear_arith)
            requires
                0 <= ma <= MAX_RAW,
                0 <= part <= SCALE - 1,
        ;
    }
    let low: u128 = (ma * part) / scale;
    match ma.checked_mul(whole) {
        None => None,
        Some(high) => {
            if high > MAX_RAW as u128 {
                None
            } else {
                let m: u128 = high + low;
                if m > MAX_RAW as u128 {
                    None
                } else {
                    Some(Fixed { raw: raw_signed(negative, m) })
                }
            }
        },
    }
}

/// The quotient rounded toward zero, where both operands are defined, the
/// divisor is not zero and the quotient is in range.
#[verifier::when_used_as_spec(spec_over)]
pub fn over(a: Scalar, b: Scalar) -> (r: Scalar)
    ensures
        r == spec_over(a, b),
{
    let x = a?;
    let y = b?;
    if !x.is_in_range() || !y.is_in_range() || y.raw == 0 {
        return None;
    }
    let negative = (x.raw < 0) != (y.raw < 0);
    let ma: u128 = raw_magnitude(x.raw);
    let mb: u128 = raw_magnitude(y.raw);
    proof {
        lemma_product_sign(x.raw as int, SCALE as int);
        assert(ma * SCALE <= MAX_RAW * SCALE) by (nonlinear_arith)
            requires
                0 <= ma <= MAX_RAW,
        ;
    }
    let q: u128 = (ma * (SCALE as u128)) / mb;
    if q > MAX_RAW as u128 {
        None
    } else {
        Some(Fixed { raw: raw_signed(negative, q) })
    }
}

/// What `isqrt` computes: the one integer `r >= 0` with
/// `r * r <= n < (r + 1) * (r + 1)`.
pub proof fn lemma_isqrt(n: int)
    requires
        n >= 0,
    ensures
        isqrt(n) >= 0,
        isqrt(n) * isqrt(n) <= n < (isqrt(n) + 1) * (isqrt(n) + 1),
    decreases n,
{
    if n > 0 {
        lemma_isqrt(n / 4);
        let s = isqrt(n / 4);
        let r = 2 * s;
        assert(r * r <= n && n < (r + 2) * (r + 2)) by (nonlinear_arith)
            requires
                r == 2 * s,
                s >= 0,
                s * s <= n / 4 < (s + 1) * (s + 1),
                n >= 0,
        ;
    }
}

/// No other integer has the property of `lemma_isqrt`.
pub proof fn lemma_isqrt_unique(n: int, r: int)
    requires
        r >= 0,
        r * r <= n < (r + 1) * (r + 1),
    ensures
        r == isqrt(n),
{
    lemma_isqrt(n);
    let s = isqrt(n);
    assert(r == s) by (nonlinear_arith)
        requires
            r >= 0,
            s >= 0,
            r * r <= n < (r + 1) * (r + 1),
            s * s <= n < (s + 1) * (s + 1),
    ;
}

/// A larger number has no smaller root.
pub proof fn lemma_isqrt_monotonic(m: int, n: int)
    requires
        0 <= m <= n,
    ensures
        isqrt(m) <= isqrt(n),
{
    lemma_isqrt(m);
    lemma_isqrt(n);
    let r = isqrt(m);
    let s = isqrt(n);
    assert(r <= s) by (nonlinear_arith)
        requires
            r >= 0,
            s >= 0,
            r * r <= m,
            m <= n,
            n < (s + 1) * (s + 1),
    ;
}

/// The integer square root of a count below 2^127.
fn raw_isqrt(n: u128) -> (r: u128)
    requires
        n <= i128::MAX,
    ensures
        r == isqrt(n as int),
        r * r <= n,
{
    let mut low: u128 = 0;
    let mut high: u128 = 0x1_0000_0000_0000_0000;
    assert(n < high * high) by (nonlinear_arith)
        requires
            n <= i128::MAX,
            high == 0x1_0000_0000_0000_0000,
    ;
    while high - low > 1
        invariant
            low < high <= 0x1_0000_0000_0000_0000,
            low * low <= n < high * high,
        decreases high - low,
    {
        let mid: u128 = low + (high - low) / 2;
        assert(mid * mid <= u128::MAX) by (nonlinear_arith)
            requires
                mid < 0x1_0000_0000_0000_0000,
        ;
        if mid * mid <= n {
            low = mid;
        } else {
            high = mid;
        }
    }
    proof {
        lemma_isqrt_unique(n as int, low as int);
    }
    low
}

/// The square root rounded down, where the operand is defined and not
/// negative.
#[verifier::when_used_as_spec(spec_root)]
pub fn root(a: Scalar) -> (r: Scalar)
    ensures
        r == spec_root(a),
{
    let x = a?;
    if !x.is_in_range() || x.raw < 0 {
        return None;
    }
    let m: u128 = raw_magnitude(x.raw);
    proof {
        assert(m * SCALE <= MAX_RAW * SCALE) by (nonlinear_arith)
            requires
                0 <= m <= MAX_RAW,
        ;
    }
    let r: u128 = raw_isqrt(m * (SCALE as u128));
    proof {
        assert(r <= MAX_RAW) by (nonlinear_arith)
            requires
                r * r <= MAX_RAW * SCALE,
                0 <= r,
        ;
    }
    Some(Fixed { raw: r as i128 })
}

/// The operand with its sign changed.
#[verifier::when_used_as_spec(spec_negate)]
pub fn negate(a: Scalar) -> (r: Scalar)
    ensures
        r == spec_negate(a),
{
    let x = a?;
    if !x.is_in_range() {
        return None;
    }
    Some(Fixed { raw: -x.raw })
}

/// The operand without its sign.
#[verifier::when_used_as_spec(spec_absolute)]
pub fn absolute(a: Scalar) -> (r: Scalar)
    ensures
        r == spec_absolute(a),
{
    let x = a?;
    if !x.is_in_range() {
        return None;
    }
    if x.raw < 0 {
        Some(Fixed { raw: -x.raw })
    } else {
        Some(x)
    }
}

/// Largest square, as a raw count, of an angle up to the quarter turn.
pub const MAX_SQUARE: i128 = 24_674_011_004;

proof fn lemma_square_bound(x: int)
    by (nonlinear_arith)
    requires
        0 <= x <= HALF_PI_RAW,
    ensures
        0 <= x * x <= HALF_PI_RAW * HALF_PI_RAW,
        0 <= (x * x) / (SCALE as int) <= MAX_SQUARE,
{
}

proof fn lemma_series_step(y: int, t: int, d: int)
    by (nonlinear_arith)
    requires
        0 <= y <= MAX_SQUARE,
        0 <= t <= SCALE,
        2 <= d,
    ensures
        0 <= y * t <= MAX_SQUARE * SCALE,
        0 < SCALE * d,
        0 <= (y * t) / (SCALE * d) <= MAX_SQUARE / 2,
        d >= 12 ==> (y * t) / (SCALE * d) <= SCALE,
{
    assert(y * t <= MAX_SQUARE * SCALE);
    assert((y * t) / (SCALE * d) <= (y * t) / (SCALE * 2));
    assert((y * t) / (SCALE * 2) <= (MAX_SQUARE * SCALE) / (SCALE * 2));
}

/// From the term of degree four on, the series stays between zero and one.
pub proof fn lemma_series_bounded(y: int, k: int)
    requires
        0 <= y <= MAX_SQUARE,
        4 <= k,
    ensures
        0 <= cos_series(y, k) <= SCALE,
    decreases 20 - k,
{
    if k < 18 {
        lemma_series_bounded(y, k + 2);
        let d = (k - 1) * k;
        assert(d >= 12) by (nonlinear_arith)
            requires
                k >= 4,
                d == (k - 1) * k,
        ;
        lemma_series_step(y, cos_series(y, k + 2), d);
    }
}

/// The cosine of every angle lies between minus one and one.
pub proof fn lemma_cosine_bounded(x: int)
    ensures
        -SCALE <= cos_raw(x) <= SCALE,
{
    let m = magnitude(x) % (TWO_PI_RAW as int);
    let f = if m > PI_RAW {
        TWO_PI_RAW - m
    } else {
        m
    };
    let g = if f > HALF_PI_RAW {
        PI_RAW - f
    } else {
        f
    };
    lemma_square_bound(g);
    let y = (g * g) / (SCALE as int);
    lemma_series_bounded(y, 4);
    lemma_series_step(y, cos_series(y, 4), 2);
    assert((2 - 1) * 2 == 2);
}

proof fn lemma_series_at_zero(k: int)
    requires
        2 <= k,
    ensures
        cos_series(0, k) == SCALE,
    decreases 20 - k,
{
    if k < 18 {
        lemma_series_at_zero(k + 2);
        let t = cos_series(0, k + 2);
        let d = SCALE * ((k - 1) * k);
        assert((0 * t) / d == 0) by (nonlinear_arith)
            requires
                d == SCALE * ((k - 1) * k),
                k >= 2,
        ;
    }
}

/// The cosine of zero is one.
pub proof fn lemma_cosine_of_zero()
    ensures
        cos_raw(0) == SCALE,
{
    lemma_series_at_zero(2);
    assert((0int * 0int) / (SCALE as int) == 0);
}

/// The series for an angle between zero and the quarter turn.
fn raw_cos_reduced(x: i128) -> (r: i128)
    requires
        0 <= x <= HALF_PI_RAW,
    ensures
        r == cos_reduced(x as int),
        -SCALE <= r <= SCALE,
{
    proof {
        lemma_square_bound(x as int);
    }
    let y: i128 = (x * x) / SCALE;
    let mut t: i128 = SCALE;
    let mut k: i128 = 16;
    while k >= 4
        invariant
            0 <= y <= MAX_SQUARE,
            2 <= k <= 16,
            k % 2 == 0,
            t == cos_series(y as int, k + 2),
            0 <= t <= SCALE,
        decreases k,
    {
        assert(12 <= (k - 1) * k <= 240) by (nonlinear_arith)
            requires
                4 <= k <= 16,
        ;
        let d: i128 = (k - 1) * k;
        proof {
            lemma_series_step(y as int, t as int, d as int);
            lemma_series_bounded(y as int, k as int);
        }
        t = SCALE - (y * t) / (SCALE * d);
        k = k - 2;
    }
    proof {
        lemma_series_step(y as int, t as int, 2);
        assert((2 - 1) * 2 == 2);
    }
    SCALE - (y * t) / (SCALE * 2)
}

/// The cosine of an angle in radians, where the operand is defined.
#[verifier::when_used_as_spec(spec_cosine)]
pub fn cosine(a: Scalar) -> (r: Scalar)
    ensures
        r == spec_cosine(a),
{
    let x = a?;
    if !x.is_in_range() {
        return None;
    }
    let m: u128 = raw_magnitude(x.raw) % (TWO_PI_RAW as u128);
    let m: i128 = m as i128;
    let f: i128 = if m > PI_RAW {
        TWO_PI_RAW - m
    } else {
        m
    };
    let c: i128 = if f > HALF_PI_RAW {
        -raw_cos_reduced(PI_RAW - f)
    } else {
        raw_cos_reduced(f)
    };
    Some(Fixed { raw: c })
}

/// Not below zero, where defined.
pub open spec fn not_negative(a: Scalar) -> bool {
    a matches Some(x) ==> x.raw >= 0
}

/// The product of numbers that are not negative is not negative.
pub proof fn lemma_times_not_negative(a: Scalar, b: Scalar)
    requires
        not_negative(a),
        not_negative(b),
    ensures
        not_negative(spec_times(a, b)),
{
    if operand(a) && operand(b) {
        let x = a->0.raw as int;
        let y = b->0.raw as int;
        assert(x * y >= 0 && (x * y) / (SCALE as int) >= 0) by (nonlinear_arith)
            requires
                x >= 0,
                y >= 0,
        ;
    }
}

/// The quotient of numbers that are not negative is not negative.
pub proof fn lemma_over_not_negative(a: Scalar, b: Scalar)
    requires
        not_negative(a),
        not_negative(b),
    ensures
        not_negative(spec_over(a, b)),
{
    if operand(a) && operand(b) && b->0.raw != 0 {
        let x = a->0.raw as int;
        let y = b->0.raw as int;
        assert(x * SCALE >= 0 && (x * SCALE) / y >= 0) by (nonlinear_arith)
            requires
                x >= 0,
                y > 0,
        ;
    }
}

/// Twice a number in range is its raw count doubled, where that is in range.
pub proof fn lemma_times_two(a: Fixed)
    requires
        a.in_range(),
    ensures
        spec_times(spec_num(20_000_000_000), Some(a)) == checked(2 * a.raw),
{
    let x = a.raw as int;
    assert(20_000_000_000 * x == (2 * x) * SCALE) by (nonlinear_arith);
    assert(magnitude(2 * x) * SCALE == magnitude((2 * x) * SCALE)) by (nonlinear_arith);
    assert((magnitude(2 * x) * SCALE) / (SCALE as int) == magnitude(2 * x)) by (nonlinear_arith);
    assert(((2 * x) * SCALE >= 0) == (x >= 0)) by (nonlinear_arith);
}

/// A raw count at any scale that may be undefined: formulas that round once
/// at their end carry their steps in it.
pub type Wide = Option<i128>;

/// The square of the scale.
pub const SCALE_SQUARED: i128 = 100_000_000_000_000_000_000;

/// Whether a count is one that the machine holds with its sign changed too.
pub open spec fn machine(x: int) -> bool {
    -i128::MAX <= x <= i128::MAX
}

/// The count `x`, or nothing where the machine does not hold it.
pub open spec fn wide(x: int) -> Wide {
    if machine(x) {
        Some(x as i128)
    } else {
        None
    }
}

/// The count `x`.
pub open spec fn spec_wide_num(x: i128) -> Wide {
    Some(x)
}

/// The raw count of a number that is defined and in range.
pub open spec fn spec_raw_of(a: Scalar) -> Wide {
    if operand(a) {
        Some(a->0.raw)
    } else {
        None
    }
}

/// The number with the given raw count, where that is defined and in range.
pub open spec fn spec_narrow(a: Wide) -> Scalar {
    match a {
        Some(x) => checked(x as int),
        None => None,
    }
}

/// The exact sum of two counts, where the machine holds it.
pub open spec fn spec_wide_plus(a: Wide, b: Wide) -> Wide {
    if a is Some && b is Some {
        wide(a->0 + b->0)
    } else {
        None
    }
}

/// The exact product of two counts, where the machine holds it.
pub open spec fn spec_wide_times(a: Wide, b: Wide) -> Wide {
    if a is Some && b is Some {
        wide(a->0 * b->0)
    } else {
        None
    }
}

/// The quotient of two counts rounded toward zero, where the divisor is not
/// zero and the machine holds the quotient.
pub open spec fn spec_wide_over(a: Wide, b: Wide) -> Wide {
    if a is Some && b is Some && b->0 != 0 {
        wide(quot(a->0 as int, b->0 as int))
    } else {
        None
    }
}

/// The count `x`.
#[verifier::when_used_as_spec(spec_wide_num)]
pub fn wide_num(x: i128) -> (r: Wide)
    ensures
        r == spec_wide_num(x),
{
    Some(x)
}

/// The raw count of a number that is defined and in range.
#[verifier::when_used_as_spec(spec_raw_of)]
pub fn raw_of(a: Scalar) -> (r: Wide)
    ensures
        r == spec_raw_of(a),
{
    let x = a?;
    if x.is_in_range() {
        Some(x.raw)
    } else {
        None
    }
}

/// The number with the given raw count, where that is defined and in range.
#[verifier::when_used_as_spec(spec_narrow)]
pub fn narrow(a: Wide) -> (r: Scalar)
    ensures
        r == spec_narrow(a),
{
    let x = a?;
    if -MAX_RAW <= x && x <= MAX_RAW {
        Some(Fixed { raw: x })
    } else {
        None
    }
}

/// The exact sum of two counts, where the machine holds it.
#[verifier::when_used_as_spec(spec_wide_plus)]
pub fn wide_plus(a: Wide, b: Wide) -> (r: Wide)
    ensures
        r == spec_wide_plus(a, b),
{
    let x = a?;
    let y = b?;
    match x.checked_add(y) {
        Some(s) => if s == i128::MIN {
            None
        } else {
            Some(s)
        },
        None => None,
    }
}

/// The exact product of two counts, where the machine holds it.
#[verifier::when_used_as_spec(spec_wide_times)]
pub fn wide_times(a: Wide, b: Wide) -> (r: Wide)
    ensures
        r == spec_wide_times(a, b),
{
    let x = a?;
    let y = b?;
    match x.checked_mul(y) {
        Some(p) => if p == i128::MIN {
            None
        } else {
            Some(p)
        },
        None => None,
    }
}

/// The magnitude of any count.
fn wide_magnitude(x: i128) -> (m: u128)
    ensures
        m == magnitude(x as int),
{
    if x >= 0 {
        x as u128
    } else if x == i128::MIN {
        0x8000_0000_0000_0000_0000_0000_0000_0000
    } else {
        (-x) as u128
    }
}

/// The quotient of two counts rounded toward zero, where the divisor is not
/// zero and the machine holds the quotient.
#[verifier::when_used_as_spec(spec_wide_over)]
pub fn wide_over(a: Wide, b: Wide) -> (r: Wide)
    ensures
        r == spec_wide_over(a, b),
{
    let x = a?;
    let y = b?;
    if y == 0 {
        return None;
    }
    let negative = (x < 0) != (y < 0);
    let q: u128 = wide_magnitude(x) / wide_magnitude(y);
    if q > i128::MAX as u128 {
        None
    } else if negative {
        Some(-(q as i128))
    } else {
        Some(q as i128)
    }
}

/// Not below zero, where defined.
pub open spec fn wide_not_negative(a: Wide) -> bool {
    a matches Some(x) ==> x >= 0
}

/// The exact product of counts that are not negative is not negative.
pub proof fn lemma_wide_times_not_negative(a: Wide, b: Wide)
    requires
        wide_not_negative(a),
        wide_not_negative(b),
    ensures
        wide_not_negative(spec_wide_times(a, b)),
{
    if a is Some && b is Some {
        assert(a->0 * b->0 >= 0) by (nonlinear_arith)
            requires
                a->0 >= 0,
                b->0 >= 0,
        ;
    }
}

/// The quotient of counts that are not negative is not negative.
pub proof fn lemma_wide_over_not_negative(a: Wide, b: Wide)
    requires
        wide_not_negative(a),
        wide_not_negative(b),
    ensures
        wide_not_negative(spec_wide_over(a, b)),
{
    if a is Some && b is Some && b->0 != 0 {
        assert(a->0 / b->0 >= 0) by (nonlinear_arith)
            requires
                a->0 >= 0,
                b->0 > 0,
        ;
    }
}

/// Twice a count is the count added to itself, and four times a count is
/// that twice; a count times the square of the scale has twenty zeros more.
pub proof fn lemma_wide_multiples(x: Wide)
    ensures
        x is Some ==> spec_wide_times(spec_wide_num(2), x) == wide(x->0 + x->0),
        x is Some ==> spec_wide_times(spec_wide_num(4), x) == wide(x->0 + x->0 + x->0 + x->0),
        x is Some ==> spec_wide_times(x, spec_wide_num(SCALE_SQUARED)) == wide(
            x->0 * 100_000_000_000_000_000_000int,
        ),
        x is None ==> spec_wide_times(spec_wide_num(2), x) is None && spec_wide_times(
            spec_wide_num(4),
            x,
        ) is None && spec_wide_times(x, spec_wide_num(SCALE_SQUARED)) is None,
{
    if x is Some {
        let v = x->0 as int;
        let two = spec_wide_num(2)->0 as int;
        let four = spec_wide_num(4)->0 as int;
        let square = spec_wide_num(SCALE_SQUARED)->0 as int;
        assert(two * v == v + v && four * v == v + v + v + v && v * square == v
            * 100_000_000_000_000_000_000int) by (nonlinear_arith)
            requires
                two == 2,
                four == 4,
                square == 100_000_000_000_000_000_000int,
        ;
    }
}

} // verus!
