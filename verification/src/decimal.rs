use injective_math::FPDecimal;
use vstd::prelude::*;

verus! {

/// The mathematical content of a [`Decimal`]: a sign flag and a magnitude counted in units of
/// `10^-18`. Zero may carry either flag, and the two zeros are told apart by the comparisons.
pub struct DecimalValue {
    pub negative: bool,
    pub magnitude: nat,
}

/// Signed fixed-point number with 18 fractional digits and a 256-bit magnitude, held as four
/// little-endian 64-bit limbs and a sign byte (`1` for positive, `0` for negative).
#[derive(Clone, Copy, Debug, PartialEq, Eq)]
pub struct Decimal {
    pub(crate) limbs: [u64; 4],
    pub(crate) sign: i8,
}

/// Number of magnitude units in one whole.
pub open spec fn scale() -> nat {
    1_000_000_000_000_000_000
}

/// First magnitude that no longer fits in 256 bits.
pub open spec fn limit() -> nat {
    0x1_0000_0000_0000_0000_0000_0000_0000_0000_0000_0000_0000_0000_0000_0000_0000_0000nat
}

/// The magnitude that four little-endian limbs spell.
pub open spec fn limbs_value(limbs: Seq<u64>) -> nat {
    (limbs[0] as nat) + (limbs[1] as nat) * 0x1_0000_0000_0000_0000nat + (limbs[2] as nat)
        * 0x1_0000_0000_0000_0000_0000_0000_0000_0000nat + (limbs[3] as nat)
        * 0x1_0000_0000_0000_0000_0000_0000_0000_0000_0000_0000_0000_0000nat
}

impl View for Decimal {
    type V = DecimalValue;

    closed spec fn view(&self) -> DecimalValue {
        DecimalValue { negative: self.sign == 0, magnitude: limbs_value(self.limbs@) }
    }
}

impl DecimalValue {
    /// The number that the value stands for, in units of `10^-18`.
    pub open spec fn signed(self) -> int {
        if self.negative {
            -(self.magnitude as int)
        } else {
            self.magnitude as int
        }
    }

    /// True of both zeros.
    pub open spec fn is_zero(self) -> bool {
        self.magnitude == 0
    }

    /// The same magnitude with the other flag.
    pub open spec fn flipped(self) -> DecimalValue {
        DecimalValue { negative: !self.negative, magnitude: self.magnitude }
    }
}

/// Positive zero.
pub open spec fn zero_value() -> DecimalValue {
    DecimalValue { negative: false, magnitude: 0 }
}

/// The whole number `n`.
pub open spec fn whole(n: nat) -> DecimalValue {
    DecimalValue { negative: false, magnitude: n * scale() }
}

/// Sum: magnitudes add under a shared flag; under different flags the smaller magnitude is
/// taken from the larger, whose flag wins, and an exact cancellation gives positive zero.
pub open spec fn spec_add(x: DecimalValue, y: DecimalValue) -> DecimalValue {
    if x.negative == y.negative {
        DecimalValue { negative: x.negative, magnitude: x.magnitude + y.magnitude }
    } else if x.magnitude > y.magnitude {
        DecimalValue { negative: x.negative, magnitude: (x.magnitude - y.magnitude) as nat }
    } else {
        DecimalValue {
            negative: y.negative && y.magnitude != x.magnitude,
            magnitude: (y.magnitude - x.magnitude) as nat,
        }
    }
}

/// A sum stays in range unless two magnitudes under one flag add up to 256 bits or more.
pub open spec fn add_fits(x: DecimalValue, y: DecimalValue) -> bool {
    x.negative == y.negative ==> x.magnitude + y.magnitude < limit()
}

/// Difference: the sum with the flag of the second operand turned.
pub open spec fn spec_sub(x: DecimalValue, y: DecimalValue) -> DecimalValue {
    spec_add(x, y.flipped())
}

/// A difference stays in range where the sum with the turned flag does.
pub open spec fn sub_fits(x: DecimalValue, y: DecimalValue) -> bool {
    add_fits(x, y.flipped())
}

/// Product, cut to 18 fractional digits; negative exactly when the flags differ, also when
/// the cut product is zero.
pub open spec fn spec_mul(x: DecimalValue, y: DecimalValue) -> DecimalValue {
    DecimalValue {
        negative: x.negative != y.negative,
        magnitude: x.magnitude * y.magnitude / scale(),
    }
}

/// A product stays in range where, cut to 18 fractional digits, it needs no more than 256
/// bits.
pub open spec fn mul_fits(x: DecimalValue, y: DecimalValue) -> bool {
    x.magnitude * y.magnitude / scale() < limit()
}

/// Quotient, cut to 18 fractional digits. Division by positive one hands the dividend back
/// untouched; a quotient that is cut to zero is positive zero.
pub open spec fn spec_div(x: DecimalValue, y: DecimalValue) -> DecimalValue {
    if y == whole(1) {
        x
    } else if scale() * x.magnitude / y.magnitude == 0 {
        zero_value()
    } else {
        DecimalValue {
            negative: x.negative != y.negative,
            magnitude: scale() * x.magnitude / y.magnitude,
        }
    }
}

/// A quotient is defined and in range where the divisor is positive one, or is not zero and
/// leaves a quotient of no more than 256 bits.
pub open spec fn div_fits(x: DecimalValue, y: DecimalValue) -> bool {
    y == whole(1) || (y.magnitude != 0 && scale() * x.magnitude / y.magnitude < limit())
}

/// The order `<` of the decimal type. Between two negative values it holds also when they are
/// equal, and negative zero is below positive zero.
pub open spec fn spec_lt(x: DecimalValue, y: DecimalValue) -> bool {
    if x.negative != y.negative {
        x.negative
    } else if x.negative {
        x.magnitude >= y.magnitude
    } else {
        x.magnitude < y.magnitude
    }
}

/// The order `<=` of the decimal type.
pub open spec fn spec_le(x: DecimalValue, y: DecimalValue) -> bool {
    if x.negative != y.negative {
        x.negative
    } else if x.negative {
        x.magnitude >= y.magnitude
    } else {
        x.magnitude <= y.magnitude
    }
}

/// The order `>` of the decimal type. Positive zero is above negative zero.
pub open spec fn spec_gt(x: DecimalValue, y: DecimalValue) -> bool {
    if x.negative != y.negative {
        y.negative
    } else if x.negative {
        x.magnitude < y.magnitude
    } else {
        x.magnitude > y.magnitude
    }
}

/// `10^n`.
pub open spec fn pow10(n: nat) -> nat
    decreases n,
{
    if n == 0 {
        1
    } else {
        10 * pow10((n - 1) as nat)
    }
}

/// A whole number, positive zero included and negative zero left out.
pub open spec fn is_whole(e: DecimalValue) -> bool {
    e.magnitude % scale() == 0 && (e.magnitude == 0 ==> !e.negative)
}

/// The exponents for which a power of ten is in range: every whole number up to 59.
pub open spec fn ten_exponent_fits(e: DecimalValue) -> bool {
    is_whole(e) && (!e.negative ==> e.magnitude <= 59 * scale())
}

/// Ten raised to a whole exponent, cut to 18 fractional digits: exact from `10^-18` up, and
/// zero below.
pub open spec fn spec_ten_pow(e: DecimalValue) -> DecimalValue {
    let k = e.magnitude / scale();
    if !e.negative {
        DecimalValue { negative: false, magnitude: pow10(18 + k) }
    } else if k <= 18 {
        DecimalValue { negative: false, magnitude: pow10((18 - k) as nat) }
    } else {
        zero_value()
    }
}

/// A sum stands for the sum of the numbers.
pub proof fn lemma_add_signed(x: DecimalValue, y: DecimalValue)
    ensures
        spec_add(x, y).signed() == x.signed() + y.signed(),
{
}

/// A difference stands for the difference of the numbers.
pub proof fn lemma_sub_signed(x: DecimalValue, y: DecimalValue)
    ensures
        spec_sub(x, y).signed() == x.signed() - y.signed(),
{
}

/// Where `<` fails, the first number is at least the second.
pub proof fn lemma_not_lt_signed(x: DecimalValue, y: DecimalValue)
    requires
        !spec_lt(x, y),
    ensures
        x.signed() >= y.signed(),
{
}

/// Where `>` holds between numbers that are not both zero, the first number is the greater.
pub proof fn lemma_gt_signed(x: DecimalValue, y: DecimalValue)
    requires
        spec_gt(x, y),
        !(x.is_zero() && y.is_zero()),
    ensures
        x.signed() > y.signed(),
{
}

/// A product with a whole number is exact.
pub proof fn lemma_mul_whole(x: DecimalValue, n: nat)
    ensures
        spec_mul(x, whole(n)).magnitude == x.magnitude * n,
        spec_mul(x, whole(n)).negative == x.negative,
        spec_mul(x, whole(n)).signed() == x.signed() * n,
{
    let s = scale() as int;
    let m = x.magnitude as int;
    assert(m * (n * s) == (m * n) * s) by (nonlinear_arith);
    vstd::arithmetic::div_mod::lemma_div_multiples_vanish(m * n, s);
    assert(-(m * n) == (-m) * n) by (nonlinear_arith);
}

/// A quotient by a whole number above zero is the quotient of the magnitude, rounded down; it
/// is in range where the dividend is, and carries the flag of the dividend unless it is cut
/// to zero.
pub proof fn lemma_div_whole(x: DecimalValue, n: nat)
    requires
        n > 0,
    ensures
        spec_div(x, whole(n)).magnitude == x.magnitude / n,
        x.magnitude < limit() ==> div_fits(x, whole(n)),
        spec_div(x, whole(n)).magnitude != 0 ==> spec_div(x, whole(n)).negative == x.negative,
{
    let s = scale() as int;
    let m = x.magnitude as int;
    assert(n * s > 0) by (nonlinear_arith)
        requires
            n > 0,
            s > 0,
    ;
    assert(n * s == s * n) by (nonlinear_arith);
    assert(whole(n) == whole(1) <==> n == 1) by (nonlinear_arith)
        requires
            whole(n).magnitude == n * s,
            whole(1).magnitude == 1 * s,
            whole(n).negative == whole(1).negative,
            s > 0,
    ;
    vstd::arithmetic::div_mod::lemma_div_multiples_vanish_quotient(s, m, n as int);
    assert(m / (n as int) <= m) by (nonlinear_arith)
        requires
            m >= 0,
            n > 0,
    ;
}

/// `FPDecimal::from` for `u128`: the whole number `x`, positive.
#[verifier::external_body]
pub(crate) fn fp_from_u128(x: u128) -> (r: Decimal)
    ensures
        r@ == whole(x as nat),
{
    let f = FPDecimal::from(x);
    Decimal { limbs: f.num.0, sign: f.sign }
}

/// The conversion of `FPDecimal` into `u128`: the whole part of the magnitude, whatever the
/// flag. It panics when that part needs more than 128 bits.
#[verifier::external_body]
pub(crate) fn fp_to_u128(a: Decimal) -> (r: u128)
    requires
        a@.magnitude / scale() <= u128::MAX,
    ensures
        r == a@.magnitude / scale(),
{
    let mut x = FPDecimal::ZERO;
    x.num.0 = a.limbs;
    x.sign = a.sign;
    x.into()
}

/// `FPDecimal::is_zero`: true of a zero magnitude under either flag.
#[verifier::external_body]
pub(crate) fn fp_is_zero(a: Decimal) -> (r: bool)
    ensures
        r == a@.is_zero(),
{
    let mut x = FPDecimal::ZERO;
    x.num.0 = a.limbs;
    x.sign = a.sign;
    x.is_zero()
}

/// `FPDecimal`'s `+`: magnitudes under one flag are added and keep the flag; under different
/// flags the smaller magnitude is taken from the larger, whose flag the result has, and equal
/// magnitudes give positive zero. It panics when two magnitudes under one flag overflow 256
/// bits.
#[verifier::external_body]
pub(crate) fn fp_add(a: Decimal, b: Decimal) -> (r: Decimal)
    requires
        add_fits(a@, b@),
    ensures
        r@ == spec_add(a@, b@),
{
    let mut x = FPDecimal::ZERO;
    x.num.0 = a.limbs;
    x.sign = a.sign;
    let mut y = FPDecimal::ZERO;
    y.num.0 = b.limbs;
    y.sign = b.sign;
    let z = x + y;
    Decimal { limbs: z.num.0, sign: z.sign }
}

/// `FPDecimal`'s `-`: it turns the flag of the second operand and adds.
#[verifier::external_body]
pub(crate) fn fp_sub(a: Decimal, b: Decimal) -> (r: Decimal)
    requires
        sub_fits(a@, b@),
    ensures
        r@ == spec_sub(a@, b@),
{
    let mut x = FPDecimal::ZERO;
    x.num.0 = a.limbs;
    x.sign = a.sign;
    let mut y = FPDecimal::ZERO;
    y.num.0 = b.limbs;
    y.sign = b.sign;
    let z = x - y;
    Decimal { limbs: z.num.0, sign: z.sign }
}

/// `FPDecimal`'s `*`: the product of the magnitudes is cut to 18 fractional digits, and the
/// result is flagged negative exactly when the flags of the operands differ. It panics when
/// the cut product needs more than 256 bits.
#[verifier::external_body]
pub(crate) fn fp_mul(a: Decimal, b: Decimal) -> (r: Decimal)
    requires
        mul_fits(a@, b@),
    ensures
        r@ == spec_mul(a@, b@),
{
    let mut x = FPDecimal::ZERO;
    x.num.0 = a.limbs;
    x.sign = a.sign;
    let mut y = FPDecimal::ZERO;
    y.num.0 = b.limbs;
    y.sign = b.sign;
    let z = x * y;
    Decimal { limbs: z.num.0, sign: z.sign }
}

/// `FPDecimal`'s `/`: a divisor of positive one gives the dividend back; otherwise the
/// quotient of the magnitudes is computed in 512 bits and cut to 18 fractional digits, with
/// positive zero for a quotient cut to zero. It panics on a zero divisor and when the
/// quotient needs more than 256 bits.
#[verifier::external_body]
pub(crate) fn fp_div(a: Decimal, b: Decimal) -> (r: Decimal)
    requires
        div_fits(a@, b@),
    ensures
        r@ == spec_div(a@, b@),
{
    let mut x = FPDecimal::ZERO;
    x.num.0 = a.limbs;
    x.sign = a.sign;
    let mut y = FPDecimal::ZERO;
    y.num.0 = b.limbs;
    y.sign = b.sign;
    let z = x / y;
    Decimal { limbs: z.num.0, sign: z.sign }
}

/// `FPDecimal`'s `<`, as its `PartialOrd::lt` computes it: under different flags the negative
/// value is below, zeros included; two positive values go by their magnitudes; of two negative
/// values the first is below where its magnitude is at least the other's, equal values too.
#[verifier::external_body]
pub(crate) fn fp_lt(a: Decimal, b: Decimal) -> (r: bool)
    ensures
        r == spec_lt(a@, b@),
{
    let mut x = FPDecimal::ZERO;
    x.num.0 = a.limbs;
    x.sign = a.sign;
    let mut y = FPDecimal::ZERO;
    y.num.0 = b.limbs;
    y.sign = b.sign;
    x < y
}

/// `FPDecimal`'s `<=`, as its `PartialOrd::le` computes it: under different flags the negative
/// value is below, zeros included; two positive values go by their magnitudes; of two negative
/// values the first is below where its magnitude is at least the other's.
#[verifier::external_body]
pub(crate) fn fp_le(a: Decimal, b: Decimal) -> (r: bool)
    ensures
        r == spec_le(a@, b@),
{
    let mut x = FPDecimal::ZERO;
    x.num.0 = a.limbs;
    x.sign = a.sign;
    let mut y = FPDecimal::ZERO;
    y.num.0 = b.limbs;
    y.sign = b.sign;
    x <= y
}

/// `FPDecimal`'s `>`, as its `PartialOrd::gt` computes it: under different flags the positive
/// value is above, zeros included; two positive values go by their magnitudes; of two negative
/// values the first is above where its magnitude is the smaller.
#[verifier::external_body]
pub(crate) fn fp_gt(a: Decimal, b: Decimal) -> (r: bool)
    ensures
        r == spec_gt(a@, b@),
{
    let mut x = FPDecimal::ZERO;
    x.num.0 = a.limbs;
    x.sign = a.sign;
    let mut y = FPDecimal::ZERO;
    y.num.0 = b.limbs;
    y.sign = b.sign;
    x > y
}

/// `FPDecimal::pow` with base ten and a whole exponent. The function answers these from a
/// table: one for exponent zero, the exact power from `-18` to `59`, zero below `-18`. It
/// panics from exponent 60 up and on an exponent of negative zero.
#[verifier::external_body]
pub(crate) fn fp_ten_pow(exponent: Decimal) -> (r: Decimal)
    requires
        ten_exponent_fits(exponent@),
    ensures
        r@ == spec_ten_pow(exponent@),
{
    let mut e = FPDecimal::ZERO;
    e.num.0 = exponent.limbs;
    e.sign = exponent.sign;
    let z = FPDecimal::TEN.pow(e);
    Decimal { limbs: z.num.0, sign: z.sign }
}

impl Decimal {
    /// The sign byte is `0` or `1`.
    #[verifier::type_invariant]
    pub closed spec fn sign_is_flag(self) -> bool {
        self.sign == 0 || self.sign == 1
    }

    /// Positive zero.
    pub fn zero() -> (r: Decimal)
        ensures
            r@ == zero_value(),
    {
        Decimal { limbs: [0, 0, 0, 0], sign: 1 }
    }

    /// The whole number `x`.
    pub fn from_u128(x: u128) -> (r: Decimal)
        ensures
            r@ == whole(x as nat),
    {
        fp_from_u128(x)
    }

    /// Builds a decimal from its limbs and sign byte; `None` unless the byte is `0` or `1`.
    pub fn from_raw(limbs: [u64; 4], sign: i8) -> (r: Option<Decimal>)
        ensures
            r.is_some() <==> (sign == 0 || sign == 1),
            r matches Some(d) ==> d@ == (DecimalValue {
                negative: sign == 0,
                magnitude: limbs_value(limbs@),
            }),
    {
        if sign == 0 || sign == 1 {
            Some(Decimal { limbs, sign })
        } else {
            None
        }
    }

    /// The four little-endian limbs of the magnitude.
    pub fn raw_limbs(&self) -> (r: [u64; 4])
        ensures
            limbs_value(r@) == self@.magnitude,
    {
        self.limbs
    }

    /// The sign byte: `0` for a negative value, `1` otherwise.
    pub fn raw_sign(&self) -> (r: i8)
        ensures
            r == 0 || r == 1,
            (r == 0) == self@.negative,
    {
        proof {
            use_type_invariant(self);
        }
        self.sign
    }
}

} // verus!
