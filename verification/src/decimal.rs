//! Exact decimal amounts as the dashboard stores them: a sign, a 96-bit
//! magnitude and a power-of-ten scale, the same parts that make up a
//! `rust_decimal::Decimal`. Arithmetic, parsing, display and ordering are done
//! by `rust_decimal` itself through the trusted items at the end of this file.
use rust_decimal::Decimal;
use crate::text::decimal_text;
use vstd::prelude::*;

verus! {

/// The largest magnitude a decimal can carry: `2^96 - 1`.
pub const MAX_MAGNITUDE: u128 = 79228162514264337593543950335u128;

/// The largest scale (number of fractional digits) a decimal can carry.
pub const MAX_SCALE: u32 = 28u32;

/// A decimal number `(-1)^negative * magnitude / 10^scale`.
#[derive(Clone, Copy, Debug)]
pub struct Dec {
    pub negative: bool,
    pub magnitude: u128,
    pub scale: u32,
}

/// The parts of a decimal as mathematical values: sign, magnitude, scale.
pub type DecParts = (bool, nat, nat);

impl View for Dec {
    type V = DecParts;

    open spec fn view(&self) -> DecParts {
        (self.negative, self.magnitude as nat, self.scale as nat)
    }
}

/// `10^n`.
pub open spec fn pow10(n: nat) -> nat
    decreases n,
{
    if n == 0 {
        1
    } else {
        10 * pow10((n - 1) as nat)
    }
}

/// The signed integer behind the parts (the value times `10^scale`).
pub open spec fn signed_units(p: DecParts) -> int {
    if p.0 {
        -(p.1 as int)
    } else {
        p.1 as int
    }
}

/// Parts that a `Decimal` can hold.
pub open spec fn parts_wf(p: DecParts) -> bool {
    p.1 <= MAX_MAGNITUDE && p.2 <= MAX_SCALE
}

/// `p` denotes the value `units / 10^scale`.
pub open spec fn denotes(p: DecParts, units: int, scale: nat) -> bool {
    signed_units(p) * pow10(scale) == units * pow10(p.2)
}

/// `a` and `b` denote the same number.
pub open spec fn same_value(a: DecParts, b: DecParts) -> bool {
    signed_units(a) * pow10(b.2) == signed_units(b) * pow10(a.2)
}

/// `q` denotes exactly the quotient `a / b` (for a non-zero `b`).
pub open spec fn is_quotient(a: DecParts, b: DecParts, q: DecParts) -> bool {
    &&& !is_zero_value(b)
    &&& signed_units(q) * signed_units(b) * pow10(a.2) == signed_units(a) * pow10(q.2) * pow10(b.2)
}

/// The parts that denote the integer `units / 10^scale`.
pub open spec fn parts_of(units: int, scale: nat) -> DecParts {
    (units < 0, abs_int(units) as nat, scale)
}

/// Every power of ten is positive.
pub proof fn lemma_pow10_positive(n: nat)
    ensures
        pow10(n) > 0,
    decreases n,
{
    if n > 0 {
        lemma_pow10_positive((n - 1) as nat);
    }
}

/// When `a` and `b` denote the values written by `x` and `y` at scales `sx`
/// and `sy`, a quotient of those values is a quotient of `a` and `b`.
pub proof fn lemma_quotient_of_denoted(a: DecParts, b: DecParts, x: int, sx: nat, y: int, sy: nat, q: DecParts)
    requires
        denotes(a, x, sx),
        denotes(b, y, sy),
        is_quotient(parts_of(x, sx), parts_of(y, sy), q),
    ensures
        is_quotient(a, b, q),
{
    lemma_pow10_positive(a.2);
    lemma_pow10_positive(b.2);
    lemma_pow10_positive(sx);
    lemma_pow10_positive(sy);
    lemma_pow10_positive(q.2);
    let a1 = signed_units(a);
    let a2 = signed_units(b);
    let e1 = pow10(a.2);
    let e2 = pow10(b.2);
    let p1 = pow10(sx);
    let p2 = pow10(sy);
    let qq = signed_units(q);
    let pq = pow10(q.2);
    assert(signed_units(parts_of(x, sx)) == x);
    assert(signed_units(parts_of(y, sy)) == y);
    assert(y != 0);
    assert(a1 * p1 == x * e1);
    assert(a2 * p2 == y * e2);
    assert(qq * y * p1 == x * pq * p2);
    assert(a2 != 0) by (nonlinear_arith)
        requires
            a2 * p2 == y * e2,
            y != 0,
            e2 > 0,
    ;
    let k = p1 * p2;
    assert(k > 0) by (nonlinear_arith)
        requires
            k == p1 * p2,
            p1 > 0,
            p2 > 0,
    ;
    assert((qq * a2 * e1) * k == qq * (a2 * p2) * (e1 * p1)) by (nonlinear_arith)
        requires
            k == p1 * p2,
    ;
    assert(qq * (a2 * p2) * (e1 * p1) == qq * (y * e2) * (e1 * p1));
    assert(qq * (y * e2) * (e1 * p1) == (qq * y * p1) * (e1 * e2)) by (nonlinear_arith);
    assert((a1 * pq * e2) * k == (a1 * p1) * (pq * e2 * p2)) by (nonlinear_arith)
        requires
            k == p1 * p2,
    ;
    assert((a1 * p1) * (pq * e2 * p2) == (x * e1) * (pq * e2 * p2));
    assert((x * e1) * (pq * e2 * p2) == (x * pq * p2) * (e1 * e2)) by (nonlinear_arith);
    assert((qq * a2 * e1) * k == (a1 * pq * e2) * k);
    assert(qq * a2 * e1 == a1 * pq * e2) by (nonlinear_arith)
        requires
            (qq * a2 * e1) * k == (a1 * pq * e2) * k,
            k > 0,
    ;
}

/// The number denoted by `a` is strictly below the one denoted by `b`.
pub open spec fn value_lt(a: DecParts, b: DecParts) -> bool {
    signed_units(a) * pow10(b.2) < signed_units(b) * pow10(a.2)
}

/// The number denoted by `p` is zero.
pub open spec fn is_zero_value(p: DecParts) -> bool {
    p.1 == 0
}

/// The number denoted by `p` is above zero.
pub open spec fn is_positive_value(p: DecParts) -> bool {
    !p.0 && p.1 > 0
}

/// The number denoted by `p` is below zero.
pub open spec fn is_negative_value(p: DecParts) -> bool {
    p.0 && p.1 > 0
}

pub open spec fn max_nat(a: nat, b: nat) -> nat {
    if a >= b {
        a
    } else {
        b
    }
}

/// `a + b` written at the larger of the two scales.
pub open spec fn aligned_sum(a: DecParts, b: DecParts) -> int {
    let s = max_nat(a.2, b.2);
    signed_units(a) * pow10((s - a.2) as nat) + signed_units(b) * pow10((s - b.2) as nat)
}

/// `a - b` written at the larger of the two scales.
pub open spec fn aligned_difference(a: DecParts, b: DecParts) -> int {
    let s = max_nat(a.2, b.2);
    signed_units(a) * pow10((s - a.2) as nat) - signed_units(b) * pow10((s - b.2) as nat)
}

pub open spec fn abs_int(x: int) -> int {
    if x < 0 {
        -x
    } else {
        x
    }
}

/// The view of an optional decimal.
pub open spec fn opt_parts(o: Option<Dec>) -> Option<DecParts> {
    match o {
        Some(d) => Some(d@),
        None => None,
    }
}

/// What `Decimal::checked_add` returns on these parts.
pub uninterp spec fn decimal_checked_add(a: DecParts, b: DecParts) -> Option<DecParts>;

/// What `Decimal::checked_sub` returns on these parts.
pub uninterp spec fn decimal_checked_sub(a: DecParts, b: DecParts) -> Option<DecParts>;

/// What `Decimal::checked_mul` returns on these parts.
pub uninterp spec fn decimal_checked_mul(a: DecParts, b: DecParts) -> Option<DecParts>;

/// What `Decimal::checked_div` returns on these parts.
pub uninterp spec fn decimal_checked_div(a: DecParts, b: DecParts) -> Option<DecParts>;

/// What `Decimal::from_str` gives for this text (`None` for an error).
pub uninterp spec fn decimal_parse(text: Seq<char>) -> Option<DecParts>;

/// The decimal digits of a magnitude as `Decimal` writes them: none for zero.
pub open spec fn magnitude_digits(m: nat) -> Seq<char> {
    if m == 0 {
        Seq::empty()
    } else {
        decimal_text(m)
    }
}

/// `n` zero digits.
pub open spec fn zero_digits(n: nat) -> Seq<char> {
    Seq::new(n, |i: int| '0')
}

/// The magnitude's digits, padded on the left with zeros to at least `scale` digits.
pub open spec fn padded_digits(p: DecParts) -> Seq<char> {
    let d = magnitude_digits(p.1);
    if d.len() < p.2 {
        zero_digits((p.2 - d.len()) as nat) + d
    } else {
        d
    }
}

/// The sign `Decimal` writes: `-` when the sign flag is set.
pub open spec fn sign_text(p: DecParts) -> Seq<char> {
    if p.0 {
        "-"@
    } else {
        ""@
    }
}

/// The digits before the point (`0` when there are none).
pub open spec fn whole_digits(p: DecParts) -> Seq<char> {
    let d = padded_digits(p);
    if d.len() == p.2 {
        "0"@
    } else {
        d.take(d.len() - p.2)
    }
}

/// The `scale` digits after the point.
pub open spec fn fraction_digits(p: DecParts) -> Seq<char> {
    let d = padded_digits(p);
    d.skip(d.len() - p.2)
}

/// The text that `Decimal`'s `Display` writes for these parts: the sign, the
/// whole digits, and, for a non-zero scale, a point and all `scale` digits.
pub open spec fn decimal_display(p: DecParts) -> Seq<char> {
    if p.2 == 0 {
        sign_text(p) + whole_digits(p)
    } else {
        sign_text(p) + whole_digits(p) + "."@ + fraction_digits(p)
    }
}

/// The text that `Decimal`'s `Display` writes with a precision of two
/// (`{:.2}`): the fraction cut or padded with zeros to two digits.
pub open spec fn decimal_display_fixed2(p: DecParts) -> Seq<char> {
    sign_text(p) + whole_digits(p) + "."@ + (fraction_digits(p) + "00"@).take(2)
}

impl Dec {
    /// The parts fit in a `Decimal`.
    pub open spec fn wf(&self) -> bool {
        parts_wf(self@)
    }

    /// Zero with scale 0 (`Decimal::ZERO`).
    pub fn zero() -> (r: Dec)
        ensures
            r.wf(),
            r@ == (false, 0nat, 0nat),
    {
        Dec { negative: false, magnitude: 0, scale: 0 }
    }

    /// `num / 10^scale`, as `Decimal::new` builds it.
    pub fn new(num: i64, scale: u32) -> (r: Dec)
        requires
            scale <= MAX_SCALE,
        ensures
            r.wf(),
            r.negative == (num < 0),
            signed_units(r@) == num as int,
            r.scale == scale,
    {
        let magnitude: u128 = if num < 0 {
            ((-(num as i128)) as u128)
        } else {
            num as u128
        };
        Dec { negative: num < 0, magnitude, scale }
    }

    /// A whole quantity, as `Decimal::from(u32)` builds it.
    pub fn from_u32(n: u32) -> (r: Dec)
        ensures
            r.wf(),
            r@ == (false, n as nat, 0nat),
    {
        Dec { negative: false, magnitude: n as u128, scale: 0 }
    }

    /// Builds a decimal from its parts, when they fit.
    pub fn from_parts(negative: bool, magnitude: u128, scale: u32) -> (r: Option<Dec>)
        ensures
            r is Some <==> (magnitude <= MAX_MAGNITUDE && scale <= MAX_SCALE),
            r matches Some(d) ==> d@ == (negative, magnitude as nat, scale as nat) && d.wf(),
    {
        if magnitude <= MAX_MAGNITUDE && scale <= MAX_SCALE {
            Some(Dec { negative, magnitude, scale })
        } else {
            None
        }
    }

    /// Whether the parts fit a `Decimal`.
    pub fn is_valid(&self) -> (r: bool)
        ensures
            r == self.wf(),
    {
        self.magnitude <= MAX_MAGNITUDE && self.scale <= MAX_SCALE
    }

    /// The number is zero.
    pub fn is_zero(&self) -> (r: bool)
        ensures
            r == is_zero_value(self@),
    {
        self.magnitude == 0
    }

    /// The number is below zero.
    pub fn is_negative(&self) -> (r: bool)
        ensures
            r == is_negative_value(self@),
    {
        self.negative && self.magnitude > 0
    }

    /// The number is at or above zero (`d >= Decimal::ZERO`).
    pub fn is_non_negative(&self) -> (r: bool)
        ensures
            r == !is_negative_value(self@),
    {
        !self.is_negative()
    }
}

/// The sum by `Decimal::checked_add` (trusted, not proved): it returns
/// `decimal_checked_add` of the parts, a result fits a `Decimal`, and when the
/// exact sum, written at the larger scale, fits in 96 bits it returns `Some`
/// of exactly that sum (it only rescales or rounds when the sum does not fit).
#[verifier::external_body]
pub(crate) fn dec_checked_add(a: Dec, b: Dec) -> (r: Option<Dec>)
    requires
        a.wf(),
        b.wf(),
    ensures
        opt_parts(r) == decimal_checked_add(a@, b@),
        r matches Some(d) ==> d.wf(),
        abs_int(aligned_sum(a@, b@)) <= MAX_MAGNITUDE ==> r is Some && denotes(r.unwrap()@, aligned_sum(a@, b@), max_nat(a@.2, b@.2)),
{
    let mut x = Decimal::from_i128_with_scale(a.magnitude as i128, a.scale);
    x.set_sign_negative(a.negative);
    let mut y = Decimal::from_i128_with_scale(b.magnitude as i128, b.scale);
    y.set_sign_negative(b.negative);
    match x.checked_add(y) {
        Some(d) => Some(Dec { negative: d.is_sign_negative(), magnitude: d.mantissa().unsigned_abs(), scale: d.scale() }),
        None => None,
    }
}

/// The difference by `Decimal::checked_sub` (trusted, not proved): it returns
/// `decimal_checked_sub` of the parts, a result fits a `Decimal`, and when the
/// exact difference, written at the larger scale, fits in 96 bits it returns
/// `Some` of exactly that difference.
#[verifier::external_body]
pub(crate) fn dec_checked_sub(a: Dec, b: Dec) -> (r: Option<Dec>)
    requires
        a.wf(),
        b.wf(),
    ensures
        opt_parts(r) == decimal_checked_sub(a@, b@),
        r matches Some(d) ==> d.wf(),
        abs_int(aligned_difference(a@, b@)) <= MAX_MAGNITUDE ==> r is Some && denotes(r.unwrap()@, aligned_difference(a@, b@), max_nat(a@.2, b@.2)),
{
    let mut x = Decimal::from_i128_with_scale(a.magnitude as i128, a.scale);
    x.set_sign_negative(a.negative);
    let mut y = Decimal::from_i128_with_scale(b.magnitude as i128, b.scale);
    y.set_sign_negative(b.negative);
    match x.checked_sub(y) {
        Some(d) => Some(Dec { negative: d.is_sign_negative(), magnitude: d.mantissa().unsigned_abs(), scale: d.scale() }),
        None => None,
    }
}

/// The product by `Decimal::checked_mul` (trusted, not proved): it returns
/// `decimal_checked_mul` of the parts, a result fits a `Decimal`, and when the
/// product of the magnitudes fits in 96 bits and the summed scale is at most
/// 28 it returns `Some` of exactly the product.
#[verifier::external_body]
pub(crate) fn dec_checked_mul(a: Dec, b: Dec) -> (r: Option<Dec>)
    requires
        a.wf(),
        b.wf(),
    ensures
        opt_parts(r) == decimal_checked_mul(a@, b@),
        r matches Some(d) ==> d.wf(),
        (a@.1 * b@.1 <= MAX_MAGNITUDE && a@.2 + b@.2 <= MAX_SCALE) ==> r is Some && denotes(r.unwrap()@, signed_units(a@) * signed_units(b@), a@.2 + b@.2),
{
    let mut x = Decimal::from_i128_with_scale(a.magnitude as i128, a.scale);
    x.set_sign_negative(a.negative);
    let mut y = Decimal::from_i128_with_scale(b.magnitude as i128, b.scale);
    y.set_sign_negative(b.negative);
    match x.checked_mul(y) {
        Some(d) => Some(Dec { negative: d.is_sign_negative(), magnitude: d.mantissa().unsigned_abs(), scale: d.scale() }),
        None => None,
    }
}

/// The quotient by `Decimal::checked_div` (trusted, not proved): it returns
/// `decimal_checked_div` of the parts, a result fits a `Decimal`, division by
/// zero gives `None`, and when the exact quotient can be written as a
/// `Decimal` (some parts that fit denote it) it returns `Some` of exactly that
/// quotient (it only rounds once no more digits fit). How an inexact quotient
/// is rounded is left to the name.
#[verifier::external_body]
pub(crate) fn dec_checked_div(a: Dec, b: Dec) -> (r: Option<Dec>)
    requires
        a.wf(),
        b.wf(),
    ensures
        opt_parts(r) == decimal_checked_div(a@, b@),
        r matches Some(d) ==> d.wf(),
        is_zero_value(b@) ==> r is None,
        forall|q: DecParts| #[trigger] is_quotient(a@, b@, q) && parts_wf(q) ==> r is Some && same_value(r.unwrap()@, q),
{
    let mut x = Decimal::from_i128_with_scale(a.magnitude as i128, a.scale);
    x.set_sign_negative(a.negative);
    let mut y = Decimal::from_i128_with_scale(b.magnitude as i128, b.scale);
    y.set_sign_negative(b.negative);
    match x.checked_div(y) {
        Some(d) => Some(Dec { negative: d.is_sign_negative(), magnitude: d.mantissa().unsigned_abs(), scale: d.scale() }),
        None => None,
    }
}

/// `a < b` on `Decimal` (trusted, not proved): it orders by numeric value, so
/// the answer is `value_lt` of the parts.
#[verifier::external_body]
pub(crate) fn dec_lt(a: Dec, b: Dec) -> (r: bool)
    requires
        a.wf(),
        b.wf(),
    ensures
        r == value_lt(a@, b@),
{
    let mut x = Decimal::from_i128_with_scale(a.magnitude as i128, a.scale);
    x.set_sign_negative(a.negative);
    let mut y = Decimal::from_i128_with_scale(b.magnitude as i128, b.scale);
    y.set_sign_negative(b.negative);
    x < y
}

/// The text read by `Decimal::from_str` (`text.parse::<Decimal>()`), with the
/// error dropped (trusted, not proved): it returns `decimal_parse` of the
/// text, and a result fits a `Decimal`.
#[verifier::external_body]
pub(crate) fn dec_parse(text: &str) -> (r: Option<Dec>)
    ensures
        opt_parts(r) == decimal_parse(text@),
        r matches Some(d) ==> d.wf(),
{
    match text.parse::<Decimal>() {
        Ok(d) => Some(Dec { negative: d.is_sign_negative(), magnitude: d.mantissa().unsigned_abs(), scale: d.scale() }),
        Err(_) => None,
    }
}

/// The text `Decimal`'s `Display` writes (`to_string`; trusted, not proved):
/// `decimal_display` of the parts.
#[verifier::external_body]
pub(crate) fn dec_to_string(a: Dec) -> (r: String)
    requires
        a.wf(),
    ensures
        r@ == decimal_display(a@),
{
    let mut x = Decimal::from_i128_with_scale(a.magnitude as i128, a.scale);
    x.set_sign_negative(a.negative);
    x.to_string()
}

/// The text `Decimal`'s `Display` writes with a precision of two
/// (`format!("{:.2}", d)`; trusted, not proved): `decimal_display_fixed2` of
/// the parts.
#[verifier::external_body]
pub(crate) fn dec_to_string_fixed2(a: Dec) -> (r: String)
    requires
        a.wf(),
    ensures
        r@ == decimal_display_fixed2(a@),
{
    let mut x = Decimal::from_i128_with_scale(a.magnitude as i128, a.scale);
    x.set_sign_negative(a.negative);
    format!("{:.2}", x)
}

} // verus!
