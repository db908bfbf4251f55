//! Decimal amounts and quantities. The library holds a decimal as the two
//! plain values that `rust_decimal` exposes (mantissa and scale); arithmetic,
//! reading and writing are left to `rust_decimal`.
use vstd::prelude::*;
use rust_decimal::Decimal;
use std::str::FromStr;

verus! {

/// Largest mantissa magnitude a `rust_decimal::Decimal` holds (2^96 - 1).
pub const MAX_MANTISSA: i128 = 79228162514264337593543950335i128;

/// Largest scale (digits after the point) a `rust_decimal::Decimal` holds.
pub const MAX_SCALE: u32 = 28u32;

pub open spec fn pow10(k: nat) -> int
    decreases k,
{
    if k == 0 {
        1
    } else {
        10 * pow10((k - 1) as nat)
    }
}

/// A decimal number `mantissa / 10^scale`.
#[derive(PartialEq, Eq, Structural, Clone, Copy, Debug)]
pub struct Dec {
    pub mantissa: i128,
    pub scale: u32,
}

impl Dec {
    /// What every `rust_decimal::Decimal` satisfies.
    pub open spec fn wf(self) -> bool {
        &&& -MAX_MANTISSA <= self.mantissa <= MAX_MANTISSA
        &&& self.scale <= MAX_SCALE
    }

    /// The value times 10^28: an integer, so that values of any scale compare.
    pub open spec fn value28(self) -> int {
        self.mantissa * pow10((MAX_SCALE - self.scale) as nat)
    }

    pub open spec fn parts(self) -> (i128, u32) {
        (self.mantissa, self.scale)
    }

    pub fn zero() -> (r: Dec)
        ensures
            r.wf(),
            r.mantissa == 0,
            r.scale == 0,
    {
        Dec { mantissa: 0, scale: 0 }
    }

    /// The whole number `n`.
    pub fn from_int(n: i64) -> (r: Dec)
        ensures
            r.wf(),
            r.mantissa == n,
            r.scale == 0,
    {
        Dec { mantissa: n as i128, scale: 0 }
    }

    pub fn is_negative(&self) -> (b: bool)
        ensures
            b == (self.mantissa < 0),
    {
        self.mantissa < 0
    }

    pub fn is_positive(&self) -> (b: bool)
        ensures
            b == (self.mantissa > 0),
    {
        self.mantissa > 0
    }

    pub fn is_zero(&self) -> (b: bool)
        ensures
            b == (self.mantissa == 0),
    {
        self.mantissa == 0
    }
}

pub proof fn lemma_pow10_positive(k: nat)
    ensures
        pow10(k) >= 1,
    decreases k,
{
    if k > 0 {
        lemma_pow10_positive((k - 1) as nat);
    }
}

/// A decimal's value has the sign of its mantissa.
pub proof fn lemma_value28_sign(d: Dec)
    requires
        d.wf(),
    ensures
        (d.value28() < 0) == (d.mantissa < 0),
        (d.value28() == 0) == (d.mantissa == 0),
        (d.value28() > 0) == (d.mantissa > 0),
{
    let p = pow10((MAX_SCALE - d.scale) as nat);
    lemma_pow10_positive((MAX_SCALE - d.scale) as nat);
    let m = d.mantissa as int;
    assert(m < 0 ==> m * p < 0) by (nonlinear_arith)
        requires
            p >= 1,
    ;
    assert(m > 0 ==> m * p > 0) by (nonlinear_arith)
        requires
            p >= 1,
    ;
    assert(m == 0 ==> m * p == 0) by (nonlinear_arith);
}

/// What `Decimal::from_str` reads from a text, as mantissa and scale.
pub uninterp spec fn decimal_parse(s: Seq<char>) -> Option<(i128, u32)>;

/// What `Decimal::checked_add` gives, as mantissa and scale.
pub uninterp spec fn decimal_checked_add(a: (i128, u32), b: (i128, u32)) -> Option<(i128, u32)>;

/// What `Decimal::checked_sub` gives, as mantissa and scale.
pub uninterp spec fn decimal_checked_sub(a: (i128, u32), b: (i128, u32)) -> Option<(i128, u32)>;

/// What `Decimal::checked_mul` gives, as mantissa and scale.
pub uninterp spec fn decimal_checked_mul(a: (i128, u32), b: (i128, u32)) -> Option<(i128, u32)>;

/// What `Decimal::checked_div` gives, as mantissa and scale.
pub uninterp spec fn decimal_checked_div(a: (i128, u32), b: (i128, u32)) -> Option<(i128, u32)>;

/// What `Decimal::round_dp` gives, as mantissa and scale.
pub uninterp spec fn decimal_round_dp(a: (i128, u32), dp: u32) -> (i128, u32);

/// What `Decimal`'s `Display` writes.
pub uninterp spec fn decimal_text(a: (i128, u32)) -> Seq<char>;

pub open spec fn opt_parts(o: Option<Dec>) -> Option<(i128, u32)> {
    match o {
        Some(d) => Some(d.parts()),
        None => None,
    }
}

pub open spec fn opt_wf(o: Option<Dec>) -> bool {
    match o {
        Some(d) => d.wf(),
        None => true,
    }
}

/// Exact sum of two decimals of one scale, when the mantissa sum fits.
pub open spec fn same_scale_sum_fits(a: Dec, b: Dec, m: int) -> bool {
    a.scale == b.scale && -MAX_MANTISSA <= m <= MAX_MANTISSA
}

/// `Decimal::from_str` (via `str::parse`): reads a decimal number.
/// Claims: the result is what `decimal_parse` names, and any decimal it gives
/// has a mantissa of at most 96 bits and a scale of at most 28, which every
/// `Decimal` has.
#[verifier::external_body]
pub(crate) fn parse_decimal(s: &str) -> (r: Option<Dec>)
    ensures
        opt_parts(r) == decimal_parse(s@),
        opt_wf(r),
{
    match Decimal::from_str(s) {
        Ok(d) => Some(Dec { mantissa: d.mantissa(), scale: d.scale() }),
        Err(_) => None,
    }
}

/// `Decimal::checked_add`. Claims: the result is what `decimal_checked_add`
/// names; adding zero gives the other operand unchanged (the source returns
/// it as is); with one scale and a mantissa sum within 96 bits the sum is
/// exact at that scale.
#[verifier::external_body]
pub(crate) fn dec_checked_add(a: &Dec, b: &Dec) -> (r: Option<Dec>)
    requires
        a.wf(),
        b.wf(),
    ensures
        opt_parts(r) == decimal_checked_add(a.parts(), b.parts()),
        opt_wf(r),
        a.mantissa == 0 ==> r == Some(*b),
        b.mantissa == 0 && a.mantissa != 0 ==> r == Some(*a),
        same_scale_sum_fits(*a, *b, a.mantissa + b.mantissa) ==> r == Some(
            Dec { mantissa: (a.mantissa + b.mantissa) as i128, scale: a.scale },
        ),
{
    let x = Decimal::from_i128_with_scale(a.mantissa, a.scale);
    let y = Decimal::from_i128_with_scale(b.mantissa, b.scale);
    x.checked_add(y).map(|d| Dec { mantissa: d.mantissa(), scale: d.scale() })
}

/// `Decimal::checked_sub`. Claims: the result is what `decimal_checked_sub`
/// names; subtracting zero gives the first operand unchanged; with one scale
/// and a mantissa difference within 96 bits the difference is exact.
#[verifier::external_body]
pub(crate) fn dec_checked_sub(a: &Dec, b: &Dec) -> (r: Option<Dec>)
    requires
        a.wf(),
        b.wf(),
    ensures
        opt_parts(r) == decimal_checked_sub(a.parts(), b.parts()),
        opt_wf(r),
        b.mantissa == 0 && a.mantissa != 0 ==> r == Some(*a),
        same_scale_sum_fits(*a, *b, a.mantissa - b.mantissa) ==> r == Some(
            Dec { mantissa: (a.mantissa - b.mantissa) as i128, scale: a.scale },
        ),
{
    let x = Decimal::from_i128_with_scale(a.mantissa, a.scale);
    let y = Decimal::from_i128_with_scale(b.mantissa, b.scale);
    x.checked_sub(y).map(|d| Dec { mantissa: d.mantissa(), scale: d.scale() })
}

/// `Decimal::checked_mul`. Claims only that the result is what
/// `decimal_checked_mul` names and is a valid decimal.
#[verifier::external_body]
pub(crate) fn dec_checked_mul(a: &Dec, b: &Dec) -> (r: Option<Dec>)
    requires
        a.wf(),
        b.wf(),
    ensures
        opt_parts(r) == decimal_checked_mul(a.parts(), b.parts()),
        opt_wf(r),
{
    let x = Decimal::from_i128_with_scale(a.mantissa, a.scale);
    let y = Decimal::from_i128_with_scale(b.mantissa, b.scale);
    x.checked_mul(y).map(|d| Dec { mantissa: d.mantissa(), scale: d.scale() })
}

/// `Decimal::checked_div`. Claims that the result is what
/// `decimal_checked_div` names and is a valid decimal, and that dividing by
/// zero gives `None` (the source's division reports division by zero).
#[verifier::external_body]
pub(crate) fn dec_checked_div(a: &Dec, b: &Dec) -> (r: Option<Dec>)
    requires
        a.wf(),
        b.wf(),
    ensures
        opt_parts(r) == decimal_checked_div(a.parts(), b.parts()),
        opt_wf(r),
        b.mantissa == 0 ==> r is None,
{
    let x = Decimal::from_i128_with_scale(a.mantissa, a.scale);
    let y = Decimal::from_i128_with_scale(b.mantissa, b.scale);
    x.checked_div(y).map(|d| Dec { mantissa: d.mantissa(), scale: d.scale() })
}

/// `Decimal::round_dp`. Claims that the result is what `decimal_round_dp`
/// names and is a valid decimal, and that a decimal with no more than `dp`
/// digits after the point comes back unchanged.
#[verifier::external_body]
pub(crate) fn dec_round_dp(a: &Dec, dp: u32) -> (r: Dec)
    requires
        a.wf(),
    ensures
        r.parts() == decimal_round_dp(a.parts(), dp),
        r.wf(),
        a.scale <= dp ==> r == *a,
{
    let d = Decimal::from_i128_with_scale(a.mantissa, a.scale).round_dp(dp);
    Dec { mantissa: d.mantissa(), scale: d.scale() }
}

/// `Decimal`'s `Display` (via `to_string`). Claims only that the text is what
/// `decimal_text` names.
#[verifier::external_body]
pub(crate) fn dec_text(a: &Dec) -> (r: String)
    requires
        a.wf(),
    ensures
        r@ == decimal_text(a.parts()),
{
    Decimal::from_i128_with_scale(a.mantissa, a.scale).to_string()
}

/// Compares two decimals by value (`Decimal`'s `Ord`): -1, 0 or 1.
#[verifier::external_body]
pub(crate) fn dec_order(a: &Dec, b: &Dec) -> (r: i8)
    requires
        a.wf(),
        b.wf(),
    ensures
        r == -1 <==> a.value28() < b.value28(),
        r == 0 <==> a.value28() == b.value28(),
        r == 1 <==> a.value28() > b.value28(),
{
    let x = Decimal::from_i128_with_scale(a.mantissa, a.scale);
    let y = Decimal::from_i128_with_scale(b.mantissa, b.scale);
    match x.cmp(&y) {
        std::cmp::Ordering::Less => -1,
        std::cmp::Ordering::Equal => 0,
        std::cmp::Ordering::Greater => 1,
    }
}

/// Whether `a` is less than `b` by value.
pub fn dec_less(a: &Dec, b: &Dec) -> (r: bool)
    requires
        a.wf(),
        b.wf(),
    ensures
        r == (a.value28() < b.value28()),
{
    dec_order(a, b) == -1
}

/// What `Iterator::sum` over decimals gives: the running `checked_add` from
/// zero, `None` once a step overflows.
pub open spec fn sum_parts(xs: Seq<Dec>) -> Option<(i128, u32)>
    decreases xs.len(),
{
    if xs.len() == 0 {
        Some((0i128, 0u32))
    } else {
        match sum_parts(xs.drop_last()) {
            Some(a) => decimal_checked_add(a, xs.last().parts()),
            None => None,
        }
    }
}

pub open spec fn all_wf(xs: Seq<Dec>) -> bool {
    forall|i: int| 0 <= i < xs.len() ==> #[trigger] xs[i].wf()
}

/// The sum of decimals, or `None` when it overflows.
pub fn dec_sum(xs: &Vec<Dec>) -> (r: Option<Dec>)
    requires
        all_wf(xs@),
    ensures
        opt_parts(r) == sum_parts(xs@),
        opt_wf(r),
{
    let mut acc: Option<Dec> = Some(Dec::zero());
    let mut i: usize = 0;
    assert(xs@.take(0) =~= Seq::<Dec>::empty());
    while i < xs.len()
        invariant
            i <= xs.len(),
            all_wf(xs@),
            opt_parts(acc) == sum_parts(xs@.take(i as int)),
            opt_wf(acc),
        decreases xs.len() - i,
    {
        assert(xs@.take(i + 1).drop_last() =~= xs@.take(i as int));
        assert(xs@.take(i + 1).last() == xs@[i as int]);
        assert(xs@[i as int].wf());
        acc = match acc {
            Some(a) => dec_checked_add(&a, &xs[i]),
            None => None,
        };
        i = i + 1;
    }
    assert(xs@.take(xs.len() as int) =~= xs@);
    acc
}

} // verus!
