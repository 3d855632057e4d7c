use vstd::prelude::*;

verus! {

// The extended-exponent scalar pairs a single-precision mantissa with a
// 32-bit binary exponent. The mantissa arithmetic runs on the backend;
// the exponent arithmetic, where range is at stake, is here.

/// Exponents of two operands brought to a common scale: the larger
/// exponent, and how far right each mantissa is shifted to reach it.
#[derive(Clone, Copy, Debug, PartialEq, Eq, Structural)]
pub struct CommonScale {
    pub exponent: i32,
    pub a_shift: u32,
    pub b_shift: u32,
}

pub open spec fn common_scale_spec(ae: i32, be: i32) -> CommonScale {
    let e = if ae >= be { ae } else { be };
    CommonScale { exponent: e, a_shift: (e - ae) as u32, b_shift: (e - be) as u32 }
}

/// The scale shared by the two operands of an addition, subtraction,
/// comparison or maximum.
pub fn common_scale(ae: i32, be: i32) -> (r: CommonScale)
    ensures
        r == common_scale_spec(ae, be),
        r.exponent as int == ae as int + r.a_shift as int,
        r.exponent as int == be as int + r.b_shift as int,
        r.a_shift == 0 || r.b_shift == 0,
{
    let e: i32 = if ae >= be { ae } else { be };
    let a: i64 = e as i64 - ae as i64;
    let b: i64 = e as i64 - be as i64;
    CommonScale { exponent: e, a_shift: a as u32, b_shift: b as u32 }
}

/// The exponent of a product, after its mantissa was renormalised by
/// `2^renorm`.
#[derive(Clone, Copy, Debug, PartialEq, Eq, Structural)]
pub enum ProductExponent {
    Exact(i32),
    /// Below the 32-bit range: the product is zero.
    Underflow,
    /// Above the 32-bit range.
    Overflow,
}

pub open spec fn product_exponent_spec(ae: i32, be: i32, renorm: i32) -> ProductExponent {
    let e = ae as int + be as int + renorm as int;
    if e < i32::MIN {
        ProductExponent::Underflow
    } else if e > i32::MAX {
        ProductExponent::Overflow
    } else {
        ProductExponent::Exact(e as i32)
    }
}

/// `ae + be + renorm`, or which side of the 32-bit range it falls on.
pub fn product_exponent(ae: i32, be: i32, renorm: i32) -> (r: ProductExponent)
    ensures
        r == product_exponent_spec(ae, be, renorm),
{
    let e: i64 = ae as i64 + be as i64 + renorm as i64;
    if e < i32::MIN as i64 {
        ProductExponent::Underflow
    } else if e > i32::MAX as i64 {
        ProductExponent::Overflow
    } else {
        ProductExponent::Exact(e as i32)
    }
}

/// The power of two by which the cubic coefficient of the series may at
/// most trail the quadratic one: `K` in the bound `1000 · 2^(exp(z) + K)`.
/// A larger value is more conservative (fewer iterations skipped); a
/// smaller one risks visible artefacts.
pub const SERIES_MARGIN: i32 = 100;

/// The exponent of the series validity bound for a zoom with binary
/// exponent `ez` (`None` for zero): `exp(z) + K`, or which side of the
/// 32-bit range it falls on.
pub fn validity_bound_exponent(ez: Option<i32>) -> (r: ProductExponent)
    ensures
        r == product_exponent_spec(
            match ez {
                Some(v) => v,
                None => 0i32,
            },
            SERIES_MARGIN,
            0,
        ),
{
    let z: i32 = match ez {
        Some(v) => v,
        None => 0,
    };
    product_exponent(z, SERIES_MARGIN, 0)
}

/// Exponent arithmetic of the extended-exponent scalar is total: every pair
/// of operands has a common scale whose shifts fit in 32 bits, and every
/// product exponent is either exact or a definite underflow or overflow. For
/// operands within `±2^29` and a renormalisation within the `f32` range of
/// `log2` (`±300`), the product exponent is always exact.
pub proof fn exponent_arithmetic_is_total(ae: i32, be: i32, renorm: i32)
    ensures
        ({
            let c = common_scale_spec(ae, be);
            &&& c.exponent as int == ae as int + c.a_shift as int
            &&& c.exponent as int == be as int + c.b_shift as int
        }),
        match product_exponent_spec(ae, be, renorm) {
            ProductExponent::Exact(e) => e as int == ae as int + be as int + renorm as int,
            ProductExponent::Underflow => (ae as int + be as int + renorm as int) < i32::MIN,
            ProductExponent::Overflow => (ae as int + be as int + renorm as int) > i32::MAX,
        },
        (-0x2000_0000 <= ae <= 0x2000_0000 && -0x2000_0000 <= be <= 0x2000_0000 && -300 <= renorm <= 300)
            ==> product_exponent_spec(ae, be, renorm) is Exact,
{
}

} // verus!
