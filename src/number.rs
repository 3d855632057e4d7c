use vstd::prelude::*;
use crate::config::ConfigError;
use crate::precision::{
    literal_digits, literal_precision, precision_for_digits, raise_precision, required_precision_spec,
    PRECISION_HEADROOM,
};
use malachite::base::rounding_modes::RoundingMode;
use malachite::{Float, Rational};
use vstd::string::StringSliceAdditionalSpecFns;

verus! {

#[verifier::external_type_specification]
#[verifier::external_body]
pub struct ExFloat(malachite::Float);

#[verifier::external_type_specification]
#[verifier::external_body]
pub struct ExRational(malachite::Rational);

/// Whether malachite reads `s` as a number in scientific notation.
pub uninterp spec fn sci_string_parses(s: Seq<char>) -> bool;

/// The rational malachite reads `s` as, where it reads one.
pub uninterp spec fn sci_rational(s: Seq<char>) -> Rational;

/// `x` rounded to nearest at `prec` bits.
pub uninterp spec fn rounded_nearest(x: Rational, prec: u64) -> Float;

/// The binary exponent of `x`: `floor(log2 |x|) + 1` for a finite nonzero
/// value, `None` for zero, infinities and NaN.
pub uninterp spec fn exponent_of(x: Float) -> Option<i32>;

/// Largest magnitude of a `Float` exponent.
pub const MAX_EXPONENT: i32 = 0x3fff_ffff;

/// Relies on `Rational::from_sci_string_simplest`: the simplest rational
/// that rounds to the decimal literal `s`, or `None` when `s` is not one.
/// Whether it is one depends on the text alone.
#[verifier::external_body]
fn parse_sci(s: &str) -> (r: Option<Rational>)
    ensures
        r is Some == sci_string_parses(s@),
        r is Some ==> r == Some(sci_rational(s@)),
{
    Rational::from_sci_string_simplest(s)
}

/// Relies on `Float::from_rational_prec_round` with `Nearest`: `x` rounded
/// to `prec` bits. It panics only when `prec` is zero.
#[verifier::external_body]
fn round_rational(x: Rational, prec: u64) -> (r: Float)
    requires
        prec > 0,
    ensures
        r == rounded_nearest(x, prec),
{
    Float::from_rational_prec_round(x, prec, RoundingMode::Nearest).0
}

/// `Float::get_exponent`: the binary exponent of a finite nonzero value,
/// `None` for zero, infinities and NaN; always within `±(2^30 − 1)`.
pub assume_specification[ malachite::Float::get_exponent ](x: &malachite::Float) -> (r: Option<i32>)
    ensures
        r == exponent_of(*x),
        r matches Some(e) ==> -MAX_EXPONENT <= e <= MAX_EXPONENT,
;

/// Reads a decimal literal of the configuration as an arbitrary-precision
/// real, at the precision `literal_precision` gives it.
pub fn float_from_str(s: &str) -> (r: Result<Float, ConfigError>)
    ensures
        match literal_digits(s.spec_bytes()) {
            None => r == Err::<Float, ConfigError>(ConfigError::MalformedDecimal),
            Some(d) => if precision_for_digits(d) > u64::MAX {
                r == Err::<Float, ConfigError>(ConfigError::PrecisionTooLarge)
            } else if sci_string_parses(s@) {
                r == Ok::<Float, ConfigError>(rounded_nearest(sci_rational(s@), precision_for_digits(d) as u64))
            } else {
                r == Err::<Float, ConfigError>(ConfigError::MalformedDecimal)
            },
        },
{
    let prec = match literal_precision(s) {
        Ok(p) => p,
        Err(e) => {
            return Err(e);
        },
    };
    match parse_sci(s) {
        Some(x) => Ok(round_rational(x, prec)),
        None => Err(ConfigError::MalformedDecimal),
    }
}

/// The precision after the view moved to centre `(x, y)` and zoom `z`:
/// `current`, raised to `64 + |exp(z)| + max(|exp(x)|, |exp(y)|)` when that
/// is more.
pub fn view_precision(current: u64, z: &Float, x: &Float, y: &Float) -> (r: u64)
    ensures
        r == if required_precision_spec(exponent_of(*z), exponent_of(*x), exponent_of(*y)) > current {
            required_precision_spec(exponent_of(*z), exponent_of(*x), exponent_of(*y))
        } else {
            current as int
        },
        r >= PRECISION_HEADROOM,
{
    let ez = z.get_exponent();
    let ex = x.get_exponent();
    let ey = y.get_exponent();
    raise_precision(current, ez, ex, ey)
}

} // verus!
