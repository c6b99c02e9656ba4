//! Fixed-point decimal numbers in the representation of `rust_decimal`:
//! a sign, a 96-bit magnitude in three 32-bit words and a scale of at most 28.
//! Rounding, normalisation, multiplication and display are done by
//! `rust_decimal` itself.

use vstd::prelude::*;

verus! {

/// `10^n`.
pub open spec fn pow10(n: nat) -> nat
    decreases n,
{
    if n == 0 {
        1
    } else {
        10 * pow10((n - 1) as nat)
    }
}

pub proof fn lemma_pow10_positive(n: nat)
    ensures
        pow10(n) >= 1,
    decreases n,
{
    if n > 0 {
        lemma_pow10_positive((n - 1) as nat);
    }
}

/// 2^32.
pub open spec fn word() -> nat {
    0x1_0000_0000
}

/// Largest scale `rust_decimal` accepts.
pub open spec fn max_scale() -> nat {
    28
}

/// The mathematical content of a decimal: `(-1)^negative * magnitude / 10^scale`.
pub struct DecimalView {
    pub negative: bool,
    pub magnitude: nat,
    pub scale: nat,
}

/// A decimal number `mantissa / 10^scale`, as `rust_decimal` stores it.
#[derive(Clone, Copy, Debug)]
pub struct Decimal {
    mantissa: i128,
    scale: u32,
}

impl View for Decimal {
    type V = DecimalView;

    closed spec fn view(&self) -> DecimalView {
        DecimalView {
            negative: self.mantissa < 0,
            magnitude: (if self.mantissa < 0 {
                -self.mantissa
            } else {
                self.mantissa as int
            }) as nat,
            scale: self.scale as nat,
        }
    }
}

/// A view that a `Decimal` can take: magnitude below 2^96, scale within range,
/// no negative zero.
pub open spec fn valid_view(v: DecimalView) -> bool {
    &&& v.scale <= max_scale()
    &&& v.magnitude < word() * word() * word()
    &&& v.magnitude == 0 ==> !v.negative
}

/// The signed integer whose sign and magnitude `v` holds.
pub open spec fn signed_mantissa(v: DecimalView) -> int {
    if v.negative {
        -v.magnitude
    } else {
        v.magnitude as int
    }
}

/// `v` with a new magnitude and scale; the sign is kept unless the magnitude is zero.
pub open spec fn with_magnitude(v: DecimalView, magnitude: nat, scale: nat) -> DecimalView {
    DecimalView { negative: v.negative && magnitude != 0, magnitude, scale }
}

/// Rounding to `dp` fractional digits, halves away from zero.
pub open spec fn round_dp_spec(v: DecimalView, dp: nat) -> DecimalView {
    if v.scale <= dp {
        v
    } else {
        let unit = pow10((v.scale - dp) as nat);
        let q = v.magnitude / unit;
        let r = v.magnitude % unit;
        with_magnitude(v, if 2 * r >= unit { q + 1 } else { q }, dp)
    }
}

/// Trailing fractional zeros stripped; zero becomes a positive zero of scale 0.
pub open spec fn normalize_spec(v: DecimalView) -> DecimalView
    decreases v.scale,
{
    if v.magnitude == 0 {
        DecimalView { negative: false, magnitude: 0, scale: 0 }
    } else if v.scale == 0 || v.magnitude % 10 != 0 {
        v
    } else {
        normalize_spec(DecimalView { magnitude: v.magnitude / 10, scale: (v.scale - 1) as nat, ..v })
    }
}

/// Decimal digit character for `d < 10`.
pub open spec fn digit_char(d: nat) -> char {
    (('0' as u32) + d) as char
}

/// Decimal digits of `n`, most significant first; empty for zero.
pub open spec fn digits(n: nat) -> Seq<char>
    decreases n,
{
    if n == 0 {
        seq![]
    } else {
        digits(n / 10).push(digit_char(n % 10))
    }
}

/// `n` copies of `'0'`.
pub open spec fn zeros(n: nat) -> Seq<char> {
    Seq::new(n, |i: int| '0')
}

/// Digits of the magnitude, padded with leading zeros to at least `scale` digits.
pub open spec fn padded_digits(v: DecimalView) -> Seq<char> {
    let d = digits(v.magnitude);
    if d.len() < v.scale {
        zeros((v.scale - d.len()) as nat) + d
    } else {
        d
    }
}

/// Digits before the decimal point (empty when there are none).
pub open spec fn whole_digits(v: DecimalView) -> Seq<char> {
    let p = padded_digits(v);
    p.subrange(0, p.len() - v.scale)
}

/// Digits after the decimal point, exactly `scale` of them.
pub open spec fn fraction_digits(v: DecimalView) -> Seq<char> {
    let p = padded_digits(v);
    p.subrange(p.len() - v.scale, p.len() as int)
}

/// What `rust_decimal` prints for `v` with `precision` fractional digits: the
/// fraction is cut or padded with zeros, never rounded.
pub open spec fn display_spec(v: DecimalView, precision: nat) -> Seq<char> {
    let sign: Seq<char> = if v.negative {
        seq!['-']
    } else {
        seq![]
    };
    let whole = whole_digits(v);
    let int_part: Seq<char> = if whole.len() == 0 {
        seq!['0']
    } else {
        whole
    };
    let frac_part: Seq<char> = if precision == 0 {
        seq![]
    } else {
        seq!['.'] + (fraction_digits(v) + zeros(precision)).subrange(0, precision as int)
    };
    sign + int_part + frac_part
}

/// Whether `rust_decimal` can print `v` with `precision` fractional digits:
/// it builds the text in a buffer of 32 characters that holds the whole
/// digits, the point and at most 28 places (places beyond 28 are zeros
/// added outside it), and panics where they do not fit.
pub open spec fn display_fits(v: DecimalView, precision: nat) -> bool {
    let places = if precision > 28 {
        28
    } else {
        precision
    };
    places == 0 || whole_digits(v).len() + places + 1 <= 32
}

/// `Decimal::to_string`: as many fractional digits as the scale.
pub open spec fn to_string_spec(v: DecimalView) -> Seq<char> {
    display_spec(v, v.scale)
}

/// The product of two decimals as `rust_decimal` computes it.
pub uninterp spec fn decimal_product(a: DecimalView, b: DecimalView) -> DecimalView;

/// The exact product; zero is a positive zero of scale 0.
pub open spec fn exact_product(a: DecimalView, b: DecimalView) -> DecimalView {
    if a.magnitude == 0 || b.magnitude == 0 {
        DecimalView { negative: false, magnitude: 0, scale: 0 }
    } else {
        DecimalView {
            negative: a.negative != b.negative,
            magnitude: a.magnitude * b.magnitude,
            scale: a.scale + b.scale,
        }
    }
}

/// Whether the exact product is itself a decimal: 96 bits, 28 places.
pub open spec fn exact_product_fits(a: DecimalView, b: DecimalView) -> bool {
    &&& a.magnitude * b.magnitude < word() * word() * word()
    &&& a.scale + b.scale <= max_scale()
}

/// Whether the whole part of the product, plus one, stays below 2^96.
pub open spec fn product_in_range(a: DecimalView, b: DecimalView) -> bool {
    (a.magnitude * b.magnitude) / pow10(a.scale + b.scale) + 1 < word() * word() * word()
}

/// The value that `rust_decimal` reads from a text (`Decimal::from_str`),
/// or `None` where it reports an error.
pub uninterp spec fn decimal_from_text(s: Seq<char>) -> Option<DecimalView>;

impl Decimal {
    #[verifier::type_invariant]
    spec fn inv(self) -> bool {
        valid_view(self@)
    }

    /// Brings the fact that every decimal has a valid view into a proof.
    pub fn note_valid(&self)
        ensures
            valid_view(self@),
    {
        proof {
            use_type_invariant(self);
        }
    }

    /// `num / 10^scale` (`Decimal::from_i128_with_scale`).
    pub fn from_i128_with_scale(num: i128, scale: u32) -> (r: Decimal)
        requires
            scale <= 28,
            -(word() * word() * word()) < num < word() * word() * word(),
        ensures
            signed_mantissa(r@) == num,
            r@.scale == scale,
    {
        Decimal { mantissa: num, scale }
    }

    /// The signed mantissa: the value times `10^scale`.
    pub fn mantissa(&self) -> (r: i128)
        ensures
            r == signed_mantissa(self@),
    {
        self.mantissa
    }

    /// Zero with scale 0.
    pub fn zero() -> (r: Decimal)
        ensures
            r@ == (DecimalView { negative: false, magnitude: 0, scale: 0 }),
    {
        Decimal { mantissa: 0, scale: 0 }
    }

    /// The scale: how many digits follow the decimal point.
    pub fn scale(&self) -> (r: u32)
        ensures
            r == self@.scale,
    {
        self.scale
    }

    /// Whether the sign is negative.
    pub fn is_sign_negative(&self) -> (r: bool)
        ensures
            r == self@.negative,
    {
        self.mantissa < 0
    }

    /// Reads a decimal number from text (`rust_decimal`'s `Decimal::from_str`);
    /// the result is the value `decimal_from_text` names for the text, and
    /// `None` exactly where the parser reports an error. Nothing is said of
    /// the grammar it accepts.
    #[verifier::external_body]
    pub(crate) fn from_text(s: &str) -> (r: Option<Decimal>)
        ensures
            match r {
                Some(d) => decimal_from_text(s@) == Some(d@),
                None => decimal_from_text(s@) is None,
            },
    {
        match s.parse::<rust_decimal::Decimal>() {
            Ok(value) => Some(Decimal { mantissa: value.mantissa(), scale: value.scale() }),
            Err(_) => None,
        }
    }

    /// Rounds to `dp` fractional digits, halves away from zero
    /// (`round_dp_with_strategy` with `MidpointAwayFromZero`).
    #[verifier::external_body]
    pub(crate) fn round_dp_away_from_zero(&self, dp: u32) -> (r: Decimal)
        ensures
            r@ == round_dp_spec(self@, dp as nat),
    {
        let value = rust_decimal::Decimal::from_i128_with_scale(self.mantissa, self.scale);
        let rounded = value.round_dp_with_strategy(dp, rust_decimal::RoundingStrategy::MidpointAwayFromZero);
        Decimal { mantissa: rounded.mantissa(), scale: rounded.scale() }
    }

    /// Strips trailing fractional zeros (`Decimal::normalize`).
    #[verifier::external_body]
    pub(crate) fn normalize(&self) -> (r: Decimal)
        ensures
            r@ == normalize_spec(self@),
    {
        let value = rust_decimal::Decimal::from_i128_with_scale(self.mantissa, self.scale);
        let n = value.normalize();
        Decimal { mantissa: n.mantissa(), scale: n.scale() }
    }

    /// The decimal's text with as many fractional digits as its scale
    /// (`Decimal::to_string`).
    #[verifier::external_body]
    pub(crate) fn to_text(&self) -> (r: String)
        ensures
            r@ == to_string_spec(self@),
    {
        let value = rust_decimal::Decimal::from_i128_with_scale(self.mantissa, self.scale);
        value.to_string()
    }

    /// The decimal's text with exactly `precision` fractional digits, cut or
    /// padded (`format!("{:.precision$}", value)`). `rust_decimal` panics
    /// where the digits do not fit its buffer; such values are refused.
    #[verifier::external_body]
    pub(crate) fn to_text_with_precision(&self, precision: usize) -> (r: String)
        requires
            display_fits(self@, precision as nat),
        ensures
            r@ == display_spec(self@, precision as nat),
    {
        let value = rust_decimal::Decimal::from_i128_with_scale(self.mantissa, self.scale);
        format!("{value:.precision$}")
    }

    /// The product of two decimals (`Decimal * Decimal`): the value that
    /// `decimal_product` names, which is the exact product when that fits
    /// in 96 bits and 28 places. Where it does not fit, `rust_decimal`
    /// rounds to fewer places; how it rounds is not stated. The product is
    /// refused where its whole part, plus one for rounding, reaches 2^96
    /// (there `rust_decimal` can overflow and panic).
    #[verifier::external_body]
    pub(crate) fn mul(&self, other: &Decimal) -> (r: Decimal)
        requires
            product_in_range(self@, other@),
        ensures
            r@ == decimal_product(self@, other@),
            exact_product_fits(self@, other@) ==> r@ == exact_product(self@, other@),
    {
        let a = rust_decimal::Decimal::from_i128_with_scale(self.mantissa, self.scale);
        let b = rust_decimal::Decimal::from_i128_with_scale(other.mantissa, other.scale);
        let p = a * b;
        Decimal { mantissa: p.mantissa(), scale: p.scale() }
    }

}

} // verus!
