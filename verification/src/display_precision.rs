//! How many decimal places prices and quantities show, by asset category.

use vstd::prelude::*;
use crate::decimal::{
    digit_char, digits, display_fits, display_spec, fraction_digits, normalize_spec, padded_digits,
    round_dp_spec, to_string_spec, whole_digits, zeros, Decimal, DecimalView,
};
use crate::parse::is_ascii_digit;

verus! {

/// Asset category of a trading vehicle.
#[derive(Clone, Copy, Debug, PartialEq, Eq, Structural)]
pub enum TradingVehicleCategory {
    Stock,
    Etf,
    Bond,
    Crypto,
    Fiat,
}

/// The lower-case name a category is shown by.
pub open spec fn category_text(c: TradingVehicleCategory) -> Seq<char> {
    match c {
        TradingVehicleCategory::Stock => "stock"@,
        TradingVehicleCategory::Etf => "etf"@,
        TradingVehicleCategory::Bond => "bond"@,
        TradingVehicleCategory::Crypto => "crypto"@,
        TradingVehicleCategory::Fiat => "fiat"@,
    }
}

/// The lower-case name of `c`.
pub fn category_display(c: TradingVehicleCategory) -> (r: &'static str)
    ensures
        r@ == category_text(c),
{
    match c {
        TradingVehicleCategory::Stock => "stock",
        TradingVehicleCategory::Etf => "etf",
        TradingVehicleCategory::Bond => "bond",
        TradingVehicleCategory::Crypto => "crypto",
        TradingVehicleCategory::Fiat => "fiat",
    }
}

/// Decimal places used to show prices and quantities of one category.
#[derive(Clone, Copy, Debug, PartialEq, Eq, Structural)]
pub struct DisplayPrecision {
    pub price_dp: u32,
    pub quantity_dp: u32,
    pub trim_price: bool,
}

/// The display rule of each category: crypto keeps eight places and trims
/// trailing zeros from prices, bonds quote to thousandths, stocks and ETFs
/// show cents and up to six places of fractional quantity, fiat two places.
pub open spec fn precision_for(category: TradingVehicleCategory) -> DisplayPrecision {
    match category {
        TradingVehicleCategory::Crypto => DisplayPrecision { price_dp: 8, quantity_dp: 8, trim_price: true },
        TradingVehicleCategory::Bond => DisplayPrecision { price_dp: 3, quantity_dp: 3, trim_price: false },
        TradingVehicleCategory::Stock | TradingVehicleCategory::Etf => DisplayPrecision {
            price_dp: 2,
            quantity_dp: 6,
            trim_price: false,
        },
        TradingVehicleCategory::Fiat => DisplayPrecision { price_dp: 2, quantity_dp: 2, trim_price: false },
    }
}

/// How each category is shown: ETFs as stocks, prices to cents with
/// fractional shares to six places; crypto with up to eight places for
/// both, the price without trailing zeros (the only category so shown);
/// bonds to thousandths; fiat to cents for both.
pub proof fn lemma_precision_by_category(category: TradingVehicleCategory)
    ensures
        precision_for(TradingVehicleCategory::Etf) == precision_for(TradingVehicleCategory::Stock),
        precision_for(category).trim_price <==> category == TradingVehicleCategory::Crypto,
        category == TradingVehicleCategory::Stock ==> precision_for(category).price_dp == 2 && precision_for(category).quantity_dp == 6,
        category == TradingVehicleCategory::Crypto ==> precision_for(category).price_dp == 8 && precision_for(category).quantity_dp == 8,
        category == TradingVehicleCategory::Bond ==> precision_for(category).price_dp == 3 && precision_for(category).quantity_dp == 3,
        category == TradingVehicleCategory::Fiat ==> precision_for(category).price_dp == 2 && precision_for(category).quantity_dp == 2,
{
}

/// `value` rounded (halves away from zero) to `dp` places and printed with exactly `dp` places.
pub open spec fn fixed_text(value: DecimalView, dp: nat) -> Seq<char> {
    display_spec(round_dp_spec(value, dp), dp)
}

/// `value` rounded (halves away from zero) to `dp` places, printed without trailing zeros.
pub open spec fn trimmed_text(value: DecimalView, dp: nat) -> Seq<char> {
    to_string_spec(normalize_spec(round_dp_spec(value, dp)))
}

proof fn lemma_digit_char(d: nat)
    requires
        d < 10,
    ensures
        is_ascii_digit(digit_char(d)),
        d > 0 ==> digit_char(d) != '0',
        digit_char(d) != '.',
{
}

proof fn lemma_digits_are_digits(n: nat)
    ensures
        forall|i: int| 0 <= i < digits(n).len() ==> is_ascii_digit(#[trigger] digits(n)[i]),
        n > 0 ==> digits(n).len() > 0 && digits(n).last() == digit_char(n % 10),
    decreases n,
{
    if n > 0 {
        lemma_digits_are_digits(n / 10);
        lemma_digit_char(n % 10);
        let d = digits(n / 10);
        assert(digits(n) == d.push(digit_char(n % 10)));
        assert forall|i: int| 0 <= i < digits(n).len() implies is_ascii_digit(#[trigger] digits(n)[i]) by {
            if i < d.len() {
                assert(digits(n)[i] == d[i]);
            }
        }
    }
}

proof fn lemma_padded_digits(v: DecimalView)
    ensures
        forall|i: int| 0 <= i < padded_digits(v).len() ==> is_ascii_digit(#[trigger] padded_digits(v)[i]),
        padded_digits(v).len() >= v.scale,
        v.magnitude > 0 ==> padded_digits(v).len() > 0 && padded_digits(v).last() == digit_char(v.magnitude % 10),
{
    lemma_digits_are_digits(v.magnitude);
    lemma_digit_char(0);
    let d = digits(v.magnitude);
    if d.len() < v.scale {
        let z = zeros((v.scale - d.len()) as nat);
        assert(padded_digits(v) == z + d);
        assert forall|i: int| 0 <= i < padded_digits(v).len() implies is_ascii_digit(#[trigger] padded_digits(v)[i]) by {
            if i < z.len() {
                assert(padded_digits(v)[i] == '0');
            } else {
                assert(padded_digits(v)[i] == d[i - z.len()]);
            }
        }
    }
}

/// The shape of a printed decimal: with `p > 0` places, a point `p`
/// characters from the end followed by `p` digits; with none, no point.
proof fn lemma_display_shape(v: DecimalView, p: nat)
    ensures
        p > 0 ==> {
            let t = display_spec(v, p);
            &&& t.len() > p
            &&& t[t.len() - p - 1] == '.'
            &&& forall|i: int| t.len() - p <= i < t.len() ==> is_ascii_digit(#[trigger] t[i])
        },
        p == 0 ==> forall|i: int| 0 <= i < display_spec(v, p).len() ==> #[trigger] display_spec(v, p)[i] != '.',
        p > 0 && p == v.scale ==> display_spec(v, p).last() == padded_digits(v).last(),
{
    lemma_padded_digits(v);
    lemma_digit_char(0);
    let t = display_spec(v, p);
    let sign: Seq<char> = if v.negative { seq!['-'] } else { seq![] };
    let whole = whole_digits(v);
    let int_part: Seq<char> = if whole.len() == 0 { seq!['0'] } else { whole };
    let pd = padded_digits(v);
    let fd = fraction_digits(v);
    assert(fd.len() == v.scale);
    assert forall|i: int| 0 <= i < whole.len() implies is_ascii_digit(#[trigger] whole[i]) by {
        assert(whole[i] == pd[i]);
    }
    assert forall|i: int| 0 <= i < fd.len() implies is_ascii_digit(#[trigger] fd[i]) by {
        assert(fd[i] == pd[pd.len() - v.scale + i]);
    }
    if p == 0 {
        assert(t == sign + int_part);
        assert forall|i: int| 0 <= i < t.len() implies #[trigger] t[i] != '.' by {
            if i < sign.len() {
                assert(t[i] == '-');
            } else {
                assert(t[i] == int_part[i - sign.len()]);
            }
        }
    } else {
        let tail = (fd + zeros(p)).subrange(0, p as int);
        assert(t == sign + int_part + (seq!['.'] + tail));
        let base: int = (sign.len() + int_part.len()) as int;
        assert(t.len() == base + 1 + p);
        assert(t[base] == '.');
        assert forall|i: int| t.len() - p <= i < t.len() implies is_ascii_digit(#[trigger] t[i]) by {
            let k = i - base - 1;
            assert(t[i] == tail[k]);
            if k < fd.len() {
                assert(tail[k] == fd[k]);
            } else {
                assert(tail[k] == zeros(p)[k - fd.len()]);
            }
        }
        if p == v.scale {
            assert(tail[p - 1] == fd[p - 1]);
            assert(fd[p - 1] == pd[pd.len() - 1]);
        }
    }
}

/// A price fixed to `dp` places ends in a point and exactly `dp` digits
/// (no point at all when `dp` is zero): stock prices always show cents.
pub proof fn lemma_fixed_text_places(value: DecimalView, dp: nat)
    ensures
        dp > 0 ==> {
            let t = fixed_text(value, dp);
            &&& t.len() > dp
            &&& t[t.len() - dp - 1] == '.'
            &&& forall|i: int| t.len() - dp <= i < t.len() ==> is_ascii_digit(#[trigger] t[i])
        },
        dp == 0 ==> forall|i: int| 0 <= i < fixed_text(value, dp).len() ==> #[trigger] fixed_text(value, dp)[i] != '.',
{
    lemma_display_shape(round_dp_spec(value, dp), dp);
}

/// The number of places a trimmed value keeps.
pub open spec fn trimmed_places(value: DecimalView, dp: nat) -> nat {
    normalize_spec(round_dp_spec(value, dp)).scale
}

proof fn lemma_normalize_shape(v: DecimalView)
    ensures
        normalize_spec(v).scale <= v.scale,
        normalize_spec(v).magnitude == 0 ==> normalize_spec(v).scale == 0,
        normalize_spec(v).scale > 0 ==> normalize_spec(v).magnitude % 10 != 0,
    decreases v.scale,
{
    if v.magnitude != 0 && v.scale != 0 && v.magnitude % 10 == 0 {
        lemma_normalize_shape(DecimalView { magnitude: v.magnitude / 10, scale: (v.scale - 1) as nat, ..v });
    }
}

/// A trimmed value keeps at most `dp` places, and when it keeps any, the
/// last one is not a zero: quantities show the places they need and no
/// more.
pub proof fn lemma_trimmed_text_places(value: DecimalView, dp: nat)
    ensures
        trimmed_places(value, dp) <= dp,
        trimmed_places(value, dp) > 0 ==> {
            let t = trimmed_text(value, dp);
            let k = trimmed_places(value, dp);
            &&& t.len() > k
            &&& t[t.len() - k - 1] == '.'
            &&& forall|i: int| t.len() - k <= i < t.len() ==> is_ascii_digit(#[trigger] t[i])
            &&& t.last() != '0'
        },
        trimmed_places(value, dp) == 0 ==> forall|i: int| 0 <= i < trimmed_text(value, dp).len() ==> #[trigger] trimmed_text(value, dp)[i] != '.',
{
    let r = round_dp_spec(value, dp);
    let w = normalize_spec(r);
    lemma_normalize_shape(r);
    lemma_display_shape(w, w.scale);
    lemma_padded_digits(w);
    if w.scale > 0 {
        lemma_digit_char(w.magnitude % 10);
    }
}

/// How a price is shown under a precision rule.
pub open spec fn price_text(p: DisplayPrecision, value: DecimalView) -> Seq<char> {
    if p.trim_price {
        trimmed_text(value, p.price_dp as nat)
    } else {
        fixed_text(value, p.price_dp as nat)
    }
}

/// Whether `value`, rounded to `dp` places, can be printed with `dp` places.
pub open spec fn fixed_fits(value: DecimalView, dp: nat) -> bool {
    display_fits(round_dp_spec(value, dp), dp)
}

/// Whether a price can be shown under a precision rule: a price shown with
/// fixed places must fit the printer's buffer.
pub open spec fn price_fits(p: DisplayPrecision, value: DecimalView) -> bool {
    !p.trim_price ==> fixed_fits(value, p.price_dp as nat)
}

/// How a quantity is shown under a precision rule.
pub open spec fn quantity_text(p: DisplayPrecision, value: DecimalView) -> Seq<char> {
    trimmed_text(value, p.quantity_dp as nat)
}

impl DisplayPrecision {
    /// The display rule of `category`.
    pub fn for_category(category: TradingVehicleCategory) -> (r: Self)
        ensures
            r == precision_for(category),
    {
        match category {
            TradingVehicleCategory::Crypto => Self { price_dp: 8, quantity_dp: 8, trim_price: true },
            TradingVehicleCategory::Bond => Self { price_dp: 3, quantity_dp: 3, trim_price: false },
            TradingVehicleCategory::Stock | TradingVehicleCategory::Etf => Self {
                price_dp: 2,
                quantity_dp: 6,
                trim_price: false,
            },
            TradingVehicleCategory::Fiat => Self { price_dp: 2, quantity_dp: 2, trim_price: false },
        }
    }

    /// A price shown under this rule.
    pub fn format_price(self, value: Decimal) -> (r: String)
        requires
            price_fits(self, value@),
        ensures
            r@ == price_text(self, value@),
    {
        if self.trim_price {
            trim_decimal(value, self.price_dp)
        } else {
            fixed_decimal(value, self.price_dp)
        }
    }

    /// A quantity shown under this rule.
    pub fn format_quantity(self, value: Decimal) -> (r: String)
        ensures
            r@ == quantity_text(self, value@),
    {
        trim_decimal(value, self.quantity_dp)
    }
}

/// A price of `category` as the command-line tool shows it.
pub fn format_price(category: TradingVehicleCategory, value: Decimal) -> (r: String)
    requires
        price_fits(precision_for(category), value@),
    ensures
        r@ == price_text(precision_for(category), value@),
{
    DisplayPrecision::for_category(category).format_price(value)
}

/// A quantity of `category` as the command-line tool shows it.
pub fn format_quantity(category: TradingVehicleCategory, value: Decimal) -> (r: String)
    ensures
        r@ == quantity_text(precision_for(category), value@),
{
    DisplayPrecision::for_category(category).format_quantity(value)
}

/// `value` rounded to `decimal_places` and printed with exactly that many places.
pub fn fixed_decimal(value: Decimal, decimal_places: u32) -> (r: String)
    requires
        fixed_fits(value@, decimal_places as nat),
    ensures
        r@ == fixed_text(value@, decimal_places as nat),
{
    let rounded = value.round_dp_away_from_zero(decimal_places);
    rounded.to_text_with_precision(decimal_places as usize)
}

/// `value` rounded to `decimal_places`, printed without trailing zeros.
pub fn trim_decimal(value: Decimal, decimal_places: u32) -> (r: String)
    ensures
        r@ == trimmed_text(value@, decimal_places as nat),
{
    value.round_dp_away_from_zero(decimal_places).normalize().to_text()
}

} // verus!
