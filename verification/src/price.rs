//! Decimal prices. A price is a signed 96-bit number of units together with
//! the count of digits after the decimal point; arithmetic, comparison and
//! printing are done by `rust_decimal`.

use rust_decimal::Decimal;
use vstd::prelude::*;

verus! {

/// Largest magnitude of a price's units: 2^96 - 1.
pub const MAX_UNITS: i128 = 0xFFFF_FFFF_FFFF_FFFF_FFFF_FFFF;

/// Largest count of digits after the decimal point.
pub const MAX_PLACES: u32 = 28;

/// Ten to the power `n`.
pub open spec fn pow10(n: nat) -> int
    decreases n,
{
    if n == 0 {
        1
    } else {
        10 * pow10((n - 1) as nat)
    }
}

/// What `rust_decimal` gives for the first decimal minus the second, each
/// given by its units and its places: `None` where the difference overflows.
pub uninterp spec fn decimal_difference(a_units: int, a_places: nat, b_units: int, b_places: nat) -> Option<(int, nat)>;

/// The text that `rust_decimal` prints for the decimal with these units and
/// places.
pub uninterp spec fn decimal_text(units: int, places: nat) -> Seq<char>;

/// A decimal price: `units / 10^places`.
#[derive(Clone, Copy, Debug)]
pub struct Price {
    mantissa: i128,
    scale: u32,
}

impl Price {
    #[verifier::type_invariant]
    spec fn representable(self) -> bool {
        -MAX_UNITS <= self.mantissa <= MAX_UNITS && self.scale <= MAX_PLACES
    }

    /// The price as a whole number of its smallest unit.
    pub closed spec fn units(self) -> int {
        self.mantissa as int
    }

    /// How many digits of `units` stand after the decimal point.
    pub closed spec fn places(self) -> nat {
        self.scale as nat
    }

    /// Whether a decimal can hold these units and places.
    pub open spec fn fits(units: int, places: nat) -> bool {
        -MAX_UNITS <= units <= MAX_UNITS && places <= MAX_PLACES
    }

    /// The price with the given units and places.
    pub closed spec fn of(units: int, places: nat) -> Price {
        Price { mantissa: units as i128, scale: places as u32 }
    }

    /// `self` is numerically greater than `other`.
    pub open spec fn spec_exceeds(self, other: Price) -> bool {
        self.units() * pow10(other.places()) > other.units() * pow10(self.places())
    }

    /// `self - other` as `rust_decimal` computes it.
    pub open spec fn spec_minus(self, other: Price) -> Option<Price> {
        match decimal_difference(self.units(), self.places(), other.units(), other.places()) {
            Some((units, places)) => Some(Price::of(units, places)),
            None => None,
        }
    }

    /// The decimal text of the price.
    pub open spec fn spec_text(self) -> Seq<char> {
        decimal_text(self.units(), self.places())
    }

    /// Builds the price `units / 10^places`, if a decimal can hold it.
    pub fn new(units: i128, places: u32) -> (r: Option<Price>)
        ensures
            r.is_some() <==> Price::fits(units as int, places as nat),
            r.is_some() ==> r.unwrap() == Price::of(units as int, places as nat),
            r.is_some() ==> r.unwrap().units() == units && r.unwrap().places() == places,
    {
        if -MAX_UNITS <= units && units <= MAX_UNITS && places <= MAX_PLACES {
            Some(Price { mantissa: units, scale: places })
        } else {
            None
        }
    }

    /// The price zero, with no digits after the point.
    pub fn zero() -> (r: Price)
        ensures
            r.units() == 0,
            r.places() == 0,
            r == Price::of(0, 0),
    {
        Price { mantissa: 0, scale: 0 }
    }

    pub fn mantissa(&self) -> (r: i128)
        ensures
            r == self.units(),
            Price::fits(self.units(), self.places()),
    {
        proof {
            use_type_invariant(self);
        }
        self.mantissa
    }

    pub fn scale(&self) -> (r: u32)
        ensures
            r == self.places(),
            Price::fits(self.units(), self.places()),
    {
        proof {
            use_type_invariant(self);
        }
        self.scale
    }

    /// Whether `self` is numerically greater than `other`.
    pub fn exceeds(&self, other: &Price) -> (r: bool)
        ensures
            r == self.spec_exceeds(*other),
    {
        proof {
            use_type_invariant(self);
            use_type_invariant(other);
        }
        decimal_gt(self.mantissa, self.scale, other.mantissa, other.scale)
    }

    /// `self - other`, or `None` where the difference overflows a decimal.
    pub fn checked_sub(&self, other: &Price) -> (r: Option<Price>)
        ensures
            r == self.spec_minus(*other),
    {
        proof {
            use_type_invariant(self);
            use_type_invariant(other);
        }
        match decimal_checked_sub(self.mantissa, self.scale, other.mantissa, other.scale) {
            Some((units, places)) => Some(Price { mantissa: units, scale: places }),
            None => None,
        }
    }

    /// The price in decimal notation.
    pub fn to_text(&self) -> (r: String)
        ensures
            r@ == self.spec_text(),
    {
        proof {
            use_type_invariant(self);
        }
        decimal_to_string(self.mantissa, self.scale)
    }
}

/// `Decimal`'s `>`: the order of decimals is that of the numbers they stand
/// for, whatever their scales, so `a / 10^a_places > b / 10^b_places`.
#[verifier::external_body]
fn decimal_gt(a_units: i128, a_places: u32, b_units: i128, b_places: u32) -> (r: bool)
    requires
        Price::fits(a_units as int, a_places as nat),
        Price::fits(b_units as int, b_places as nat),
    ensures
        r == (a_units * pow10(b_places as nat) > b_units * pow10(a_places as nat)),
{
    Decimal::from_i128_with_scale(a_units, a_places) > Decimal::from_i128_with_scale(b_units, b_places)
}

/// `Decimal::checked_sub`: the difference is a function of the two decimals
/// alone and is named, not restated; what comes back is a decimal, so its
/// mantissa has at most 96 bits and its scale is at most 28.
#[verifier::external_body]
fn decimal_checked_sub(a_units: i128, a_places: u32, b_units: i128, b_places: u32) -> (r: Option<(i128, u32)>)
    requires
        Price::fits(a_units as int, a_places as nat),
        Price::fits(b_units as int, b_places as nat),
    ensures
        match r {
            Some((units, places)) => decimal_difference(a_units as int, a_places as nat, b_units as int, b_places as nat)
                == Some((units as int, places as nat)) && Price::fits(units as int, places as nat),
            None => decimal_difference(a_units as int, a_places as nat, b_units as int, b_places as nat).is_none(),
        },
{
    let a = Decimal::from_i128_with_scale(a_units, a_places);
    let b = Decimal::from_i128_with_scale(b_units, b_places);
    match a.checked_sub(b) {
        Some(d) => Some((d.mantissa(), d.scale())),
        None => None,
    }
}

/// `Decimal`'s `to_string`: the text depends on the decimal alone and is
/// named, not restated.
#[verifier::external_body]
fn decimal_to_string(units: i128, places: u32) -> (r: String)
    requires
        Price::fits(units as int, places as nat),
    ensures
        r@ == decimal_text(units as int, places as nat),
{
    Decimal::from_i128_with_scale(units, places).to_string()
}

} // verus!
