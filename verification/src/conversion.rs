//! Denomination conversion between currency units and asset units.
//!
//! All curve math runs over one common scale. Amounts cross between the two
//! denominations only through an explicit conversion rule supplied by
//! configuration: a pure, deterministic, monotonic function pair. The engine
//! never hard-codes a conversion; distinct deployments may use different
//! fixed-point precisions.

use vstd::prelude::*;

verus! {

/// A pure pair of denomination conversions. Implementations fix the
/// functions (`*_spec`), expose them executably, and must prove both
/// directions monotonic.
pub trait ConversionRule: Sized {
    /// The conversion applied to an amount in currency units.
    spec fn currency_to_asset_spec(&self, amount: u128) -> u128;

    /// The conversion applied to an amount in asset units.
    spec fn asset_to_currency_spec(&self, amount: u128) -> u128;

    /// Converting to asset units never reorders amounts.
    proof fn currency_to_asset_monotonic(&self, small: u128, large: u128)
        requires
            small <= large,
        ensures
            self.currency_to_asset_spec(small) <= self.currency_to_asset_spec(large),
    ;

    /// Converting to currency units never reorders amounts.
    proof fn asset_to_currency_monotonic(&self, small: u128, large: u128)
        requires
            small <= large,
        ensures
            self.asset_to_currency_spec(small) <= self.asset_to_currency_spec(large),
    ;

    /// Express a currency-denominated amount in asset units.
    fn currency_to_asset(&self, amount: u128) -> (r: u128)
        ensures
            r == self.currency_to_asset_spec(amount),
    ;

    /// Express an asset-denominated amount in currency units.
    fn asset_to_currency(&self, amount: u128) -> (r: u128)
        ensures
            r == self.asset_to_currency_spec(amount),
    ;
}

/// The conversion rule of a deployment where both denominations share one
/// fixed-point scale: amounts pass through unchanged.
pub struct UnitConversion;

impl ConversionRule for UnitConversion {
    open spec fn currency_to_asset_spec(&self, amount: u128) -> u128 {
        amount
    }

    open spec fn asset_to_currency_spec(&self, amount: u128) -> u128 {
        amount
    }

    proof fn currency_to_asset_monotonic(&self, small: u128, large: u128) {
    }

    proof fn asset_to_currency_monotonic(&self, small: u128, large: u128) {
    }

    fn currency_to_asset(&self, amount: u128) -> (r: u128) {
        amount
    }

    fn asset_to_currency(&self, amount: u128) -> (r: u128) {
        amount
    }
}

} // verus!
