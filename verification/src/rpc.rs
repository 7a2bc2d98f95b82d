//! The quote facade: four directional price queries over provisioned pools.
//!
//! Each query resolves the pool for an asset identifier, converts the
//! caller's amount and the reserves to the common scale, delegates to the
//! pricing engine with the reserves in the roles that the trade direction
//! dictates, converts the result back to the caller's denomination, and maps
//! internal failures to the stable [`RpcError`] set. Every query is a pure
//! read of one reserve snapshot; its exact result is pinned by a spec
//! function of the registry state, the conversion rule, and the amount.

use vstd::prelude::*;
use crate::conversion::{ConversionRule, UnitConversion};
use crate::engine::{
    compute_input_price,
    compute_output_price,
    input_price_fits,
    output_price_fits,
    spec_input_price,
    spec_output_price,
};
use crate::errors::{RpcError, RpcResult};
use crate::pool::{PoolRegistry, PoolReserve};

verus! {

/// The pricing core's outward face: the pool registry snapshot it reads and
/// the denomination conversion rule it applies.
pub struct Pallet<C: ConversionRule> {
    pub registry: PoolRegistry,
    pub conversion: C,
}

impl<C: ConversionRule> Pallet<C> {
    /// A facade over an empty registry and the given conversion rule.
    pub fn new(conversion: C) -> (r: Pallet<C>)
        ensures
            r.registry@ == Map::<u32, PoolReserve>::empty(),
            r.conversion == conversion,
    {
        Pallet { registry: PoolRegistry::new(), conversion }
    }

    /// Provision a pool, or replace the reserves provisioned under the same
    /// asset identifier.
    pub fn create_pool(&mut self, pool: PoolReserve)
        ensures
            final(self).registry@ == old(self).registry@.insert(pool.asset_id, pool),
            final(self).conversion == old(self).conversion,
    {
        self.registry.create_pool(pool);
    }

    /// The exact result of a fixed-input currency-to-asset quote.
    pub open spec fn currency_to_asset_input_spec(
        &self,
        asset_id: u32,
        currency_amount: u128,
    ) -> RpcResult<u128> {
        if !self.registry@.contains_key(asset_id) {
            Err(RpcError::ExchangeNotFound)
        } else {
            let pool = self.registry@[asset_id];
            let output_reserve = self.conversion.asset_to_currency_spec(pool.token_reserve);
            if input_price_fits(
                currency_amount as int,
                pool.currency_reserve as int,
                output_reserve as int,
            ) {
                Ok(
                    self.conversion.currency_to_asset_spec(
                        spec_input_price(
                            currency_amount as int,
                            pool.currency_reserve as int,
                            output_reserve as int,
                        ) as u128,
                    ),
                )
            } else {
                Err(RpcError::Overflow)
            }
        }
    }

    /// The exact result of a fixed-output currency-to-asset quote.
    pub open spec fn currency_to_asset_output_spec(
        &self,
        asset_id: u32,
        token_amount: u128,
    ) -> RpcResult<u128> {
        if !self.registry@.contains_key(asset_id) {
            Err(RpcError::ExchangeNotFound)
        } else {
            let pool = self.registry@[asset_id];
            let amount_out = self.conversion.asset_to_currency_spec(token_amount);
            let output_reserve = self.conversion.asset_to_currency_spec(pool.token_reserve);
            if amount_out >= output_reserve {
                Err(RpcError::NotEnoughLiquidity)
            } else if output_price_fits(
                amount_out as int,
                pool.currency_reserve as int,
                output_reserve as int,
            ) {
                Ok(
                    spec_output_price(
                        amount_out as int,
                        pool.currency_reserve as int,
                        output_reserve as int,
                    ) as u128,
                )
            } else {
                Err(RpcError::Overflow)
            }
        }
    }

    /// The exact result of a fixed-input asset-to-currency quote.
    pub open spec fn asset_to_currency_input_spec(
        &self,
        asset_id: u32,
        token_amount: u128,
    ) -> RpcResult<u128> {
        if !self.registry@.contains_key(asset_id) {
            Err(RpcError::ExchangeNotFound)
        } else {
            let pool = self.registry@[asset_id];
            let amount_in = self.conversion.asset_to_currency_spec(token_amount);
            let input_reserve = self.conversion.asset_to_currency_spec(pool.token_reserve);
            if input_price_fits(
                amount_in as int,
                input_reserve as int,
                pool.currency_reserve as int,
            ) {
                Ok(
                    spec_input_price(
                        amount_in as int,
                        input_reserve as int,
                        pool.currency_reserve as int,
                    ) as u128,
                )
            } else {
                Err(RpcError::Overflow)
            }
        }
    }

    /// The exact result of a fixed-output asset-to-currency quote.
    pub open spec fn asset_to_currency_output_spec(
        &self,
        asset_id: u32,
        currency_amount: u128,
    ) -> RpcResult<u128> {
        if !self.registry@.contains_key(asset_id) {
            Err(RpcError::ExchangeNotFound)
        } else {
            let pool = self.registry@[asset_id];
            let input_reserve = self.conversion.asset_to_currency_spec(pool.token_reserve);
            if currency_amount >= pool.currency_reserve {
                Err(RpcError::NotEnoughLiquidity)
            } else if output_price_fits(
                currency_amount as int,
                input_reserve as int,
                pool.currency_reserve as int,
            ) {
                Ok(
                    self.conversion.currency_to_asset_spec(
                        spec_output_price(
                            currency_amount as int,
                            input_reserve as int,
                            pool.currency_reserve as int,
                        ) as u128,
                    ),
                )
            } else {
                Err(RpcError::Overflow)
            }
        }
    }

    /// Get the price for a fixed-input currency-to-asset trade,
    /// i.e. 'How much asset would I get if I paid this much currency'?
    pub fn get_currency_to_asset_input_price(&self, asset_id: u32, currency_amount: u128) -> (r:
        RpcResult<u128>)
        ensures
            r == self.currency_to_asset_input_spec(asset_id, currency_amount),
    {
        let pool = match self.registry.get_pool(asset_id) {
            Ok(p) => p,
            Err(e) => { return Err(RpcError::from(e)); },
        };
        let output_reserve = self.conversion.asset_to_currency(pool.token_reserve);
        let price = match compute_input_price(
            currency_amount,
            pool.currency_reserve,
            output_reserve,
        ) {
            Ok(v) => v,
            Err(e) => { return Err(RpcError::from(e)); },
        };
        Ok(self.conversion.currency_to_asset(price))
    }

    /// Get the price for a fixed-output currency-to-asset trade,
    /// i.e. 'How much currency do I have to pay to get this much asset'?
    pub fn get_currency_to_asset_output_price(&self, asset_id: u32, token_amount: u128) -> (r:
        RpcResult<u128>)
        ensures
            r == self.currency_to_asset_output_spec(asset_id, token_amount),
    {
        let pool = match self.registry.get_pool(asset_id) {
            Ok(p) => p,
            Err(e) => { return Err(RpcError::from(e)); },
        };
        let amount_out = self.conversion.asset_to_currency(token_amount);
        let output_reserve = self.conversion.asset_to_currency(pool.token_reserve);
        match compute_output_price(amount_out, pool.currency_reserve, output_reserve) {
            Ok(v) => Ok(v),
            Err(e) => Err(RpcError::from(e)),
        }
    }

    /// Get the price for a fixed-input asset-to-currency trade,
    /// i.e. 'How much currency would I get if I paid this much asset'?
    pub fn get_asset_to_currency_input_price(&self, asset_id: u32, token_amount: u128) -> (r:
        RpcResult<u128>)
        ensures
            r == self.asset_to_currency_input_spec(asset_id, token_amount),
    {
        let pool = match self.registry.get_pool(asset_id) {
            Ok(p) => p,
            Err(e) => { return Err(RpcError::from(e)); },
        };
        let amount_in = self.conversion.asset_to_currency(token_amount);
        let input_reserve = self.conversion.asset_to_currency(pool.token_reserve);
        match compute_input_price(amount_in, input_reserve, pool.currency_reserve) {
            Ok(v) => Ok(v),
            Err(e) => Err(RpcError::from(e)),
        }
    }

    /// Get the price for a fixed-output asset-to-currency trade,
    /// i.e. 'How much asset do I have to pay to get this much currency'?
    pub fn get_asset_to_currency_output_price(&self, asset_id: u32, currency_amount: u128) -> (r:
        RpcResult<u128>)
        ensures
            r == self.asset_to_currency_output_spec(asset_id, currency_amount),
    {
        let pool = match self.registry.get_pool(asset_id) {
            Ok(p) => p,
            Err(e) => { return Err(RpcError::from(e)); },
        };
        let input_reserve = self.conversion.asset_to_currency(pool.token_reserve);
        let price = match compute_output_price(
            currency_amount,
            input_reserve,
            pool.currency_reserve,
        ) {
            Ok(v) => v,
            Err(e) => { return Err(RpcError::from(e)); },
        };
        Ok(self.conversion.currency_to_asset(price))
    }
}

/// No-pool law: for an asset identifier with no provisioned pool, all four
/// quote operations fail with `ExchangeNotFound`, whatever the amounts.
pub proof fn lemma_no_pool_quotes_fail<C: ConversionRule>(
    dex: &Pallet<C>,
    asset_id: u32,
    amount: u128,
)
    requires
        !dex.registry@.contains_key(asset_id),
    ensures
        dex.currency_to_asset_input_spec(asset_id, amount) == Err::<u128, RpcError>(
            RpcError::ExchangeNotFound,
        ),
        dex.currency_to_asset_output_spec(asset_id, amount) == Err::<u128, RpcError>(
            RpcError::ExchangeNotFound,
        ),
        dex.asset_to_currency_input_spec(asset_id, amount) == Err::<u128, RpcError>(
            RpcError::ExchangeNotFound,
        ),
        dex.asset_to_currency_output_spec(asset_id, amount) == Err::<u128, RpcError>(
            RpcError::ExchangeNotFound,
        ),
{
}

/// Denomination symmetry law, stated where the two denominations share one
/// scale: a quote in one direction against a pool equals the quote in the
/// opposite direction against the pool with its reserve roles swapped, for
/// both the fixed-input and the fixed-output operation.
pub proof fn lemma_denomination_symmetry(
    fwd: &Pallet<UnitConversion>,
    rev: &Pallet<UnitConversion>,
    asset_id: u32,
    amount: u128,
)
    requires
        fwd.registry@.contains_key(asset_id),
        rev.registry@.contains_key(asset_id),
        rev.registry@[asset_id].currency_reserve == fwd.registry@[asset_id].token_reserve,
        rev.registry@[asset_id].token_reserve == fwd.registry@[asset_id].currency_reserve,
    ensures
        fwd.currency_to_asset_input_spec(asset_id, amount) == rev.asset_to_currency_input_spec(
            asset_id,
            amount,
        ),
        fwd.currency_to_asset_output_spec(asset_id, amount) == rev.asset_to_currency_output_spec(
            asset_id,
            amount,
        ),
{
}

} // verus!
