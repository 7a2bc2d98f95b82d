//! The pool registry, the error mapping, the conversion rule, and the
//! symmetry of quote directions on a shared scale.

use dex_pricing::{
    ConversionRule, Error, Pallet, PoolRegistry, PoolReserve, RpcError, UnitConversion,
};

fn pool(asset_id: u32, currency_reserve: u128, token_reserve: u128) -> PoolReserve {
    PoolReserve { asset_id, currency_reserve, token_reserve }
}

#[test]
fn empty_registry_has_no_pool() {
    let registry = PoolRegistry::new();
    assert_eq!(registry.get_pool(7), Err(Error::ExchangeNotFound));
}

#[test]
fn created_pool_is_found() {
    let mut registry = PoolRegistry::new();
    registry.create_pool(pool(7, 100, 200));
    assert_eq!(registry.get_pool(7), Ok(pool(7, 100, 200)));
    assert_eq!(registry.get_pool(8), Err(Error::ExchangeNotFound));
}

#[test]
fn create_pool_replaces_reserves() {
    let mut registry = PoolRegistry::new();
    registry.create_pool(pool(7, 100, 200));
    registry.create_pool(pool(7, 1_000, 2_000));
    assert_eq!(registry.get_pool(7), Ok(pool(7, 1_000, 2_000)));
}

#[test]
fn pools_coexist_per_asset() {
    let mut registry = PoolRegistry::new();
    registry.create_pool(pool(1, 10, 20));
    registry.create_pool(pool(2, 30, 40));
    registry.create_pool(pool(3, 50, 60));
    assert_eq!(registry.get_pool(1), Ok(pool(1, 10, 20)));
    assert_eq!(registry.get_pool(2), Ok(pool(2, 30, 40)));
    assert_eq!(registry.get_pool(3), Ok(pool(3, 50, 60)));
}

#[test]
fn internal_errors_map_to_stable_errors() {
    assert_eq!(RpcError::from(Error::ExchangeNotFound), RpcError::ExchangeNotFound);
    assert_eq!(
        RpcError::from(Error::NotEnoughLiquidity),
        RpcError::NotEnoughLiquidity
    );
    assert_eq!(RpcError::from(Error::Overflow), RpcError::Overflow);
}

#[test]
fn unexpected_error_carries_diagnostic() {
    let err = RpcError::Unexpected(b"unanticipated".to_vec());
    assert_ne!(err, RpcError::Overflow);
    match err {
        RpcError::Unexpected(d) => assert_eq!(d, b"unanticipated".to_vec()),
        _ => panic!("wrong variant"),
    }
}

#[test]
fn unit_conversion_passes_amounts_through() {
    let conv = UnitConversion;
    assert_eq!(conv.currency_to_asset(12_345), 12_345);
    assert_eq!(conv.asset_to_currency(54_321), 54_321);
}

#[test]
fn symmetry_across_denomination() {
    // A quote in one direction equals the opposite-direction quote against
    // the pool with its reserve roles swapped, on a shared scale.
    let mut fwd = Pallet::new(UnitConversion);
    fwd.create_pool(pool(5, 3_000_000, 7_000_000));
    let mut rev = Pallet::new(UnitConversion);
    rev.create_pool(pool(5, 7_000_000, 3_000_000));
    for &amount in [0u128, 1, 999, 123_456, 2_999_999].iter() {
        assert_eq!(
            fwd.get_currency_to_asset_input_price(5, amount),
            rev.get_asset_to_currency_input_price(5, amount)
        );
        assert_eq!(
            fwd.get_currency_to_asset_output_price(5, amount),
            rev.get_asset_to_currency_output_price(5, amount)
        );
    }
}
