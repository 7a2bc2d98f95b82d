//! Error types: the internal failure kinds of the pricing core, and the
//! small stable error enumeration exposed to quote callers.

use vstd::prelude::*;

verus! {

/// Internal failure kinds of the pricing core.
#[derive(Clone, Copy, Debug, PartialEq, Eq, Structural)]
pub enum Error {
    /// No pool exists for the given asset identifier.
    ExchangeNotFound,
    /// The pool cannot supply the requested fixed output amount.
    NotEnoughLiquidity,
    /// An intermediate product or sum exceeded the integer width.
    Overflow,
}

/// Stable error enumeration exposed to quote callers.
///
/// The three well-known kinds mirror [`Error`]; `Unexpected` is a closed
/// catch-all slot that carries any future internal failure kind opaquely
/// (as a diagnostic byte string) instead of silently collapsing it.
#[derive(Clone, Debug, PartialEq, Eq)]
pub enum RpcError {
    ExchangeNotFound,
    NotEnoughLiquidity,
    Overflow,
    Unexpected(Vec<u8>),
}

pub type RpcResult<T> = Result<T, RpcError>;

impl From<Error> for RpcError {
    fn from(err: Error) -> (r: Self) {
        match err {
            Error::ExchangeNotFound => RpcError::ExchangeNotFound,
            Error::NotEnoughLiquidity => RpcError::NotEnoughLiquidity,
            Error::Overflow => RpcError::Overflow,
        }
    }
}

impl vstd::std_specs::convert::FromSpecImpl<Error> for RpcError {
    open spec fn obeys_from_spec() -> bool {
        true
    }

    open spec fn from_spec(err: Error) -> Self {
        match err {
            Error::ExchangeNotFound => RpcError::ExchangeNotFound,
            Error::NotEnoughLiquidity => RpcError::NotEnoughLiquidity,
            Error::Overflow => RpcError::Overflow,
        }
    }
}

} // verus!
