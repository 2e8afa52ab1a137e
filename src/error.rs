use vstd::prelude::*;

verus! {

/// Every reason an entrypoint of a component can fail.
#[derive(Debug, Clone, Copy, PartialEq, Eq, Structural)]
pub enum Error {
    /// The component was already constructed.
    AlreadyInitialized,
    /// The required authorization proof is missing, or the account holds
    /// no role that allows the operation.
    Unauthorized,
    /// No price record exists for the asset.
    NotFound,
    /// A price that is zero or negative.
    InvalidPrice,
    /// A negative token amount.
    InvalidAmount,
    /// The account holds fewer tokens than the operation moves.
    InsufficientBalance,
    /// A balance or the total supply would leave the signed 128-bit range.
    ArithmeticOverflow,
    /// The mint amount could not be computed from the payment and the price.
    ArithmeticError,
    /// Pulling the payment from the user failed.
    PaymentFailed,
    /// No token ledger is configured for the symbol.
    TokenNotConfigured,
    /// The price registry has no price for the symbol, or none is configured.
    PriceUnavailable,
}

} // verus!
