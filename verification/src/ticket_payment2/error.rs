use vstd::prelude::*;

verus! {

/// Why the payment contract turned a call away.
#[derive(Clone, Copy, Debug, PartialEq, Eq, Structural)]
pub enum Error {
    /// The amount is not more than zero.
    InvalidAmount,
    /// The event has no identifier.
    InvalidEventId,
    /// The contract has not been set up with its token and its platform wallet.
    EventRegistryError,
    /// The fee is more than the amount.
    Overflow,
    /// The buyer holds less than the amount.
    InsufficientBalance,
    /// No payment is recorded under the identifier.
    PaymentNotFound,
    /// The payment has been confirmed before.
    PaymentAlreadyConfirmed,
}

} // verus!
