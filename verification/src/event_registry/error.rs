use vstd::prelude::*;

verus! {

/// Why the event registry turned a call away.
#[derive(Clone, Copy, Debug, PartialEq, Eq, Structural)]
pub enum EventRegistryError {
    /// The registry has been initialized before.
    AlreadyInitialized,
    /// The registry has not been initialized yet.
    NotInitialized,
    /// The address is the registry's own.
    InvalidAddress,
    /// The fee is more than the whole amount.
    InvalidFeePercent,
    /// An event is already registered under the identifier.
    EventAlreadyExists,
    /// No event is registered under the identifier.
    EventNotFound,
    /// The event does not accept payments at present.
    EventInactive,
}

} // verus!
