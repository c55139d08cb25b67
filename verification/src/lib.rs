//! The rules of an event-ticketing platform's ledger contracts, as state machines.
//!
//! Each contract is a value that stands for what the contract keeps in storage, and
//! each entry point is a method on it. What the host supplies to an invocation (the
//! contract's own address, the ledger time, the authorisations it has confirmed, a
//! token balance) comes in as plain arguments; what the host is to do afterwards
//! (publish an event, move tokens) goes out as plain results.

pub mod address;
pub mod text;
pub mod host;
pub mod event_registry;
pub mod ticket_payment2;
pub mod ticket_payment;
