use vstd::prelude::*;
use crate::address::Address;

verus! {

/// What the host tells a contract about the invocation that is running.
#[derive(Debug)]
pub struct CallContext {
    /// The address at which the invoked contract is deployed.
    pub contract_address: Address,
    /// The ledger's close time, in seconds.
    pub timestamp: u64,
    /// The addresses whose authorisation of this invocation the host has confirmed.
    pub authorized: Vec<Address>,
}

impl CallContext {
    /// Whether the host has confirmed that `who` authorised the invocation.
    pub open spec fn authorizes(&self, who: Seq<char>) -> bool {
        exists|i: int| 0 <= i < self.authorized@.len() && (#[trigger] self.authorized@[i])@ == who
    }
}

} // verus!
