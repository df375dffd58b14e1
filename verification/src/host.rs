//! What the executing chain tells a contract about the call in progress.
use vstd::prelude::*;
use crate::primitives::{Address, U256};

verus! {

/// The caller, the block time and the value sent with the call.
#[derive(Clone, Copy, Debug)]
pub struct CallContext {
    pub sender: Address,
    pub block_timestamp: u64,
    pub value: U256,
}

impl CallContext {
    /// A context with the zero address as caller, at time zero, with no value sent.
    pub fn new() -> (r: CallContext)
        ensures
            r.sender.is_zero_spec(),
            r.block_timestamp == 0,
            r.value@ == 0,
    {
        CallContext { sender: Address::zero(), block_timestamp: 0, value: U256::zero() }
    }
}

} // verus!
