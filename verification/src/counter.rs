//! The counter contract: one 256-bit number with wrapping arithmetic.
use vstd::prelude::*;
use crate::host::CallContext;
use crate::primitives::{Address, U256, word_modulus};

verus! {

/// The counter contract, with the call context that the chain supplies.
pub struct Counter {
    vm: CallContext,
    number: U256,
}

impl View for Counter {
    type V = nat;

    closed spec fn view(&self) -> nat {
        self.number@
    }
}

impl Counter {
    /// The call context in force.
    pub closed spec fn env(&self) -> CallContext {
        self.vm
    }

    /// A counter holding zero.
    pub fn new() -> (r: Counter)
        ensures
            r@ == 0,
            r.env().sender.is_zero_spec(),
            r.env().block_timestamp == 0,
            r.env().value@ == 0,
    {
        Counter { vm: CallContext::new(), number: U256::zero() }
    }

    /// Sets the caller of the next calls.
    pub fn set_sender(&mut self, sender: Address)
        ensures
            final(self)@ == old(self)@,
            final(self).env() == (CallContext { sender: sender, ..old(self).env() }),
    {
        self.vm.sender = sender;
    }

    /// Sets the value sent with the next calls.
    pub fn set_value(&mut self, value: U256)
        ensures
            final(self)@ == old(self)@,
            final(self).env() == (CallContext { value: value, ..old(self).env() }),
    {
        self.vm.value = value;
    }

    pub fn number(&self) -> (r: U256)
        ensures
            r@ == self@,
    {
        self.number
    }

    pub fn set_number(&mut self, new_number: U256)
        ensures
            final(self)@ == new_number@,
            final(self).env() == old(self).env(),
    {
        self.number = new_number;
    }

    /// Multiplies the number by `new_number`, modulo 2^256.
    pub fn mul_number(&mut self, new_number: U256)
        ensures
            final(self)@ == (new_number@ * old(self)@) % word_modulus(),
            final(self).env() == old(self).env(),
    {
        self.number = new_number.wrapping_mul(self.number);
    }

    /// Adds `new_number` to the number, modulo 2^256.
    pub fn add_number(&mut self, new_number: U256)
        ensures
            final(self)@ == (new_number@ + old(self)@) % word_modulus(),
            final(self).env() == old(self).env(),
    {
        self.number = new_number.wrapping_add(self.number);
    }

    /// Adds one, modulo 2^256.
    pub fn increment(&mut self)
        ensures
            final(self)@ == (old(self)@ + 1) % word_modulus(),
            final(self).env() == old(self).env(),
    {
        let number = self.number;
        self.set_number(number.wrapping_add(U256::from_u64(1)));
    }

    /// Adds the value sent with the call, modulo 2^256.
    pub fn add_from_msg_value(&mut self)
        ensures
            final(self)@ == (old(self)@ + old(self).env().value@) % word_modulus(),
            final(self).env() == old(self).env(),
    {
        let number = self.number;
        let value = self.vm.value;
        self.set_number(number.wrapping_add(value));
    }
}

/// The stored number is always a 256-bit word.
pub proof fn lemma_number_is_word(c: Counter)
    ensures
        c@ < word_modulus(),
{
    let n = c.number;
    assert(n.limb0 < 0x1_0000_0000_0000_0000 && n.limb1 < 0x1_0000_0000_0000_0000 && n.limb2
        < 0x1_0000_0000_0000_0000 && n.limb3 < 0x1_0000_0000_0000_0000);
}

} // verus!
